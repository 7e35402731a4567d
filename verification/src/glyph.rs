//! TrueType tags, the big-endian readers that a font parser uses, and the
//! bitmaps of the built-in 5x7 font as cut from a sheet of glyphs.
use vstd::prelude::*;
use crate::parsing::be32;
use crate::string_util::hex_digit;
use crate::text::string_from_utf8;
use vstd::utf8::{encode_utf8, encode_scalar, encode_utf8_decode_utf8, encode_utf8_valid_utf8};
pub use crate::parsing::{read_u8, read_u16_be, read_i16_be, read_u32_be, read_u64_be, read_u16_le, read_u32_le};

verus! {

/// A four-character table tag, packed big-endian.
#[derive(PartialEq, Eq, Copy, Clone, Debug, Structural)]
pub struct Tag(pub u32);

/// Byte `k` (0 the most significant) of `v`, read as the character with that code.
pub open spec fn tag_char(v: u32, k: int) -> char {
    ((v >> ((24 - 8 * k) as u32)) & 0xFF) as u8 as char
}

/// Hexadecimal digit `k` (0 the most significant) of `v`, in lowercase.
pub open spec fn tag_digit(v: u32, k: int) -> char {
    hex_digit(((v >> ((28 - 4 * k) as u32)) & 0xF) as int)
}

/// The text by which a tag shows itself: its four bytes as characters (each
/// byte read as the character with that code), then its value as eight
/// lowercase hexadecimal digits in brackets, as in `cmap (636d6170)`.
pub open spec fn tag_text(v: u32) -> Seq<char> {
    Seq::new(4, |k: int| tag_char(v, k)) + seq![' ', '('] + Seq::new(8, |k: int| tag_digit(v, k)) + seq![')']
}

proof fn lemma_encode_push(a: Seq<char>, c: char)
    ensures
        encode_utf8(a.push(c)) == encode_utf8(a) + encode_scalar(c as u32),
    decreases a.len(),
{
    if a.len() == 0 {
        assert(a.push(c).drop_first() =~= Seq::<char>::empty());
        assert(encode_utf8(a.push(c)) =~= encode_scalar(c as u32) + encode_utf8(Seq::<char>::empty()));
    } else {
        lemma_encode_push(a.drop_first(), c);
        assert(a.push(c).drop_first() =~= a.drop_first().push(c));
        assert(encode_utf8(a.push(c)) =~= encode_scalar(a[0] as u32) + (encode_utf8(a.drop_first())
            + encode_scalar(c as u32)));
    }
}

/// Appends the UTF-8 encoding of the character whose code is `b`.
fn push_byte_char(bytes: &mut Vec<u8>, b: u8)
    ensures
        final(bytes)@ == old(bytes)@ + encode_scalar(b as char as u32),
{
    let ghost c = b as char as u32;
    assert(c == b as u32);
    if b < 0x80 {
        bytes.push(b);
        assert(encode_scalar(c) =~= seq![b]) by {
            assert((c & 0x7F) as u8 == b) by (bit_vector)
                requires
                    c == b as u32,
                    b < 0x80,
            ;
        }
    } else {
        let hi = 0xC0 | (b >> 6);
        let lo = 0x80 | (b & 0x3F);
        bytes.push(hi);
        bytes.push(lo);
        assert(encode_scalar(c) =~= seq![hi, lo]) by {
            assert(0xC0 | ((c >> 6) & 0x1F) as u8 == hi && 0x80 | (c & 0x3F) as u8 == lo && 0x80 <= c
                && c <= 0x7FF) by (bit_vector)
                requires
                    c == b as u32,
                    b >= 0x80,
                    hi == 0xC0 | (b >> 6),
                    lo == 0x80 | (b & 0x3F),
            ;
        }
    }
    assert(final(bytes)@ =~= old(bytes)@ + encode_scalar(c));
}

/// The ASCII code of the lowercase hexadecimal digit for `v` (below 16).
fn hex_code(v: u32) -> (c: u8)
    requires
        v < 16,
    ensures
        c as char == hex_digit(v as int),
        c < 0x80,
{
    if v < 10 {
        48 + (v as u8)
    } else {
        87 + (v as u8)
    }
}

impl Tag {
    /// The tag made of four bytes, the first one most significant.
    pub fn new(s: &[u8; 4]) -> (t: Self)
        ensures
            t.0 == be32(s@),
    {
        let (b0, b1, b2, b3) = (s[0], s[1], s[2], s[3]);
        let v = (b0 as u32) << 24 | (b1 as u32) << 16 | (b2 as u32) << 8 | (b3 as u32);
        assert(v == b0 * 0x100_0000 + b1 * 0x1_0000 + b2 * 0x100 + b3) by (bit_vector)
            requires
                v == (b0 as u32) << 24 | (b1 as u32) << 16 | (b2 as u32) << 8 | (b3 as u32),
        ;
        Tag(v)
    }

    /// The text by which the tag shows itself (see `tag_text`).
    pub fn text(&self) -> (s: String)
        ensures
            s@ == tag_text(self.0),
    {
        let v = self.0;
        let mut bytes: Vec<u8> = Vec::new();
        let ghost mut chars: Seq<char> = Seq::empty();
        let mut k: u32 = 0;
        while k < 4
            invariant
                k <= 4,
                v == self.0,
                bytes@ == encode_utf8(chars),
                chars =~= Seq::new(k as nat, |j: int| tag_char(v, j)),
            decreases 4 - k,
        {
            let shift: u32 = 24 - 8 * k;
            let b = ((v >> shift) & 0xFF) as u8;
            push_byte_char(&mut bytes, b);
            proof {
                lemma_encode_push(chars, b as char);
                chars = chars.push(b as char);
            }
            k = k + 1;
        }
        let ghost head = chars;
        push_byte_char(&mut bytes, 32);
        proof {
            assert(32u8 as char == ' ');
            lemma_encode_push(chars, ' ');
            chars = chars.push(' ');
        }
        push_byte_char(&mut bytes, 40);
        proof {
            assert(40u8 as char == '(');
            lemma_encode_push(chars, '(');
            chars = chars.push('(');
        }
        let ghost opened = chars;
        let mut k: u32 = 0;
        while k < 8
            invariant
                k <= 8,
                v == self.0,
                bytes@ == encode_utf8(chars),
                chars =~= opened + Seq::new(k as nat, |j: int| tag_digit(v, j)),
            decreases 8 - k,
        {
            let shift: u32 = 28 - 4 * k;
            let d = (v >> shift) & 0xF;
            assert(d < 16) by (bit_vector)
                requires
                    d == (v >> shift) & 0xF,
            ;
            let c = hex_code(d);
            push_byte_char(&mut bytes, c);
            proof {
                lemma_encode_push(chars, c as char);
                chars = chars.push(c as char);
            }
            k = k + 1;
        }
        push_byte_char(&mut bytes, 41);
        proof {
            assert(41u8 as char == ')');
            lemma_encode_push(chars, ')');
            chars = chars.push(')');
            assert(chars =~= tag_text(v));
            encode_utf8_valid_utf8(chars);
            encode_utf8_decode_utf8(chars);
        }
        match string_from_utf8(bytes) {
            Some(s) => s,
            None => vstd::pervasive::unreached(),
        }
    }
}

/// The width of a glyph of the built-in font, in pixels.
pub const GLYPH_WIDTH: usize = 5;

/// The height of a glyph of the built-in font, in pixels.
pub const GLYPH_HEIGHT: usize = 7;

/// The sheet pixel that point `e` (row by row) of glyph `g` comes from: the
/// sheet holds 6 rows of 18 cells of 7 by 9 pixels, glyphs row by row, and a
/// glyph is its cell less a border of one pixel.
pub open spec fn sheet_index(width: int, g: int, e: int) -> int {
    let row = g / 18;
    let col = g % 18;
    (9 * row + 1 + e / 5) * width + 7 * col + 1 + e % 5
}

/// The bitmaps of the 108 glyphs of a sheet of single-channel pixels,
/// `width` pixels wide: 1 for a lit pixel, 0 for a dark one.
pub fn glyph_bitmaps(pixels: &[u8], width: usize) -> (glyphs: Vec<Vec<u8>>)
    requires
        52 * width + 124 < pixels.len(),
    ensures
        glyphs@.len() == 108,
        forall|g: int| 0 <= g < 108 ==> (#[trigger] glyphs@[g])@.len() == 35,
        forall|g: int, e: int|
            0 <= g < 108 && 0 <= e < 35 ==> #[trigger] glyphs@[g]@[e] == (if pixels@[sheet_index(
                width as int,
                g,
                e,
            )] == 0 {
                0u8
            } else {
                1u8
            }),
{
    let mut glyphs: Vec<Vec<u8>> = Vec::new();
    let mut row: usize = 0;
    while row < 6
        invariant
            row <= 6,
            52 * width + 124 < pixels.len(),
            glyphs@.len() == 18 * row,
            forall|g: int| 0 <= g < glyphs@.len() ==> (#[trigger] glyphs@[g])@.len() == 35,
            forall|g: int, e: int|
                0 <= g < glyphs@.len() && 0 <= e < 35 ==> #[trigger] glyphs@[g]@[e] == (
                if pixels@[sheet_index(width as int, g, e)] == 0 {
                    0u8
                } else {
                    1u8
                }),
        decreases 6 - row,
    {
        let mut col: usize = 0;
        while col < 18
            invariant
                row < 6,
                col <= 18,
                52 * width + 124 < pixels.len(),
                glyphs@.len() == 18 * row + col,
                forall|g: int| 0 <= g < glyphs@.len() ==> (#[trigger] glyphs@[g])@.len() == 35,
                forall|g: int, e: int|
                    0 <= g < glyphs@.len() && 0 <= e < 35 ==> #[trigger] glyphs@[g]@[e] == (
                    if pixels@[sheet_index(width as int, g, e)] == 0 {
                        0u8
                    } else {
                        1u8
                    }),
            decreases 18 - col,
        {
            let ghost g = 18 * row + col;
            let mut glyph: Vec<u8> = Vec::new();
            let mut y: usize = 9 * row + 1;
            while y < 9 * row + 8
                invariant
                    row < 6,
                    col < 18,
                    g == 18 * row + col,
                    9 * row + 1 <= y <= 9 * row + 8,
                    52 * width + 124 < pixels.len(),
                    glyph@.len() == 5 * (y - (9 * row + 1)),
                    forall|e: int|
                        0 <= e < glyph@.len() ==> #[trigger] glyph@[e] == (if pixels@[sheet_index(
                            width as int,
                            g,
                            e,
                        )] == 0 {
                            0u8
                        } else {
                            1u8
                        }),
                decreases 9 * row + 8 - y,
            {
                let mut x: usize = 7 * col + 1;
                while x < 7 * col + 6
                    invariant
                        row < 6,
                        col < 18,
                        g == 18 * row + col,
                        9 * row + 1 <= y < 9 * row + 8,
                        7 * col + 1 <= x <= 7 * col + 6,
                        52 * width + 124 < pixels.len(),
                        glyph@.len() == 5 * (y - (9 * row + 1)) + (x - (7 * col + 1)),
                        forall|e: int|
                            0 <= e < glyph@.len() ==> #[trigger] glyph@[e] == (if pixels@[sheet_index(
                                width as int,
                                g,
                                e,
                            )] == 0 {
                                0u8
                            } else {
                                1u8
                            }),
                    decreases 7 * col + 6 - x,
                {
                    assert(y * width <= 52 * width) by (nonlinear_arith)
                        requires
                            y <= 52,
                    ;
                    let idx = y * width + x;
                    let ghost e = glyph@.len() as int;
                    assert(e / 5 == y - (9 * row + 1) && e % 5 == x - (7 * col + 1));
                    assert(g / 18 == row && g % 18 == col);
                    assert(idx == sheet_index(width as int, g, e));
                    let v: u8 = if pixels[idx] == 0 { 0 } else { 1 };
                    glyph.push(v);
                    x = x + 1;
                }
                y = y + 1;
            }
            glyphs.push(glyph);
            col = col + 1;
        }
        row = row + 1;
    }
    glyphs
}

} // verus!
