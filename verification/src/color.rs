use vstd::prelude::*;

verus! {

/// An 8-bit-per-channel RGBA colour.
#[derive(Copy, Clone, Debug, Default, PartialEq, Eq, Structural)]
pub struct Color {
    pub r: u8,
    pub g: u8,
    pub b: u8,
    pub a: u8,
}

/// The 0xAARRGGBB packing of four channels.
pub open spec fn pack_argb(r: u8, g: u8, b: u8, a: u8) -> int {
    a as int * 0x100_0000 + r as int * 0x1_0000 + g as int * 0x100 + b as int
}

/// The colour whose channels are the bytes of the 0xAARRGGBB word `x`.
pub open spec fn unpack_argb(x: u32) -> Color {
    Color {
        r: ((x as int / 0x1_0000) % 0x100) as u8,
        g: ((x as int / 0x100) % 0x100) as u8,
        b: (x as int % 0x100) as u8,
        a: (x as int / 0x100_0000) as u8,
    }
}

/// The palette, as 0xAARRGGBB words (`Color::from_hex` gives each colour).
pub const BLACK: u32 = 0xff000000;
pub const WHITE: u32 = 0xffffffff;
pub const RED: u32 = 0xffff0000;
pub const GREEN: u32 = 0xff00ff00;
pub const BLUE: u32 = 0xff0000ff;
pub const YELLOW: u32 = 0xffffff00;
pub const DARK_GREEN: u32 = 0xff007f00;
pub const DARK_BLUE: u32 = 0xff00007f;
pub const DARK_GREY: u32 = 0xff333333;
pub const LIGHT_GREY: u32 = 0xff999999;
pub const BROWN: u32 = 0xff7f0000;
pub const CYAN: u32 = 0xff007f7f;
pub const GREY: u32 = 0xff7f7f7f;
pub const PURPLE: u32 = 0xff7f007f;
pub const ORANGE: u32 = 0xffff7f00;

impl Color {
    pub fn new(r: u8, g: u8, b: u8, a: u8) -> (c: Self)
        ensures
            c == (Color { r, g, b, a }),
    {
        Color { r, g, b, a }
    }

    /// Reads a 0xAARRGGBB word as a colour.
    pub fn from_hex(linear: u32) -> (c: Self)
        ensures
            c == unpack_argb(linear),
    {
        Self::from_hex_linear(linear)
    }

    /// Reads a 0xAARRGGBB word as a colour, channel by channel.
    pub fn from_hex_linear(linear: u32) -> (c: Self)
        ensures
            c == unpack_argb(linear),
    {
        let r = ((linear >> 16) & 0xFF) as u8;
        let g = ((linear >> 8) & 0xFF) as u8;
        let b = (linear & 0xFF) as u8;
        let a = ((linear >> 24) & 0xFF) as u8;
        assert(r == ((linear as int / 0x1_0000) % 0x100) as u8 && g == ((linear as int / 0x100)
            % 0x100) as u8 && b == (linear as int % 0x100) as u8 && a == (linear as int
            / 0x100_0000) as u8) by (bit_vector)
            requires
                r == ((linear >> 16) & 0xFF) as u8,
                g == ((linear >> 8) & 0xFF) as u8,
                b == (linear & 0xFF) as u8,
                a == ((linear >> 24) & 0xFF) as u8,
        ;
        Color::new(r, g, b, a)
    }

    /// The colour with red, green and blue complemented; alpha is kept.
    pub fn invert(&self) -> (c: Self)
        ensures
            c == (Color { r: (255 - self.r) as u8, g: (255 - self.g) as u8, b: (255 - self.b) as u8, a: self.a }),
    {
        Self::new(255 - self.r, 255 - self.g, 255 - self.b, self.a)
    }

    /// The colour packed as 0xAARRGGBB.
    pub fn as_u32(&self) -> (x: u32)
        ensures
            x == pack_argb(self.r, self.g, self.b, self.a),
    {
        let (r, g, b, a) = (self.r, self.g, self.b, self.a);
        let x = (a as u32) << 24 | (r as u32) << 16 | (g as u32) << 8 | (b as u32);
        assert(x == a as int * 0x100_0000 + r as int * 0x1_0000 + g as int * 0x100 + b as int)
            by (bit_vector)
            requires
                x == (a as u32) << 24 | (r as u32) << 16 | (g as u32) << 8 | (b as u32),
        ;
        x
    }
}

/// Packing a colour and unpacking the word gives the colour back.
pub proof fn lemma_unpack_pack(c: Color)
    ensures
        0 <= pack_argb(c.r, c.g, c.b, c.a) <= u32::MAX,
        unpack_argb(pack_argb(c.r, c.g, c.b, c.a) as u32) == c,
{
    let (r, g, b, a) = (c.r, c.g, c.b, c.a);
    let x = pack_argb(r, g, b, a);
    assert(0 <= x <= u32::MAX);
    assert(((x as u32) as int / 0x1_0000) % 0x100 == r && ((x as u32) as int / 0x100) % 0x100 == g
        && (x as u32) as int % 0x100 == b && (x as u32) as int / 0x100_0000 == a) by (nonlinear_arith)
        requires
            x == a as int * 0x100_0000 + r as int * 0x1_0000 + g as int * 0x100 + b as int,
            0 <= r < 256,
            0 <= g < 256,
            0 <= b < 256,
            0 <= a < 256,
    ;
}

/// Unpacking a word and packing the colour gives the word back.
pub proof fn lemma_pack_unpack(x: u32)
    ensures
        pack_argb(unpack_argb(x).r, unpack_argb(x).g, unpack_argb(x).b, unpack_argb(x).a) == x,
{
    let c = unpack_argb(x);
    assert(pack_argb(c.r, c.g, c.b, c.a) == x) by (nonlinear_arith)
        requires
            c.r == ((x as int / 0x1_0000) % 0x100) as u8,
            c.g == ((x as int / 0x100) % 0x100) as u8,
            c.b == (x as int % 0x100) as u8,
            c.a == (x as int / 0x100_0000) as u8,
            0 <= x <= u32::MAX,
    ;
}

/// Inverting a colour twice gives it back.
pub proof fn lemma_invert_involution(c: Color)
    ensures
        ({
            let i = Color { r: (255 - c.r) as u8, g: (255 - c.g) as u8, b: (255 - c.b) as u8, a: c.a };
            Color { r: (255 - i.r) as u8, g: (255 - i.g) as u8, b: (255 - i.b) as u8, a: i.a } == c
        }),
{
}

} // verus!
