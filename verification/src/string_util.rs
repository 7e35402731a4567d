//! Text formatting of identifiers.
use vstd::prelude::*;
use vstd::utf8::{encode_utf8, decode_utf8, valid_utf8, is_ascii_chars};
use crate::text::string_from_utf8;

verus! {

/// The lowercase hexadecimal digit for `v` (below 16).
pub open spec fn hex_digit(v: int) -> char {
    if v < 10 {
        ('0' as int + v) as char
    } else {
        ('a' as int + v - 10) as char
    }
}

/// The two lowercase hexadecimal digits of a byte.
pub open spec fn hex_byte(b: u8) -> Seq<char> {
    seq![hex_digit(b as int / 16), hex_digit(b as int % 16)]
}

/// The text of the first `n` bytes of a UUID: each byte as two lowercase
/// hexadecimal digits, with a dash before bytes 4, 6, 8 and 10.
pub open spec fn uuid_prefix(a: Seq<u8>, n: nat) -> Seq<char>
    decreases n,
{
    if n == 0 {
        Seq::empty()
    } else {
        let i = n - 1;
        let sep = if i == 4 || i == 6 || i == 8 || i == 10 { seq!['-'] } else { Seq::empty() };
        uuid_prefix(a, (n - 1) as nat) + sep + hex_byte(a[i])
    }
}

/// The canonical 8-4-4-4-12 text of a 16-byte UUID.
pub open spec fn uuid_text(a: Seq<u8>) -> Seq<char> {
    uuid_prefix(a, 16)
}

/// The number of dashes in the text of the first `n` bytes of a UUID.
pub open spec fn uuid_dashes(n: int) -> int {
    (if n > 4 { 1int } else { 0 }) + (if n > 6 { 1int } else { 0 }) + (if n > 8 { 1int } else { 0 }) + (
    if n > 10 { 1int } else { 0 })
}

proof fn lemma_uuid_prefix_len(a: Seq<u8>, n: nat)
    ensures
        uuid_prefix(a, n).len() == 2 * n + uuid_dashes(n as int),
    decreases n,
{
    if n > 0 {
        lemma_uuid_prefix_len(a, (n - 1) as nat);
    }
}

proof fn lemma_uuid_prefix_extends(a: Seq<u8>, m: nat, n: nat)
    requires
        m <= n,
    ensures
        forall|i: int| 0 <= i < uuid_prefix(a, m).len() ==> #[trigger] uuid_prefix(a, n)[i] == uuid_prefix(a, m)[i],
    decreases n,
{
    if m < n {
        lemma_uuid_prefix_extends(a, m, (n - 1) as nat);
        lemma_uuid_prefix_len(a, m);
        lemma_uuid_prefix_len(a, (n - 1) as nat);
    }
}

proof fn lemma_uuid_dash_at(a: Seq<u8>, k: nat)
    requires
        k == 4 || k == 6 || k == 8 || k == 10,
    ensures
        uuid_text(a)[2 * k + uuid_dashes(k as int)] == '-',
{
    lemma_uuid_prefix_len(a, k);
    lemma_uuid_prefix_len(a, k + 1);
    lemma_uuid_prefix_extends(a, k + 1, 16);
    assert(uuid_prefix(a, k + 1)[2 * k + uuid_dashes(k as int)] == '-');
}

/// The text of a UUID has the 8-4-4-4-12 shape: 36 characters, with dashes
/// at places 8, 13, 18 and 23.
pub proof fn lemma_uuid_text_shape(a: Seq<u8>)
    ensures
        uuid_text(a).len() == 36,
        uuid_text(a)[8] == '-',
        uuid_text(a)[13] == '-',
        uuid_text(a)[18] == '-',
        uuid_text(a)[23] == '-',
{
    lemma_uuid_prefix_len(a, 16);
    lemma_uuid_dash_at(a, 4);
    lemma_uuid_dash_at(a, 6);
    lemma_uuid_dash_at(a, 8);
    lemma_uuid_dash_at(a, 10);
}

fn hex_ascii(v: u8) -> (c: u8)
    requires
        v < 16,
    ensures
        c as char == hex_digit(v as int),
        c < 128,
{
    if v < 10 {
        48 + v
    } else {
        97 + (v - 10)
    }
}

proof fn lemma_ascii_decode(bytes: Seq<u8>, chars: Seq<char>)
    requires
        bytes.len() == chars.len(),
        forall|i: int| 0 <= i < bytes.len() ==> bytes[i] < 128 && bytes[i] as char == chars[i],
    ensures
        valid_utf8(bytes),
        decode_utf8(bytes) == chars,
{
    broadcast use vstd::utf8::group_utf8_lib;

    assert(is_ascii_chars(chars));
    let e = encode_utf8(chars);
    assert forall|i: int| 0 <= i < bytes.len() implies e[i] == bytes[i] by {
        assert(chars[i] as u8 == e[i]);
    }
    assert(e =~= bytes);
}

/// The UUID in its canonical text form, such as
/// `00112233-4455-6677-8899-aabbccddeeff`.
pub fn format_uuid(arr: [u8; 16]) -> (s: String)
    ensures
        s@ == uuid_text(arr@),
{
    let mut bytes: Vec<u8> = Vec::new();
    let ghost mut chars: Seq<char> = Seq::empty();
    let mut i: usize = 0;
    while i < 16
        invariant
            0 <= i <= 16,
            chars == uuid_prefix(arr@, i as nat),
            bytes@.len() == chars.len(),
            forall|j: int| 0 <= j < bytes@.len() ==> #[trigger] bytes@[j] < 128,
            forall|j: int| 0 <= j < bytes@.len() ==> #[trigger] bytes@[j] as char == chars[j],
        decreases 16 - i,
    {
        let ghost before = chars;
        let ghost before_bytes = bytes@;
        if i == 4 || i == 6 || i == 8 || i == 10 {
            bytes.push(45u8);
            proof {
                chars = chars.push('-');
                assert((45u8 as char) == '-');
                assert forall|j: int| 0 <= j < bytes@.len() implies bytes@[j] < 128 && bytes@[j] as char == chars[j] by {
                    if j < before_bytes.len() {
                        assert(bytes@[j] == before_bytes[j]);
                        assert(chars[j] == before[j]);
                    }
                }
            }
        }
        let ghost mid_bytes = bytes@;
        let ghost mid = chars;
        assert forall|j: int| 0 <= j < mid_bytes.len() implies mid_bytes[j] < 128 && mid_bytes[j] as char == mid[j] by {
            assert(mid_bytes[j] == bytes@[j]);
            assert(mid[j] == chars[j]);
        }
        let b = arr[i];
        let hi = hex_ascii(b / 16);
        let lo = hex_ascii(b % 16);
        bytes.push(hi);
        bytes.push(lo);
        proof {
            chars = chars + hex_byte(b);
            assert(bytes@ == mid_bytes.push(hi).push(lo));
            assert forall|j: int| 0 <= j < bytes@.len() implies bytes@[j] < 128 && bytes@[j] as char == chars[j] by {
                if j < mid_bytes.len() {
                    assert(bytes@[j] == mid_bytes[j]);
                    assert(chars[j] == mid[j]);
                }
            }
            let sep = if i == 4 || i == 6 || i == 8 || i == 10 { seq!['-'] } else { Seq::<char>::empty() };
            assert(chars =~= before + sep + hex_byte(arr@[i as int]));
        }
        i += 1;
    }
    proof {
        lemma_ascii_decode(bytes@, chars);
    }
    match string_from_utf8(bytes) {
        Some(s) => s,
        None => vstd::pervasive::unreached(),
    }
}

} // verus!
