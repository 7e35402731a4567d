//! Readers of integers, NUL-terminated strings and four-byte tags from an
//! in-memory byte cursor.
use vstd::prelude::*;
use vstd::utf8::{valid_utf8, decode_utf8};
use crate::text::string_from_utf8;

verus! {

/// The only way a read from a cursor fails: the bytes ran out.
#[derive(Copy, Clone, Debug, PartialEq, Eq, Structural)]
pub enum ReadError {
    UnexpectedEof,
}

/// A read position over a borrowed byte buffer.  The position may lie past the
/// end of the buffer, in which case nothing is left to read.
pub struct Cursor<'a> {
    pub data: &'a [u8],
    pub pos: u64,
}

/// The bytes of `data` from `pos` on (nothing when `pos` lies at or past the end).
pub open spec fn rest(data: Seq<u8>, pos: int) -> Seq<u8> {
    if 0 <= pos < data.len() {
        data.subrange(pos, data.len() as int)
    } else {
        Seq::empty()
    }
}

/// Big-endian value of the first two bytes.
pub open spec fn be16(s: Seq<u8>) -> int {
    s[0] * 0x100 + s[1]
}

/// Little-endian value of the first two bytes.
pub open spec fn le16(s: Seq<u8>) -> int {
    s[1] * 0x100 + s[0]
}

/// Big-endian value of the first four bytes.
pub open spec fn be32(s: Seq<u8>) -> int {
    s[0] * 0x100_0000 + s[1] * 0x1_0000 + s[2] * 0x100 + s[3]
}

/// Little-endian value of the first four bytes.
pub open spec fn le32(s: Seq<u8>) -> int {
    s[3] * 0x100_0000 + s[2] * 0x1_0000 + s[1] * 0x100 + s[0]
}

/// Big-endian value of the first eight bytes.
pub open spec fn be64(s: Seq<u8>) -> int {
    be32(s) * 0x1_0000_0000 + be32(s.subrange(4, 8))
}

/// Little-endian value of the first eight bytes.
pub open spec fn le64(s: Seq<u8>) -> int {
    le32(s.subrange(4, 8)) * 0x1_0000_0000 + le32(s)
}

/// The number of bytes a NUL-terminated read takes from `s` when it has
/// already looked at the first `i` of them: up to and including the first
/// zero byte, or everything when there is none.
pub open spec fn nul_span_from(s: Seq<u8>, i: int) -> int
    decreases s.len() - i,
{
    if i >= s.len() {
        s.len() as int
    } else if s[i] == 0 {
        i + 1
    } else {
        nul_span_from(s, i + 1)
    }
}

/// The number of bytes a NUL-terminated read takes from `s`.
pub open spec fn nul_span(s: Seq<u8>) -> int {
    nul_span_from(s, 0)
}

/// The bytes a NUL-terminated read keeps: what it took, minus the last byte
/// (the terminator, or the last byte of the buffer when no terminator came).
pub open spec fn nul_string_bytes(s: Seq<u8>) -> Seq<u8> {
    let n = nul_span(s);
    if n > 0 {
        s.subrange(0, n - 1)
    } else {
        Seq::empty()
    }
}

/// `s` with its trailing zero bytes removed.
pub open spec fn trim_trailing_nul(s: Seq<u8>) -> Seq<u8>
    decreases s.len(),
{
    if s.len() > 0 && s.last() == 0 {
        trim_trailing_nul(s.drop_last())
    } else {
        s
    }
}

/// Four bytes that are all zero: a tag made of them cannot be read.
pub open spec fn all_nul4(s: Seq<u8>) -> bool {
    s[0] == 0 && s[1] == 0 && s[2] == 0 && s[3] == 0
}

/// The bytes of a four-byte tag that starts `s` could be turned into text.
pub open spec fn tag_readable(s: Seq<u8>) -> bool {
    s.len() >= 4 ==> !all_nul4(s) && valid_utf8(trim_trailing_nul(s.subrange(0, 4)))
}

impl<'a> Cursor<'a> {
    /// What is left to read.
    pub open spec fn remaining(self) -> Seq<u8> {
        rest(self.data@, self.pos as int)
    }

    /// After a read of `n` bytes from `old`: `Ok` exactly when `n` bytes were
    /// left, with the position moved past them; on failure the position is
    /// the end of the buffer.
    pub open spec fn advanced(self, old: Cursor<'a>, n: int, ok: bool) -> bool {
        &&& self.data == old.data
        &&& ok <==> old.remaining().len() >= n
        &&& ok ==> self.pos == old.pos + n
        &&& !ok ==> self.pos == old.data@.len()
    }

    pub fn new(data: &'a [u8]) -> (c: Self)
        ensures
            c.data == data,
            c.pos == 0,
    {
        Cursor { data, pos: 0 }
    }

    pub fn position(&self) -> (p: u64)
        ensures
            p == self.pos,
    {
        self.pos
    }

    pub fn set_position(&mut self, pos: u64)
        ensures
            final(self).pos == pos,
            final(self).data == old(self).data,
    {
        self.pos = pos;
    }

    /// The number of bytes left to read.
    pub fn remaining_len(&self) -> (n: usize)
        ensures
            n == self.remaining().len(),
    {
        let len = self.data.len();
        if self.pos < len as u64 {
            let p = self.pos as usize;
            len - p
        } else {
            0
        }
    }

    /// Takes the next `n` bytes, or fails and moves to the end when fewer are left.
    fn take(&mut self, n: usize) -> (r: Option<usize>)
        requires
            n > 0,
        ensures
            final(self).advanced(*old(self), n as int, r is Some),
            r matches Some(start) ==> start == old(self).pos && start + n <= old(self).data@.len(),
    {
        let left = self.remaining_len();
        let len = self.data.len();
        if left >= n {
            assert(self.pos < len);
            assert(left == len - self.pos);
            let start = self.pos as usize;
            let end = start + n;
            self.pos = end as u64;
            Some(start)
        } else {
            self.pos = self.data.len() as u64;
            None
        }
    }
}

pub fn read_u8(r: &mut Cursor) -> (res: Result<u8, ReadError>)
    ensures
        final(r).advanced(*old(r), 1, res is Ok),
        res matches Ok(v) ==> v == old(r).remaining()[0],
{
    match r.take(1) {
        Some(s) => Ok(r.data[s]),
        None => Err(ReadError::UnexpectedEof),
    }
}

pub fn read_u16_be(r: &mut Cursor) -> (res: Result<u16, ReadError>)
    ensures
        final(r).advanced(*old(r), 2, res is Ok),
        res matches Ok(v) ==> v == be16(old(r).remaining()),
{
    match r.take(2) {
        Some(s) => {
            let (b0, b1) = (r.data[s], r.data[s + 1]);
            let v = (b0 as u16) << 8 | b1 as u16;
            assert(v == b0 * 0x100 + b1) by (bit_vector)
                requires
                    v == (b0 as u16) << 8 | b1 as u16,
            ;
            Ok(v)
        },
        None => Err(ReadError::UnexpectedEof),
    }
}

pub fn read_i16_be(r: &mut Cursor) -> (res: Result<i16, ReadError>)
    ensures
        final(r).advanced(*old(r), 2, res is Ok),
        res matches Ok(v) ==> v as u16 == be16(old(r).remaining()),
{
    let u = read_u16_be(r)?;
    let v = u as i16;
    assert(v as u16 == u) by (bit_vector)
        requires
            v == u as i16,
    ;
    Ok(v)
}

pub fn read_u32_be(r: &mut Cursor) -> (res: Result<u32, ReadError>)
    ensures
        final(r).advanced(*old(r), 4, res is Ok),
        res matches Ok(v) ==> v == be32(old(r).remaining()),
{
    match r.take(4) {
        Some(s) => {
            let (b0, b1, b2, b3) = (r.data[s], r.data[s + 1], r.data[s + 2], r.data[s + 3]);
            let v = (b0 as u32) << 24 | (b1 as u32) << 16 | (b2 as u32) << 8 | b3 as u32;
            assert(v == b0 * 0x100_0000 + b1 * 0x1_0000 + b2 * 0x100 + b3) by (bit_vector)
                requires
                    v == (b0 as u32) << 24 | (b1 as u32) << 16 | (b2 as u32) << 8 | b3 as u32,
            ;
            Ok(v)
        },
        None => Err(ReadError::UnexpectedEof),
    }
}

pub fn read_u32_le(r: &mut Cursor) -> (res: Result<u32, ReadError>)
    ensures
        final(r).advanced(*old(r), 4, res is Ok),
        res matches Ok(v) ==> v == le32(old(r).remaining()),
{
    match r.take(4) {
        Some(s) => {
            let (b0, b1, b2, b3) = (r.data[s], r.data[s + 1], r.data[s + 2], r.data[s + 3]);
            let v = (b3 as u32) << 24 | (b2 as u32) << 16 | (b1 as u32) << 8 | b0 as u32;
            assert(v == b3 * 0x100_0000 + b2 * 0x1_0000 + b1 * 0x100 + b0) by (bit_vector)
                requires
                    v == (b3 as u32) << 24 | (b2 as u32) << 16 | (b1 as u32) << 8 | b0 as u32,
            ;
            Ok(v)
        },
        None => Err(ReadError::UnexpectedEof),
    }
}

pub fn read_u16_le(r: &mut Cursor) -> (res: Result<u16, ReadError>)
    ensures
        final(r).advanced(*old(r), 2, res is Ok),
        res matches Ok(v) ==> v == le16(old(r).remaining()),
{
    match r.take(2) {
        Some(s) => {
            let (b0, b1) = (r.data[s], r.data[s + 1]);
            let v = (b1 as u16) << 8 | b0 as u16;
            assert(v == b1 * 0x100 + b0) by (bit_vector)
                requires
                    v == (b1 as u16) << 8 | b0 as u16,
            ;
            Ok(v)
        },
        None => Err(ReadError::UnexpectedEof),
    }
}

fn word64(hi: u32, lo: u32) -> (v: u64)
    ensures
        v == hi * 0x1_0000_0000 + lo,
{
    let v = (hi as u64) << 32 | lo as u64;
    assert(v == hi * 0x1_0000_0000 + lo) by (bit_vector)
        requires
            v == (hi as u64) << 32 | lo as u64,
    ;
    v
}

pub fn read_u64_be(r: &mut Cursor) -> (res: Result<u64, ReadError>)
    ensures
        final(r).advanced(*old(r), 8, res is Ok),
        res matches Ok(v) ==> v == be64(old(r).remaining()),
{
    match r.take(8) {
        Some(s) => {
            let d = r.data;
            let hi = (d[s] as u32) << 24 | (d[s + 1] as u32) << 16 | (d[s + 2] as u32) << 8
                | d[s + 3] as u32;
            let lo = (d[s + 4] as u32) << 24 | (d[s + 5] as u32) << 16 | (d[s + 6] as u32) << 8
                | d[s + 7] as u32;
            let (b0, b1, b2, b3) = (d[s], d[s + 1], d[s + 2], d[s + 3]);
            let (b4, b5, b6, b7) = (d[s + 4], d[s + 5], d[s + 6], d[s + 7]);
            assert(hi == b0 * 0x100_0000 + b1 * 0x1_0000 + b2 * 0x100 + b3) by (bit_vector)
                requires
                    hi == (b0 as u32) << 24 | (b1 as u32) << 16 | (b2 as u32) << 8 | b3 as u32,
            ;
            assert(lo == b4 * 0x100_0000 + b5 * 0x1_0000 + b6 * 0x100 + b7) by (bit_vector)
                requires
                    lo == (b4 as u32) << 24 | (b5 as u32) << 16 | (b6 as u32) << 8 | b7 as u32,
            ;
            let ghost rem = old(r).remaining();
            assert(rem.subrange(4, 8)[0] == b4 && rem.subrange(4, 8)[3] == b7);
            Ok(word64(hi, lo))
        },
        None => Err(ReadError::UnexpectedEof),
    }
}

pub fn read_u64_le(r: &mut Cursor) -> (res: Result<u64, ReadError>)
    ensures
        final(r).advanced(*old(r), 8, res is Ok),
        res matches Ok(v) ==> v == le64(old(r).remaining()),
{
    match r.take(8) {
        Some(s) => {
            let d = r.data;
            assert(s + 8 <= d.len());
            let lo = (d[s + 3] as u32) << 24 | (d[s + 2] as u32) << 16 | (d[s + 1] as u32) << 8
                | d[s] as u32;
            let hi = (d[s + 7] as u32) << 24 | (d[s + 6] as u32) << 16 | (d[s + 5] as u32) << 8
                | d[s + 4] as u32;
            let (b0, b1, b2, b3) = (d[s], d[s + 1], d[s + 2], d[s + 3]);
            let (b4, b5, b6, b7) = (d[s + 4], d[s + 5], d[s + 6], d[s + 7]);
            assert(lo == b3 * 0x100_0000 + b2 * 0x1_0000 + b1 * 0x100 + b0) by (bit_vector)
                requires
                    lo == (b3 as u32) << 24 | (b2 as u32) << 16 | (b1 as u32) << 8 | b0 as u32,
            ;
            assert(hi == b7 * 0x100_0000 + b6 * 0x1_0000 + b5 * 0x100 + b4) by (bit_vector)
                requires
                    hi == (b7 as u32) << 24 | (b6 as u32) << 16 | (b5 as u32) << 8 | b4 as u32,
            ;
            let ghost rem = old(r).remaining();
            assert(rem.subrange(4, 8)[0] == b4 && rem.subrange(4, 8)[3] == b7);
            Ok(word64(hi, lo))
        },
        None => Err(ReadError::UnexpectedEof),
    }
}

/// Reads the next `n` bytes.
pub fn read_bytes(r: &mut Cursor, n: usize) -> (res: Result<Vec<u8>, ReadError>)
    ensures
        final(r).advanced(*old(r), n as int, res is Ok),
        res matches Ok(v) ==> v@ == old(r).remaining().subrange(0, n as int),
{
    if n == 0 {
        let v: Vec<u8> = Vec::new();
        assert(v@ =~= old(r).remaining().subrange(0, 0));
        return Ok(v);
    }
    let ghost rem = r.remaining();
    match r.take(n) {
        Some(s) => {
            let mut v: Vec<u8> = Vec::new();
            let mut i: usize = 0;
            while i < n
                invariant
                    s + n <= r.data.len(),
                    rem.len() >= n,
                    forall|j: int| 0 <= j < n ==> rem[j] == r.data@[s + j],
                    0 <= i <= n,
                    v@ == rem.subrange(0, i as int),
                decreases n - i,
            {
                v.push(r.data[s + i]);
                i += 1;
                assert(v@ =~= rem.subrange(0, i as int));
            }
            Ok(v)
        },
        None => Err(ReadError::UnexpectedEof),
    }
}

/// Reads up to and including the next zero byte (or to the end of the
/// buffer) and returns those bytes, less the last one, as text.
pub fn read_str(r: &mut Cursor) -> (res: Result<String, ReadError>)
    requires
        valid_utf8(nul_string_bytes(old(r).remaining())),
    ensures
        final(r).data == old(r).data,
        final(r).pos == old(r).pos + nul_span(old(r).remaining()),
        res matches Ok(s) && s@ == decode_utf8(nul_string_bytes(old(r).remaining())),
{
    let ghost rem = r.remaining();
    let n = r.remaining_len();
    let start = r.pos;
    let len = r.data.len();
    proof {
        if n > 0 {
            assert(start < len);
            assert(n == len - start);
        }
    }
    let mut data: Vec<u8> = Vec::new();
    let mut i: usize = 0;
    let mut found = false;
    while i < n && !found
        invariant
            n == rem.len(),
            rem == r.remaining(),
            start == r.pos,
            n > 0 ==> start + n == r.data.len(),
            0 <= i <= n,
            data@ == rem.subrange(0, i as int),
            found ==> i > 0 && rem[i - 1] == 0 && nul_span(rem) == i,
            !found ==> nul_span(rem) == nul_span_from(rem, i as int),
        decreases n - i + (if found { 0int } else { 1 }),
    {
        let b = r.data[start as usize + i];
        assert(b == rem[i as int]);
        data.push(b);
        i += 1;
        if b == 0 {
            found = true;
        }
        assert(data@ == rem.subrange(0, i as int));
    }
    assert(nul_span(rem) == i);
    if i > 0 {
        let end = start as usize + i;
        r.pos = end as u64;
    }
    if data.len() > 0 {
        data.pop();
    }
    assert(data@ == nul_string_bytes(rem));
    match string_from_utf8(data) {
        Some(s) => Ok(s),
        None => {
            assert(false);
            Ok(String::new())
        },
    }
}

/// Reads a four-byte tag and returns it as text without its trailing zero bytes.
pub fn read_tag(r: &mut Cursor) -> (res: Result<String, ReadError>)
    requires
        tag_readable(old(r).remaining()),
    ensures
        final(r).advanced(*old(r), 4, res is Ok),
        res matches Ok(s) ==> s@ == decode_utf8(
            trim_trailing_nul(old(r).remaining().subrange(0, 4)),
        ),
{
    let ghost rem = r.remaining();
    match r.take(4) {
        Some(s) => {
            let mut b: Vec<u8> = Vec::new();
            b.push(r.data[s]);
            b.push(r.data[s + 1]);
            b.push(r.data[s + 2]);
            b.push(r.data[s + 3]);
            assert(b@ == rem.subrange(0, 4));
            while b.len() > 0 && b[b.len() - 1] == 0
                invariant
                    b.len() >= 1,
                    trim_trailing_nul(b@) == trim_trailing_nul(rem.subrange(0, 4)),
                    b@ == rem.subrange(0, b.len() as int),
                    !all_nul4(rem),
                    b.len() <= 4,
                    rem.len() >= 4,
                    forall|j: int| b.len() <= j < 4 ==> rem[j] == 0,
                decreases b.len(),
            {
                let ghost before = b@;
                b.pop();
                assert(b@ == before.drop_last());
                assert(rem[b.len() as int] == 0);
            }
            match string_from_utf8(b) {
                Some(t) => Ok(t),
                None => {
                    assert(false);
                    Ok(String::new())
                },
            }
        },
        None => Err(ReadError::UnexpectedEof),
    }
}

} // verus!
