//! Blender files: the SDNA catalogue of struct layouts and the block list of a
//! `.blend` file.
use vstd::prelude::*;
use vstd::utf8::{valid_utf8, decode_utf8};
use crate::parsing::{
    Cursor, ReadError, rest, le16, le32, nul_span, nul_string_bytes, trim_trailing_nul,
    tag_readable, read_u8, read_u16_le, read_u32_le, read_u64_le, read_str, read_tag,
    read_bytes, le64,
};
use crate::text::string_from_utf8;
use crate::text::{parse_usize, parsed_usize};

verus! {

/// What is built from a struct layout and its bytes.
pub struct DnaInstance {}

/// The SDNA catalogue: field names, type names, type sizes and struct layouts.
pub struct Dna {
    pub names: Vec<String>,
    pub types: Vec<String>,
    pub types_len: Vec<usize>,
    pub structs: Vec<DnaStruct>,
}

/// A struct layout: the struct's type name and its fields.
pub struct DnaStruct {
    pub name: String,
    pub fields: Vec<DnaField>,
}

/// A field of a struct layout: its type name and its declarator (such as
/// `*next` or `co[3]`).
pub struct DnaField {
    pub ttype: String,
    pub name: String,
}

/// A struct layout as text: its name and the (type, declarator) of each field.
pub struct DnaStructView {
    pub name: Seq<char>,
    pub fields: Seq<(Seq<char>, Seq<char>)>,
}

/// The catalogue as text.
pub struct DnaView {
    pub names: Seq<Seq<char>>,
    pub types: Seq<Seq<char>>,
    pub types_len: Seq<usize>,
    pub structs: Seq<DnaStructView>,
}

impl View for DnaField {
    type V = (Seq<char>, Seq<char>);

    open spec fn view(&self) -> (Seq<char>, Seq<char>) {
        (self.ttype@, self.name@)
    }
}

impl View for DnaStruct {
    type V = DnaStructView;

    open spec fn view(&self) -> DnaStructView {
        DnaStructView { name: self.name@, fields: self.fields@.map_values(|f: DnaField| f@) }
    }
}

/// The text of each string of a list.
pub open spec fn texts(v: Seq<String>) -> Seq<Seq<char>> {
    v.map_values(|s: String| s@)
}

impl View for Dna {
    type V = DnaView;

    open spec fn view(&self) -> DnaView {
        DnaView {
            names: texts(self.names@),
            types: texts(self.types@),
            types_len: self.types_len@,
            structs: self.structs@.map_values(|s: DnaStruct| s@),
        }
    }
}

/// The outcome of reading something at byte offset `p`: the value and the
/// offset after it, or a read that ran out of bytes, or an input on which the
/// reader stops the program.
pub enum Step<T> {
    Done(T, int),
    Eof,
    Panic,
}

/// Reading a little-endian `u16` at `p`.
pub open spec fn u16_at(d: Seq<u8>, p: int) -> Step<u16> {
    if rest(d, p).len() >= 2 {
        Step::Done(le16(rest(d, p)) as u16, p + 2)
    } else {
        Step::Eof
    }
}

/// Reading a little-endian `u32` at `p`.
pub open spec fn u32_at(d: Seq<u8>, p: int) -> Step<u32> {
    if rest(d, p).len() >= 4 {
        Step::Done(le32(rest(d, p)) as u32, p + 4)
    } else {
        Step::Eof
    }
}

/// Reading a NUL-terminated string at `p`.
pub open spec fn str_at(d: Seq<u8>, p: int) -> Step<Seq<char>> {
    let s = rest(d, p);
    if valid_utf8(nul_string_bytes(s)) {
        Step::Done(decode_utf8(nul_string_bytes(s)), p + nul_span(s))
    } else {
        Step::Panic
    }
}

/// Reading the four-byte tag `t` at `p`; any other tag stops the program.
pub open spec fn tag_is(d: Seq<u8>, p: int, t: Seq<char>) -> Step<()> {
    let s = rest(d, p);
    if s.len() < 4 {
        Step::Eof
    } else if !tag_readable(s) || decode_utf8(trim_trailing_nul(s.subrange(0, 4))) != t {
        Step::Panic
    } else {
        Step::Done((), p + 4)
    }
}

/// Skipping bytes from `p` up to the next multiple of `n`.
pub open spec fn align_at(d: Seq<u8>, p: int, n: int) -> Step<()> {
    if p % n == 0 {
        Step::Done((), p)
    } else if p + (n - p % n) <= d.len() {
        Step::Done((), p + (n - p % n))
    } else {
        Step::Eof
    }
}

/// Reading `n` items one after the other from `p`, each with `step`.
pub open spec fn repeat<T>(step: spec_fn(int) -> Step<T>, p: int, n: nat) -> Step<Seq<T>>
    decreases n,
{
    if n == 0 {
        Step::Done(Seq::empty(), p)
    } else {
        match repeat(step, p, (n - 1) as nat) {
            Step::Done(v, q) => match step(q) {
                Step::Done(x, q2) => Step::Done(v.push(x), q2),
                Step::Eof => Step::Eof,
                Step::Panic => Step::Panic,
            },
            Step::Eof => Step::Eof,
            Step::Panic => Step::Panic,
        }
    }
}

/// Once a repeated read has run out of bytes or stopped, so do all longer ones.
pub proof fn lemma_repeat_stuck<T>(step: spec_fn(int) -> Step<T>, p: int, i: nat, n: nat)
    requires
        i <= n,
    ensures
        repeat(step, p, i) is Eof ==> repeat(step, p, n) is Eof,
        repeat(step, p, i) is Panic ==> repeat(step, p, n) is Panic,
    decreases n - i,
{
    if i < n {
        lemma_repeat_stuck(step, p, i, (n - 1) as nat);
    }
}

/// Reading one NUL-terminated string, as a step of a repeated read.
pub open spec fn str_step(d: Seq<u8>) -> spec_fn(int) -> Step<Seq<char>> {
    |x: int| str_at(d, x)
}

/// Reading one `u16`, as a step of a repeated read.
pub open spec fn u16_step(d: Seq<u8>) -> spec_fn(int) -> Step<u16> {
    |x: int| u16_at(d, x)
}

/// Reading one field, as a step of a repeated read.
pub open spec fn field_step(d: Seq<u8>, names: Seq<Seq<char>>, types: Seq<Seq<char>>) -> spec_fn(
    int,
) -> Step<(Seq<char>, Seq<char>)> {
    |x: int| field_at(d, x, names, types)
}

/// Reading one struct layout, as a step of a repeated read.
pub open spec fn struct_step(d: Seq<u8>, names: Seq<Seq<char>>, types: Seq<Seq<char>>) -> spec_fn(
    int,
) -> Step<DnaStructView> {
    |x: int| struct_at(d, x, names, types)
}

/// A table of strings: a `u32` count, that many NUL-terminated strings, and
/// padding to a multiple of four bytes.
pub open spec fn string_table_at(d: Seq<u8>, p: int) -> Step<Seq<Seq<char>>> {
    match u32_at(d, p) {
        Step::Done(n, q) => match repeat(str_step(d), q, n as nat) {
            Step::Done(ss, q2) => match align_at(d, q2, 4) {
                Step::Done(_, q3) => Step::Done(ss, q3),
                Step::Eof => Step::Eof,
                Step::Panic => Step::Panic,
            },
            Step::Eof => Step::Eof,
            Step::Panic => Step::Panic,
        },
        Step::Eof => Step::Eof,
        Step::Panic => Step::Panic,
    }
}

/// The type sizes: one `u16` per type, then padding to a multiple of four.
pub open spec fn lengths_at(d: Seq<u8>, p: int, n: nat) -> Step<Seq<u16>> {
    match repeat(u16_step(d), p, n) {
        Step::Done(ls, q) => match align_at(d, q, 4) {
            Step::Done(_, q2) => Step::Done(ls, q2),
            Step::Eof => Step::Eof,
            Step::Panic => Step::Panic,
        },
        Step::Eof => Step::Eof,
        Step::Panic => Step::Panic,
    }
}

/// A field: the index of its type and of its declarator, both of which must exist.
pub open spec fn field_at(
    d: Seq<u8>,
    p: int,
    names: Seq<Seq<char>>,
    types: Seq<Seq<char>>,
) -> Step<(Seq<char>, Seq<char>)> {
    match u16_at(d, p) {
        Step::Done(ft, q) => match u16_at(d, q) {
            Step::Done(fname, q2) => if ft >= types.len() || fname >= names.len() {
                Step::Panic
            } else {
                Step::Done((types[ft as int], names[fname as int]), q2)
            },
            Step::Eof => Step::Eof,
            Step::Panic => Step::Panic,
        },
        Step::Eof => Step::Eof,
        Step::Panic => Step::Panic,
    }
}

/// A struct layout: the index of its type, a field count and the fields.
pub open spec fn struct_at(
    d: Seq<u8>,
    p: int,
    names: Seq<Seq<char>>,
    types: Seq<Seq<char>>,
) -> Step<DnaStructView> {
    match u16_at(d, p) {
        Step::Done(st, q) => match u16_at(d, q) {
            Step::Done(fc, q2) => match repeat(field_step(d, names, types), q2, fc as nat) {
                Step::Done(fs, q3) => if st >= types.len() {
                    Step::Panic
                } else {
                    Step::Done(DnaStructView { name: types[st as int], fields: fs }, q3)
                },
                Step::Eof => Step::Eof,
                Step::Panic => Step::Panic,
            },
            Step::Eof => Step::Eof,
            Step::Panic => Step::Panic,
        },
        Step::Eof => Step::Eof,
        Step::Panic => Step::Panic,
    }
}

/// The struct layouts: a `u32` count and that many layouts.
pub open spec fn structs_at(
    d: Seq<u8>,
    p: int,
    names: Seq<Seq<char>>,
    types: Seq<Seq<char>>,
) -> Step<Seq<DnaStructView>> {
    match u32_at(d, p) {
        Step::Done(n, q) => repeat(struct_step(d, names, types), q, n as nat),
        Step::Eof => Step::Eof,
        Step::Panic => Step::Panic,
    }
}

/// The type sizes as `usize`.
pub open spec fn widen(ls: Seq<u16>) -> Seq<usize> {
    ls.map_values(|l: u16| l as usize)
}

#[verifier::opaque]
/// Reading an SDNA catalogue: the tags `SDNA` and `NAME`, the field names,
/// `TYPE` and the type names, `TLEN` and one size per type, `STRC` and the
/// struct layouts.
pub open spec fn dna_at(d: Seq<u8>) -> Step<DnaView> {
    match tag_is(d, 0, seq!['S', 'D', 'N', 'A']) {
        Step::Done(_, p1) => match tag_is(d, p1, seq!['N', 'A', 'M', 'E']) {
            Step::Done(_, p2) => match string_table_at(d, p2) {
                Step::Done(names, p3) => match tag_is(d, p3, seq!['T', 'Y', 'P', 'E']) {
                    Step::Done(_, p4) => match string_table_at(d, p4) {
                        Step::Done(types, p5) => match tag_is(d, p5, seq!['T', 'L', 'E', 'N']) {
                            Step::Done(_, p6) => match lengths_at(d, p6, types.len()) {
                                Step::Done(lens, p7) => match tag_is(d, p7, seq!['S', 'T', 'R', 'C']) {
                                    Step::Done(_, p8) => match structs_at(d, p8, names, types) {
                                        Step::Done(structs, p9) => Step::Done(
                                            DnaView { names, types, types_len: widen(lens), structs },
                                            p9,
                                        ),
                                        Step::Eof => Step::Eof,
                                        Step::Panic => Step::Panic,
                                    },
                                    Step::Eof => Step::Eof,
                                    Step::Panic => Step::Panic,
                                },
                                Step::Eof => Step::Eof,
                                Step::Panic => Step::Panic,
                            },
                            Step::Eof => Step::Eof,
                            Step::Panic => Step::Panic,
                        },
                        Step::Eof => Step::Eof,
                        Step::Panic => Step::Panic,
                    },
                    Step::Eof => Step::Eof,
                    Step::Panic => Step::Panic,
                },
                Step::Eof => Step::Eof,
                Step::Panic => Step::Panic,
            },
            Step::Eof => Step::Eof,
            Step::Panic => Step::Panic,
        },
        Step::Eof => Step::Eof,
        Step::Panic => Step::Panic,
    }
}

/// `r` read what `step` describes: on `Done` the read succeeded and the
/// cursor stands after it, on `Eof` the read failed.
pub open spec fn followed<T>(step: Step<T>, ok: bool, after: Cursor) -> bool {
    match step {
        Step::Done(_, q) => ok && after.pos == q,
        Step::Eof => !ok,
        Step::Panic => false,
    }
}

/// Whether two strings hold the same characters.
pub fn str_eq(a: &str, b: &str) -> (e: bool)
    ensures
        e == (a@ == b@),
{
    let n = a.unicode_len();
    let m = b.unicode_len();
    if n != m {
        return false;
    }
    let mut i: usize = 0;
    while i < n
        invariant
            n == a@.len(),
            m == b@.len(),
            n == m,
            0 <= i <= n,
            forall|j: int| 0 <= j < i ==> a@[j] == b@[j],
        decreases n - i,
    {
        if a.get_char(i) != b.get_char(i) {
            return false;
        }
        i += 1;
    }
    assert(a@ =~= b@);
    true
}

fn expect_tag(r: &mut Cursor, t: &str) -> (res: Result<(), ReadError>)
    requires
        !(tag_is(old(r).data@, old(r).pos as int, t@) is Panic),
    ensures
        final(r).data == old(r).data,
        followed(tag_is(old(r).data@, old(r).pos as int, t@), res is Ok, *final(r)),
{
    let tag = read_tag(r)?;
    if str_eq(tag.as_str(), t) {
        Ok(())
    } else {
        vstd::pervasive::unreached()
    }
}

proof fn lemma_mask(x: u64, n: u64)
    requires
        n == 2 || n == 4 || n == 8 || n == 16,
    ensures
        x & ((n - 1) as u64) == x % n,
{
    if n == 2 {
        assert(x & 1 == x % 2) by (bit_vector);
    } else if n == 4 {
        assert(x & 3 == x % 4) by (bit_vector);
    } else if n == 8 {
        assert(x & 7 == x % 8) by (bit_vector);
    } else {
        assert(x & 15 == x % 16) by (bit_vector);
    }
}

proof fn lemma_no_multiple_before(p0: int, j: int, n: int)
    requires
        n == 2 || n == 4 || n == 8 || n == 16,
        p0 >= 0,
        p0 % n != 0,
        p0 <= j < p0 + (n - p0 % n),
    ensures
        j % n != 0,
        (p0 + (n - p0 % n)) % n == 0,
{
    if n == 2 {
    } else if n == 4 {
    } else if n == 8 {
    } else {
    }
}

/// Skips bytes until the position is a multiple of `n` (2, 4, 8 or 16).
pub fn align_to(r: &mut Cursor, n: usize) -> (res: Result<(), ReadError>)
    requires
        n == 2 || n == 4 || n == 8 || n == 16,
    ensures
        final(r).data == old(r).data,
        followed(align_at(old(r).data@, old(r).pos as int, n as int), res is Ok, *final(r)),
{
    let ghost p0 = r.pos as int;
    let ghost t = p0 + (n - p0 % (n as int));
    let mask = (n - 1) as u64;
    proof {
        lemma_mask(r.pos, n as u64);
    }
    while r.pos & mask != 0
        invariant
            r.data == old(r).data,
            mask == n - 1,
            n == 2 || n == 4 || n == 8 || n == 16,
            p0 == old(r).pos,
            t == p0 + (n - p0 % (n as int)),
            p0 % (n as int) != 0 ==> p0 <= r.pos <= t,
            p0 % (n as int) == 0 ==> r.pos == p0,
            (r.pos & mask == 0) == (r.pos % (n as u64) == 0),
            r.pos != p0 ==> r.pos <= r.data@.len(),
        decreases t - r.pos,
    {
        proof {
            assert(r.pos % (n as u64) != 0);
            assert((r.pos as int) % (n as int) != 0);
            assert(p0 % (n as int) != 0);
            lemma_no_multiple_before(p0, p0, n as int);
            assert(r.pos < t);
        }
        match read_u8(r) {
            Ok(_) => {},
            Err(e) => {
                assert(t > r.data@.len());
                return Err(e);
            },
        }
        proof {
            lemma_mask(r.pos, n as u64);
        }
    }
    proof {
        if p0 % (n as int) != 0 {
            lemma_no_multiple_before(p0, p0, n as int);
            if r.pos < t {
                lemma_no_multiple_before(p0, r.pos as int, n as int);
            }
            assert(r.pos == t);
        }
    }
    Ok(())
}

#[verifier::loop_isolation(false)]
fn read_string_table(r: &mut Cursor) -> (res: Result<Vec<String>, ReadError>)
    requires
        !(string_table_at(old(r).data@, old(r).pos as int) is Panic),
    ensures
        final(r).data == old(r).data,
        followed(string_table_at(old(r).data@, old(r).pos as int), res is Ok, *final(r)),
        string_table_at(old(r).data@, old(r).pos as int) matches Step::Done(ss, _) ==> res matches Ok(
            v,
        ) && texts(v@) == ss,
{
    let ghost d = r.data@;
    let n = read_u32_le(r)?;
    let ghost q = r.pos as int;
    let mut v: Vec<String> = Vec::new();
    let mut i: u32 = 0;
    assert(texts(v@) =~= Seq::<Seq<char>>::empty());
    while i < n
        invariant
            r.data == old(r).data,
            0 <= i <= n,
            repeat(str_step(d), q, i as nat) == Step::Done(texts(v@), r.pos as int),
            !(repeat(str_step(d), q, n as nat) is Panic),
        decreases n - i,
    {
        proof {
            lemma_repeat_stuck(str_step(d), q, (i + 1) as nat, n as nat);
        }
        let s = read_str(r)?;
        let ghost before = v@;
        v.push(s);
        assert(texts(v@) =~= texts(before).push(s@));
        i += 1;
    }
    align_to(r, 4)?;
    Ok(v)
}

#[verifier::loop_isolation(false)]
fn read_lengths(r: &mut Cursor, n: usize) -> (res: Result<Vec<usize>, ReadError>)
    requires
        !(lengths_at(old(r).data@, old(r).pos as int, n as nat) is Panic),
    ensures
        final(r).data == old(r).data,
        followed(lengths_at(old(r).data@, old(r).pos as int, n as nat), res is Ok, *final(r)),
        lengths_at(old(r).data@, old(r).pos as int, n as nat) matches Step::Done(ls, _) ==> res matches Ok(
            v,
        ) && v@ == widen(ls),
{
    let ghost d = r.data@;
    let ghost q = r.pos as int;
    let mut v: Vec<usize> = Vec::new();
    let ghost mut ls: Seq<u16> = Seq::empty();
    let mut i: usize = 0;
    assert(widen(ls) =~= v@);
    while i < n
        invariant
            r.data == old(r).data,
            0 <= i <= n,
            repeat(u16_step(d), q, i as nat) == Step::Done(ls, r.pos as int),
            v@ == widen(ls),
        decreases n - i,
    {
        proof {
            lemma_repeat_stuck(u16_step(d), q, (i + 1) as nat, n as nat);
        }
        let l = match read_u16_le(r) {
            Ok(l) => l,
            Err(e) => {
                assert(repeat(u16_step(d), q, (i + 1) as nat) is Eof);
                return Err(e);
            },
        };
        v.push(l as usize);
        proof {
            ls = ls.push(l);
        }
        assert(v@ =~= widen(ls));
        i += 1;
    }
    align_to(r, 4)?;
    Ok(v)
}

fn read_field(r: &mut Cursor, names: &Vec<String>, types: &Vec<String>) -> (res: Result<
    DnaField,
    ReadError,
>)
    requires
        !(field_at(old(r).data@, old(r).pos as int, texts(names@), texts(types@)) is Panic),
    ensures
        final(r).data == old(r).data,
        followed(
            field_at(old(r).data@, old(r).pos as int, texts(names@), texts(types@)),
            res is Ok,
            *final(r),
        ),
        field_at(old(r).data@, old(r).pos as int, texts(names@), texts(types@)) matches Step::Done(
            f,
            _,
        ) ==> res matches Ok(field) && field@ == f,
{
    let field_type = read_u16_le(r)? as usize;
    let field_name = read_u16_le(r)? as usize;
    if field_type >= types.len() || field_name >= names.len() {
        return vstd::pervasive::unreached();
    }
    Ok(DnaField { ttype: types[field_type].clone(), name: names[field_name].clone() })
}

#[verifier::loop_isolation(false)]
fn read_struct(r: &mut Cursor, names: &Vec<String>, types: &Vec<String>) -> (res: Result<
    DnaStruct,
    ReadError,
>)
    requires
        !(struct_at(old(r).data@, old(r).pos as int, texts(names@), texts(types@)) is Panic),
    ensures
        final(r).data == old(r).data,
        followed(
            struct_at(old(r).data@, old(r).pos as int, texts(names@), texts(types@)),
            res is Ok,
            *final(r),
        ),
        struct_at(old(r).data@, old(r).pos as int, texts(names@), texts(types@)) matches Step::Done(
            sv,
            _,
        ) ==> res matches Ok(st) && st@ == sv,
{
    let ghost d = r.data@;
    let ghost nv = texts(names@);
    let ghost tv = texts(types@);
    let struct_type = read_u16_le(r)? as usize;
    let field_count = read_u16_le(r)?;
    let ghost q = r.pos as int;
    let mut fields: Vec<DnaField> = Vec::new();
    let mut i: u16 = 0;
    assert(fields@.map_values(|f: DnaField| f@) =~= Seq::<(Seq<char>, Seq<char>)>::empty());
    while i < field_count
        invariant
            r.data == old(r).data,
            nv == texts(names@),
            tv == texts(types@),
            0 <= i <= field_count,
            repeat(field_step(d, nv, tv), q, i as nat) == Step::Done(
                fields@.map_values(|f: DnaField| f@),
                r.pos as int,
            ),
            !(repeat(field_step(d, nv, tv), q, field_count as nat) is Panic),
        decreases field_count - i,
    {
        proof {
            lemma_repeat_stuck(field_step(d, nv, tv), q, (i + 1) as nat, field_count as nat);
        }
        let f = match read_field(r, names, types) {
            Ok(f) => f,
            Err(e) => {
                assert(repeat(field_step(d, nv, tv), q, (i + 1) as nat) is Eof);
                proof {
                    lemma_repeat_stuck(field_step(d, nv, tv), q, (i + 1) as nat, field_count as nat);
                }
                return Err(e);
            },
        };
        let ghost before = fields@;
        fields.push(f);
        assert(fields@.map_values(|f: DnaField| f@) =~= before.map_values(|f: DnaField| f@).push(f@));
        i += 1;
    }
    if struct_type >= types.len() {
        return vstd::pervasive::unreached();
    }
    Ok(DnaStruct { name: types[struct_type].clone(), fields })
}

#[verifier::loop_isolation(false)]
fn read_structs(r: &mut Cursor, names: &Vec<String>, types: &Vec<String>) -> (res: Result<
    Vec<DnaStruct>,
    ReadError,
>)
    requires
        !(structs_at(old(r).data@, old(r).pos as int, texts(names@), texts(types@)) is Panic),
    ensures
        final(r).data == old(r).data,
        followed(
            structs_at(old(r).data@, old(r).pos as int, texts(names@), texts(types@)),
            res is Ok,
            *final(r),
        ),
        structs_at(old(r).data@, old(r).pos as int, texts(names@), texts(types@)) matches Step::Done(
            sv,
            _,
        ) ==> res matches Ok(v) && v@.map_values(|s: DnaStruct| s@) == sv,
{
    let ghost d = r.data@;
    let ghost nv = texts(names@);
    let ghost tv = texts(types@);
    let n = read_u32_le(r)?;
    let ghost q = r.pos as int;
    let mut v: Vec<DnaStruct> = Vec::new();
    let mut i: u32 = 0;
    assert(v@.map_values(|s: DnaStruct| s@) =~= Seq::<DnaStructView>::empty());
    while i < n
        invariant
            r.data == old(r).data,
            nv == texts(names@),
            tv == texts(types@),
            0 <= i <= n,
            repeat(struct_step(d, nv, tv), q, i as nat) == Step::Done(
                v@.map_values(|s: DnaStruct| s@),
                r.pos as int,
            ),
            !(repeat(struct_step(d, nv, tv), q, n as nat) is Panic),
        decreases n - i,
    {
        proof {
            lemma_repeat_stuck(struct_step(d, nv, tv), q, (i + 1) as nat, n as nat);
        }
        let st = match read_struct(r, names, types) {
            Ok(st) => st,
            Err(e) => {
                assert(repeat(struct_step(d, nv, tv), q, (i + 1) as nat) is Eof);
                proof {
                    lemma_repeat_stuck(struct_step(d, nv, tv), q, (i + 1) as nat, n as nat);
                }
                return Err(e);
            },
        };
        let ghost before = v@;
        v.push(st);
        assert(v@.map_values(|s: DnaStruct| s@) =~= before.map_values(|s: DnaStruct| s@).push(st@));
        i += 1;
    }
    Ok(v)
}

/// Reads an SDNA catalogue from its bytes.
pub fn parse_dna(bytes: &[u8]) -> (res: Result<Dna, ReadError>)
    requires
        !(dna_at(bytes@) is Panic),
    ensures
        match dna_at(bytes@) {
            Step::Done(v, _) => res matches Ok(dna) && dna@ == v,
            Step::Eof => res is Err,
            Step::Panic => false,
        },
{
    let mut reader = Cursor::new(bytes);
    proof {
        reveal(dna_at);
        reveal_strlit("SDNA");
        reveal_strlit("NAME");
        reveal_strlit("TYPE");
        reveal_strlit("TLEN");
        reveal_strlit("STRC");
        assert("SDNA"@ =~= seq!['S', 'D', 'N', 'A']);
        assert("NAME"@ =~= seq!['N', 'A', 'M', 'E']);
        assert("TYPE"@ =~= seq!['T', 'Y', 'P', 'E']);
        assert("TLEN"@ =~= seq!['T', 'L', 'E', 'N']);
        assert("STRC"@ =~= seq!['S', 'T', 'R', 'C']);
    }
    expect_tag(&mut reader, "SDNA")?;
    expect_tag(&mut reader, "NAME")?;
    let names = read_string_table(&mut reader)?;
    expect_tag(&mut reader, "TYPE")?;
    let types = read_string_table(&mut reader)?;
    expect_tag(&mut reader, "TLEN")?;
    let types_len = read_lengths(&mut reader, types.len())?;
    expect_tag(&mut reader, "STRC")?;
    let structs = read_structs(&mut reader, &names, &types)?;
    Ok(Dna { names, types, types_len, structs })
}

/// The first index at or after `i` where `s` holds `c`.
pub open spec fn find_char_from(s: Seq<char>, c: char, i: int) -> Option<int>
    decreases s.len() - i,
{
    if i < 0 || i >= s.len() {
        None
    } else if s[i] == c {
        Some(i)
    } else {
        find_char_from(s, c, i + 1)
    }
}

/// The number of elements of an array declarator such as `mat[4][4]`: the
/// product of the bracketed numbers from index `i` on, times `acc`.  A `[`
/// without a later `]`, a bracket that does not hold a number, and a product
/// that does not fit in a `usize` have no value.
pub open spec fn array_len_from(name: Seq<char>, i: int, acc: nat) -> Option<nat>
    decreases name.len() - i,
{
    if i < 0 || i >= name.len() {
        Some(acc)
    } else if name[i] != '[' {
        array_len_from(name, i + 1, acc)
    } else {
        match find_char_from(name, ']', i) {
            None => None,
            Some(e) => match parsed_usize(name.subrange(i + 1, e)) {
                None => None,
                Some(v) => if acc * v > usize::MAX {
                    None
                } else {
                    array_len_from(name, i + 1, (acc * v) as nat)
                },
            },
        }
    }
}

/// The first index at or after `i` of the type named `t`.
pub open spec fn type_index_from(types: Seq<Seq<char>>, t: Seq<char>, i: int) -> Option<int>
    decreases types.len() - i,
{
    if i < 0 || i >= types.len() {
        None
    } else if types[i] == t {
        Some(i)
    } else {
        type_index_from(types, t, i + 1)
    }
}

/// The size of the type named `t`: the size recorded for the first type of that name.
pub open spec fn type_size(dna: DnaView, t: Seq<char>) -> Option<nat> {
    match type_index_from(dna.types, t, 0) {
        Some(k) => if k < dna.types_len.len() {
            Some(dna.types_len[k] as nat)
        } else {
            None
        },
        None => None,
    }
}

/// The size of a field: 8 for a pointer (`*name`), the element count times
/// the type size for an array (`name[n]...`), the type size otherwise.
pub open spec fn field_size(dna: DnaView, f: (Seq<char>, Seq<char>)) -> Option<nat> {
    let t = f.0;
    let name = f.1;
    if name.len() > 0 && name[0] == '*' {
        Some(8)
    } else if name.len() > 0 && name.last() == ']' {
        match array_len_from(name, 0, 1) {
            Some(a) => match type_size(dna, t) {
                Some(ts) => if a * ts > usize::MAX {
                    None
                } else {
                    Some((a * ts) as nat)
                },
                None => None,
            },
            None => None,
        }
    } else {
        type_size(dna, t)
    }
}

/// The total size of the first `n` fields, if every size and partial sum fits.
pub open spec fn fields_size(dna: DnaView, fs: Seq<(Seq<char>, Seq<char>)>, n: nat) -> Option<nat>
    decreases n,
{
    if n == 0 {
        Some(0)
    } else {
        match fields_size(dna, fs, (n - 1) as nat) {
            Some(a) => match field_size(dna, fs[n - 1]) {
                Some(b) => if a + b > usize::MAX {
                    None
                } else {
                    Some(a + b)
                },
                None => None,
            },
            None => None,
        }
    }
}

/// The first index at or after `i` of the struct layout named `name`.
pub open spec fn struct_index_from(structs: Seq<DnaStructView>, name: Seq<char>, i: int) -> Option<
    int,
>
    decreases structs.len() - i,
{
    if i < 0 || i >= structs.len() {
        None
    } else if structs[i].name == name {
        Some(i)
    } else {
        struct_index_from(structs, name, i + 1)
    }
}

/// The size of the struct named `name`: the sum of its field sizes.
pub open spec fn struct_size(dna: DnaView, name: Seq<char>) -> Option<nat> {
    match struct_index_from(dna.structs, name, 0) {
        Some(k) => fields_size(dna, dna.structs[k].fields, dna.structs[k].fields.len()),
        None => None,
    }
}

proof fn lemma_fields_size_prefix(dna: DnaView, fs: Seq<(Seq<char>, Seq<char>)>, i: nat, n: nat)
    requires
        i <= n,
        fields_size(dna, fs, n) is Some,
    ensures
        fields_size(dna, fs, i) is Some,
        i < n ==> field_size(dna, fs[i as int]) is Some,
    decreases n - i,
{
    if i < n {
        lemma_fields_size_prefix(dna, fs, i, (n - 1) as nat);
        if i + 1 < n {
            lemma_fields_size_prefix(dna, fs, (i + 1) as nat, (n - 1) as nat);
        }
    }
}

/// The number of elements of an array declarator.
#[verifier::loop_isolation(false)]
fn array_len(name: &str) -> (n: usize)
    requires
        array_len_from(name@, 0, 1) is Some,
    ensures
        array_len_from(name@, 0, 1) == Some(n as nat),
{
    let len = name.unicode_len();
    let mut i: usize = 0;
    let mut acc: usize = 1;
    while i < len
        invariant
            len == name@.len(),
            0 <= i <= len,
            array_len_from(name@, 0, 1) == array_len_from(name@, i as int, acc as nat),
        decreases len - i,
    {
        if name.get_char(i) == '[' {
            let mut e = i;
            while e < len && name.get_char(e) != ']'
                invariant
                    len == name@.len(),
                    i <= e <= len,
                    find_char_from(name@, ']', i as int) == find_char_from(name@, ']', e as int),
                decreases len - e,
            {
                e += 1;
            }
            if e >= len {
                return vstd::pervasive::unreached();
            }
            let digits = name.substring_char(i + 1, e);
            let v = match parse_usize(digits) {
                Some(v) => v,
                None => return vstd::pervasive::unreached(),
            };
            if v != 0 && acc > usize::MAX / v {
                proof {
                    assert(acc * v > usize::MAX) by (nonlinear_arith)
                        requires
                            v != 0,
                            acc > usize::MAX / v,
                    ;
                }
                return vstd::pervasive::unreached();
            }
            proof {
                assert(acc * v <= usize::MAX) by (nonlinear_arith)
                    requires
                        v == 0 || acc <= usize::MAX / v,
                ;
            }
            acc = acc * v;
        }
        i += 1;
    }
    acc
}

impl Dna {
    /// The size recorded for the first type named `t`.
    fn type_size(&self, t: &str) -> (n: usize)
        requires
            type_size(self@, t@) is Some,
        ensures
            type_size(self@, t@) == Some(n as nat),
    {
        let mut k: usize = 0;
        while k < self.types.len() && !str_eq(self.types[k].as_str(), t)
            invariant
                0 <= k <= self.types@.len(),
                type_index_from(self@.types, t@, 0) == type_index_from(self@.types, t@, k as int),
            decreases self.types@.len() - k,
        {
            k += 1;
        }
        if k >= self.types.len() || k >= self.types_len.len() {
            return vstd::pervasive::unreached();
        }
        self.types_len[k]
    }

    /// The size of one field.
    fn field_size(&self, field: &DnaField) -> (n: usize)
        requires
            field_size(self@, field@) is Some,
        ensures
            field_size(self@, field@) == Some(n as nat),
    {
        let name = field.name.as_str();
        let len = name.unicode_len();
        if len > 0 && name.get_char(0) == '*' {
            8
        } else if len > 0 && name.get_char(len - 1) == ']' {
            let a = array_len(name);
            let ts = self.type_size(field.ttype.as_str());
            if ts != 0 && a > usize::MAX / ts {
                proof {
                    assert(a * ts > usize::MAX) by (nonlinear_arith)
                        requires
                            ts != 0,
                            a > usize::MAX / ts,
                    ;
                }
                return vstd::pervasive::unreached();
            }
            proof {
                assert(a * ts <= usize::MAX) by (nonlinear_arith)
                    requires
                        ts == 0 || a <= usize::MAX / ts,
                ;
            }
            a * ts
        } else {
            self.type_size(field.ttype.as_str())
        }
    }

    /// The size in bytes of the struct named `name`: the sum of its field
    /// sizes, where a pointer takes 8 bytes and an array its element count
    /// times its type's size.
    pub fn get_struct_size(&self, name: &str) -> (size: usize)
        requires
            struct_size(self@, name@) is Some,
        ensures
            struct_size(self@, name@) == Some(size as nat),
    {
        let mut k: usize = 0;
        while k < self.structs.len() && !str_eq(self.structs[k].name.as_str(), name)
            invariant
                0 <= k <= self.structs@.len(),
                struct_index_from(self@.structs, name@, 0) == struct_index_from(
                    self@.structs,
                    name@,
                    k as int,
                ),
            decreases self.structs@.len() - k,
        {
            k += 1;
        }
        if k >= self.structs.len() {
            return vstd::pervasive::unreached();
        }
        let s = &self.structs[k];
        let ghost fs = s@.fields;
        assert(fs == self@.structs[k as int].fields);
        let n = s.fields.len();
        let mut size: usize = 0;
        let mut i: usize = 0;
        while i < n
            invariant
                n == fs.len(),
                fs == s@.fields,
                0 <= i <= n,
                fields_size(self@, fs, n as nat) is Some,
                fields_size(self@, fs, i as nat) == Some(size as nat),
            decreases n - i,
        {
            proof {
                lemma_fields_size_prefix(self@, fs, (i + 1) as nat, n as nat);
                lemma_fields_size_prefix(self@, fs, i as nat, n as nat);
            }
            assert(s.fields@[i as int]@ == fs[i as int]);
            let f = self.field_size(&s.fields[i]);
            size = size + f;
            i += 1;
        }
        size
    }
}

/// A block of a `.blend` file: its tag, the size of its data, the address it
/// had in memory, the index of its struct layout, the number of structs it
/// holds, and its data.
pub struct BlendBlock {
    pub tag: String,
    pub size: usize,
    pub addr: usize,
    pub sdna_idx: usize,
    pub count: usize,
    pub data: Vec<u8>,
}

/// A `.blend` file: its blocks and its SDNA catalogue.
pub struct Blend {
    pub blocks: Vec<BlendBlock>,
    pub dna: Dna,
}

/// A block as plain values.
pub struct BlendBlockView {
    pub tag: Seq<char>,
    pub size: usize,
    pub addr: usize,
    pub sdna_idx: usize,
    pub count: usize,
    pub data: Seq<u8>,
}

/// A `.blend` file as plain values.
pub struct BlendView {
    pub blocks: Seq<BlendBlockView>,
    pub dna: DnaView,
}

impl View for BlendBlock {
    type V = BlendBlockView;

    open spec fn view(&self) -> BlendBlockView {
        BlendBlockView {
            tag: self.tag@,
            size: self.size,
            addr: self.addr,
            sdna_idx: self.sdna_idx,
            count: self.count,
            data: self.data@,
        }
    }
}

/// The blocks as plain values.
pub open spec fn block_views(v: Seq<BlendBlock>) -> Seq<BlendBlockView> {
    v.map_values(|b: BlendBlock| b@)
}

impl View for Blend {
    type V = BlendView;

    open spec fn view(&self) -> BlendView {
        BlendView { blocks: block_views(self.blocks@), dna: self.dna@ }
    }
}

/// Reading `n` bytes at `p`.
pub open spec fn bytes_at(d: Seq<u8>, p: int, n: nat) -> Step<Seq<u8>> {
    if rest(d, p).len() >= n {
        Step::Done(rest(d, p).subrange(0, n as int), p + n)
    } else {
        Step::Eof
    }
}

/// Reading a little-endian `u64` at `p`.
pub open spec fn u64_at(d: Seq<u8>, p: int) -> Step<u64> {
    if rest(d, p).len() >= 8 {
        Step::Done(le64(rest(d, p)) as u64, p + 8)
    } else {
        Step::Eof
    }
}

/// Reading any four-byte tag at `p`.
pub open spec fn any_tag_at(d: Seq<u8>, p: int) -> Step<Seq<char>> {
    let s = rest(d, p);
    if s.len() < 4 {
        Step::Eof
    } else if !tag_readable(s) {
        Step::Panic
    } else {
        Step::Done(decode_utf8(trim_trailing_nul(s.subrange(0, 4))), p + 4)
    }
}

/// Reading a block header and its data at `p`.
pub open spec fn block_at(d: Seq<u8>, p: int) -> Step<BlendBlockView> {
    match any_tag_at(d, p) {
        Step::Done(tag, p1) => match u32_at(d, p1) {
            Step::Done(size, p2) => match u64_at(d, p2) {
                Step::Done(addr, p3) => match u32_at(d, p3) {
                    Step::Done(sdna, p4) => match u32_at(d, p4) {
                        Step::Done(count, p5) => match bytes_at(d, p5, size as nat) {
                            Step::Done(data, p6) => Step::Done(
                                BlendBlockView {
                                    tag,
                                    size: size as usize,
                                    addr: addr as usize,
                                    sdna_idx: sdna as usize,
                                    count: count as usize,
                                    data,
                                },
                                p6,
                            ),
                            Step::Eof => Step::Eof,
                            Step::Panic => Step::Panic,
                        },
                        Step::Eof => Step::Eof,
                        Step::Panic => Step::Panic,
                    },
                    Step::Eof => Step::Eof,
                    Step::Panic => Step::Panic,
                },
                Step::Eof => Step::Eof,
                Step::Panic => Step::Panic,
            },
            Step::Eof => Step::Eof,
            Step::Panic => Step::Panic,
        },
        Step::Eof => Step::Eof,
        Step::Panic => Step::Panic,
    }
}

/// A block that reads takes at least its 24 header bytes and no more than there are.
pub proof fn lemma_block_at_advances(d: Seq<u8>, p: int)
    ensures
        block_at(d, p) matches Step::Done(_, q) ==> p + 24 <= q <= d.len(),
{
}

/// The catalogue after block `b`: a `DNA1` block holds a new catalogue, which
/// replaces the one seen so far.
pub open spec fn dna_after(b: BlendBlockView, dna: Option<DnaView>) -> Step<Option<DnaView>> {
    if b.tag == "DNA1"@ {
        match dna_at(b.data) {
            Step::Done(v, _) => Step::Done(Some(v), 0),
            Step::Eof => Step::Eof,
            Step::Panic => Step::Panic,
        }
    } else {
        Step::Done(dna, 0)
    }
}

/// Reading blocks from `p` up to and including the `ENDB` block, with `dna`
/// the catalogue seen before `p`: the blocks and the last catalogue.
pub open spec fn blocks_from(d: Seq<u8>, p: int, dna: Option<DnaView>) -> Step<
    (Seq<BlendBlockView>, Option<DnaView>),
>
    decreases d.len() - p,
{
    match block_at(d, p) {
        Step::Done(b, q) => match dna_after(b, dna) {
            Step::Done(dna2, _) => if b.tag == "ENDB"@ {
                Step::Done((seq![b], dna2), q)
            } else {
                proof {
                    lemma_block_at_advances(d, p);
                }
                match blocks_from(d, q, dna2) {
                    Step::Done((bs, dn), q2) => Step::Done((seq![b] + bs, dn), q2),
                    Step::Eof => Step::Eof,
                    Step::Panic => Step::Panic,
                }
            },
            Step::Eof => Step::Eof,
            Step::Panic => Step::Panic,
        },
        Step::Eof => Step::Eof,
        Step::Panic => Step::Panic,
    }
}

/// What the check of the mesh blocks keeps: the number of vertices and the
/// edges (pairs of vertex indices) seen so far.
pub struct MeshState {
    pub verts: nat,
    pub edges: Seq<(usize, usize)>,
}

/// The second little-endian `u32` of `s`.
pub open spec fn second_u32(s: Seq<u8>) -> int {
    le32(s.subrange(4, 8))
}

/// One struct of a `DATA` block at offset `p`: an `MVert` adds a vertex, an
/// `MEdge` an edge between existing vertices, an `MLoop` refers to an
/// existing edge and vertex, an `MPoly` is read; then the reader moves to
/// the next struct, `size` bytes on, which must not be less than what it read.
pub open spec fn struct_step_at(data: Seq<u8>, sname: Seq<char>, size: int, p: int, st: MeshState) -> Step<
    MeshState,
> {
    let s = rest(data, p);
    if sname == "MVert"@ {
        if s.len() < 12 {
            Step::Eof
        } else if size < 12 || p + size > u64::MAX {
            Step::Panic
        } else {
            Step::Done(MeshState { verts: st.verts + 1, edges: st.edges }, p + size)
        }
    } else if sname == "MEdge"@ {
        if s.len() < 8 {
            Step::Eof
        } else if le32(s) >= st.verts || second_u32(s) >= st.verts || size < 8 || p + size
            > u64::MAX {
            Step::Panic
        } else {
            Step::Done(
                MeshState {
                    verts: st.verts,
                    edges: st.edges.push((le32(s) as usize, second_u32(s) as usize)),
                },
                p + size,
            )
        }
    } else if sname == "MLoop"@ {
        if s.len() < 8 {
            Step::Eof
        } else if second_u32(s) >= st.edges.len() || st.edges[second_u32(s)].0 >= st.verts
            || st.edges[second_u32(s)].1 >= st.verts || le32(s) >= st.verts || size < 8 || p
            + size > u64::MAX {
            Step::Panic
        } else {
            Step::Done(st, p + size)
        }
    } else if sname == "MPoly"@ {
        if s.len() < 8 {
            Step::Eof
        } else if size < 8 || p + size > u64::MAX {
            Step::Panic
        } else {
            Step::Done(st, p + size)
        }
    } else if p + size > u64::MAX {
        Step::Panic
    } else {
        Step::Done(st, p + size)
    }
}

/// The first `n` structs of a `DATA` block, from offset 0.
pub open spec fn structs_walk(data: Seq<u8>, sname: Seq<char>, size: int, n: nat, st: MeshState) -> Step<
    MeshState,
>
    decreases n,
{
    if n == 0 {
        Step::Done(st, 0)
    } else {
        match structs_walk(data, sname, size, (n - 1) as nat, st) {
            Step::Done(st2, q) => struct_step_at(data, sname, size, q, st2),
            Step::Eof => Step::Eof,
            Step::Panic => Step::Panic,
        }
    }
}

/// The tags the reader knows.
pub open spec fn known_tag(t: Seq<char>) -> bool {
    ||| t == "REND"@
    ||| t == "DATA"@
    ||| t == "DNA1"@
    ||| t == "GLOB"@
    ||| t == "TEST"@
    ||| t == "USER"@
    ||| t == "ENDB"@
    ||| t == "AR"@
    ||| t == "BR"@
    ||| t == "CA"@
    ||| t == "GD"@
    ||| t == "GR"@
    ||| t == "IM"@
    ||| t == "LA"@
    ||| t == "LS"@
    ||| t == "MA"@
    ||| t == "ME"@
    ||| t == "OB"@
    ||| t == "PL"@
    ||| t == "SC"@
    ||| t == "SN"@
    ||| t == "TX"@
    ||| t == "WM"@
    ||| t == "WO"@
    ||| t == "WS"@
}

/// Checking one block: a `DATA` block's structs are walked with its layout
/// (which must exist and have a size), a `TEST` thumbnail must hold its
/// width and height, other known tags pass, an unknown tag stops the reader.
pub open spec fn block_check(dna: DnaView, b: BlendBlockView, st: MeshState) -> Step<MeshState> {
    if b.tag == "DATA"@ {
        if b.sdna_idx >= dna.structs.len() {
            Step::Panic
        } else {
            let sname = dna.structs[b.sdna_idx as int].name;
            match struct_size(dna, sname) {
                Some(size) => match structs_walk(b.data, sname, size as int, b.count as nat, st) {
                    Step::Done(st2, _) => Step::Done(st2, 0),
                    Step::Eof => Step::Eof,
                    Step::Panic => Step::Panic,
                },
                None => Step::Panic,
            }
        }
    } else if b.tag == "TEST"@ {
        if b.data.len() < 8 {
            Step::Eof
        } else {
            Step::Done(st, 0)
        }
    } else if known_tag(b.tag) {
        Step::Done(st, 0)
    } else {
        Step::Panic
    }
}

/// Checking the first `n` blocks in order.
pub open spec fn blocks_check(dna: DnaView, bs: Seq<BlendBlockView>, n: nat) -> Step<MeshState>
    decreases n,
{
    if n == 0 {
        Step::Done(MeshState { verts: 0, edges: Seq::empty() }, 0)
    } else {
        match blocks_check(dna, bs, (n - 1) as nat) {
            Step::Done(st, _) => block_check(dna, bs[n - 1], st),
            Step::Eof => Step::Eof,
            Step::Panic => Step::Panic,
        }
    }
}

/// The twelve-byte header: `BLENDER`, `-` (8-byte pointers), `v` (little
/// endian) and a three-digit version above 280.
pub open spec fn header_ok(h: Seq<u8>) -> bool {
    &&& h[0] == 0x42 && h[1] == 0x4C && h[2] == 0x45 && h[3] == 0x4E && h[4] == 0x44 && h[5] == 0x45
        && h[6] == 0x52
    &&& h[7] == 0x2D
    &&& h[8] == 0x76
    &&& valid_utf8(h.subrange(9, 12))
    &&& parsed_usize(decode_utf8(h.subrange(9, 12))) matches Some(v) && v > 280
}

/// Reading a `.blend` file: the header, the blocks up to `ENDB` (one of them
/// a `DNA1` catalogue), then the check of every block.
pub open spec fn blend_at(d: Seq<u8>) -> Step<BlendView> {
    match bytes_at(d, 0, 12) {
        Step::Done(h, q) => if !header_ok(h) {
            Step::Panic
        } else {
            match blocks_from(d, q, None) {
                Step::Done((bs, dn), _) => match dn {
                    Some(dv) => match blocks_check(dv, bs, bs.len()) {
                        Step::Done(_, _) => Step::Done(BlendView { blocks: bs, dna: dv }, 0),
                        Step::Eof => Step::Eof,
                        Step::Panic => Step::Panic,
                    },
                    None => Step::Panic,
                },
                Step::Eof => Step::Eof,
                Step::Panic => Step::Panic,
            }
        },
        Step::Eof => Step::Eof,
        Step::Panic => Step::Panic,
    }
}

fn read_block(r: &mut Cursor) -> (res: Result<BlendBlock, ReadError>)
    requires
        !(block_at(old(r).data@, old(r).pos as int) is Panic),
    ensures
        final(r).data == old(r).data,
        followed(block_at(old(r).data@, old(r).pos as int), res is Ok, *final(r)),
        block_at(old(r).data@, old(r).pos as int) matches Step::Done(bv, _) ==> res matches Ok(b)
            && b@ == bv,
{
    let tag = read_tag(r)?;
    let size = read_u32_le(r)? as usize;
    let addr = read_u64_le(r)? as usize;
    let sdna_idx = read_u32_le(r)? as usize;
    let count = read_u32_le(r)? as usize;
    let data = read_bytes(r, size)?;
    Ok(BlendBlock { tag, size, addr, sdna_idx, count, data })
}

/// The catalogue held, if any, as plain values.
pub open spec fn dna_view(o: Option<Dna>) -> Option<DnaView> {
    match o {
        Some(d) => Some(d@),
        None => None,
    }
}

/// `s` with the blocks `done` read before it.
pub open spec fn after_blocks(done: Seq<BlendBlockView>, s: Step<(Seq<BlendBlockView>, Option<DnaView>)>) -> Step<
    (Seq<BlendBlockView>, Option<DnaView>),
> {
    match s {
        Step::Done((bs, dn), q) => Step::Done((done + bs, dn), q),
        Step::Eof => Step::Eof,
        Step::Panic => Step::Panic,
    }
}

proof fn lemma_after_blocks(a: Seq<BlendBlockView>, b: Seq<BlendBlockView>, s: Step<(Seq<BlendBlockView>, Option<DnaView>)>)
    ensures
        after_blocks(a, after_blocks(b, s)) == after_blocks(a + b, s),
        after_blocks(Seq::empty(), s) == s,
{
    match s {
        Step::Done((bs, dn), q) => {
            assert(a + (b + bs) =~= (a + b) + bs);
            assert(Seq::<BlendBlockView>::empty() + bs =~= bs);
        },
        _ => {},
    }
}

fn read_next_block(r: &mut Cursor, dna: &mut Option<Dna>) -> (res: Result<BlendBlock, ReadError>)
    requires
        !(block_at(old(r).data@, old(r).pos as int) is Panic),
        block_at(old(r).data@, old(r).pos as int) matches Step::Done(bv, _) ==> !(dna_after(
            bv,
            dna_view(*old(dna)),
        ) is Panic),
    ensures
        final(r).data == old(r).data,
        match block_at(old(r).data@, old(r).pos as int) {
            Step::Done(bv, q) => match dna_after(bv, dna_view(*old(dna))) {
                Step::Done(dn2, _) => res matches Ok(b) && b@ == bv && final(r).pos == q
                    && dna_view(*final(dna)) == dn2,
                Step::Eof => res is Err,
                Step::Panic => false,
            },
            Step::Eof => res is Err,
            Step::Panic => false,
        },
{
    let block = read_block(r)?;
    if str_eq(block.tag.as_str(), "DNA1") {
        let v = parse_dna(block.data.as_slice())?;
        *dna = Some(v);
    }
    Ok(block)
}

fn read_blocks(r: &mut Cursor) -> (res: Result<(Vec<BlendBlock>, Option<Dna>), ReadError>)
    requires
        !(blocks_from(old(r).data@, old(r).pos as int, None) is Panic),
    ensures
        final(r).data == old(r).data,
        match blocks_from(old(r).data@, old(r).pos as int, None) {
            Step::Done((bs, dn), _) => res matches Ok((v, o)) && block_views(v@) == bs && dna_view(o)
                == dn,
            Step::Eof => res is Err,
            Step::Panic => false,
        },
{
    let ghost d = r.data@;
    let ghost p0 = r.pos as int;
    let ghost total = blocks_from(d, p0, None);
    let mut blocks: Vec<BlendBlock> = Vec::new();
    let mut dna: Option<Dna> = None;
    proof {
        lemma_after_blocks(Seq::empty(), Seq::empty(), total);
        assert(block_views(blocks@) =~= Seq::<BlendBlockView>::empty());
    }
    loop
        invariant_except_break
            r.data == old(r).data,
            d == old(r).data@,
            p0 == old(r).pos as int,
            total == blocks_from(d, p0, None),
            !(total is Panic),
            after_blocks(block_views(blocks@), blocks_from(d, r.pos as int, dna_view(dna))) == total,
        ensures
            r.data == old(r).data,
            total == blocks_from(d, p0, None),
            total matches Step::Done((bs, dn), _) && block_views(blocks@) == bs && dna_view(dna) == dn,
        decreases d.len() - r.pos,
    {
        let ghost p = r.pos as int;
        let ghost done = block_views(blocks@);
        let ghost dn = dna_view(dna);
        proof {
            lemma_block_at_advances(d, p);
        }
        let block = match read_next_block(r, &mut dna) {
            Ok(b) => b,
            Err(e) => {
                assert(blocks_from(d, p, dn) is Eof);
                return Err(e);
            },
        };
        let ghost bv = block@;
        let is_end = str_eq(block.tag.as_str(), "ENDB");
        blocks.push(block);
        assert(block_views(blocks@) =~= done + seq![bv]);
        if is_end {
            assert(blocks_from(d, p, dn) == Step::Done((seq![bv], dna_view(dna)), r.pos as int));
            break;
        }
        proof {
            lemma_after_blocks(done, seq![bv], blocks_from(d, r.pos as int, dna_view(dna)));
        }
    }
    Ok((blocks, dna))
}

#[verifier::loop_isolation(false)]
fn check_data_block(
    block: &BlendBlock,
    dna: &Dna,
    verts: &mut Vec<(u32, u32, u32)>,
    edges: &mut Vec<(usize, usize)>,
) -> (res: Result<(), ReadError>)
    requires
        block@.tag == "DATA"@,
        !(block_check(dna@, block@, MeshState { verts: old(verts)@.len(), edges: old(edges)@ }) is Panic),
    ensures
        match block_check(dna@, block@, MeshState { verts: old(verts)@.len(), edges: old(edges)@ }) {
            Step::Done(st, _) => res is Ok && st == MeshState { verts: final(verts)@.len(), edges: final(edges)@ },
            Step::Eof => res is Err,
            Step::Panic => false,
        },
{
    let ghost st0 = MeshState { verts: verts@.len(), edges: edges@ };
    if block.sdna_idx >= dna.structs.len() {
        return vstd::pervasive::unreached();
    }
    let sname = dna.structs[block.sdna_idx].name.as_str();
    let ghost sv = sname@;
    assert(sv == dna@.structs[block.sdna_idx as int].name);
    let size = dna.get_struct_size(sname) as u64;
    let is_vert = str_eq(sname, "MVert");
    let is_edge = str_eq(sname, "MEdge");
    let is_loop = str_eq(sname, "MLoop");
    let is_poly = str_eq(sname, "MPoly");
    let ghost data = block.data@;
    let mut r = Cursor::new(block.data.as_slice());
    let mut k: usize = 0;
    assert(structs_walk(data, sv, size as int, 0, st0) == Step::Done(st0, 0));
    while k < block.count
        invariant
            r.data@ == data,
            0 <= k <= block.count,
            structs_walk(data, sv, size as int, k as nat, st0) == Step::Done(
                MeshState { verts: verts@.len(), edges: edges@ },
                r.pos as int,
            ),
        decreases block.count - k,
    {
        proof {
            lemma_walk_stuck(data, sv, size as int, (k + 1) as nat, block.count as nat, st0);
        }
        let ghost st = MeshState { verts: verts@.len(), edges: edges@ };
        let ghost s = r.remaining();
        let pos = r.position();
        if is_vert {
            let x = read_u32_le(&mut r)?;
            let y = read_u32_le(&mut r)?;
            let z = read_u32_le(&mut r)?;
            verts.push((x, y, z));
        } else if is_edge {
            let v1 = read_u32_le(&mut r)? as usize;
            let v2 = read_u32_le(&mut r)? as usize;
            assert(s.subrange(4, 8)[0] == s[4] && s.subrange(4, 8)[3] == s[7]);
            if v1 >= verts.len() || v2 >= verts.len() {
                return vstd::pervasive::unreached();
            }
            edges.push((v1, v2));
        } else if is_loop {
            let v = read_u32_le(&mut r)? as usize;
            let e = read_u32_le(&mut r)? as usize;
            assert(s.subrange(4, 8)[0] == s[4] && s.subrange(4, 8)[3] == s[7]);
            if e >= edges.len() || edges[e].0 >= verts.len() || edges[e].1 >= verts.len() || v
                >= verts.len() {
                return vstd::pervasive::unreached();
            }
        } else if is_poly {
            let _loopstart = read_u32_le(&mut r)?;
            let _totloop = read_u32_le(&mut r)?;
        }
        let read = r.position() - pos;
        if size < read {
            return vstd::pervasive::unreached();
        }
        let skip = size - read;
        if r.position() > u64::MAX - skip {
            return vstd::pervasive::unreached();
        }
        let next = r.position() + skip;
        r.set_position(next);
        k += 1;
    }
    Ok(())
}

proof fn lemma_walk_stuck(data: Seq<u8>, sname: Seq<char>, size: int, i: nat, n: nat, st: MeshState)
    requires
        i <= n,
    ensures
        structs_walk(data, sname, size, i, st) is Eof ==> structs_walk(data, sname, size, n, st) is Eof,
        structs_walk(data, sname, size, i, st) is Panic ==> structs_walk(data, sname, size, n, st) is Panic,
    decreases n - i,
{
    if i < n {
        lemma_walk_stuck(data, sname, size, i, (n - 1) as nat, st);
    }
}

/// Whether `t` is one of the tags the reader knows.
fn is_known_tag(t: &str) -> (b: bool)
    ensures
        b == known_tag(t@),
{
    str_eq(t, "REND") || str_eq(t, "DATA") || str_eq(t, "DNA1") || str_eq(t, "GLOB") || str_eq(t, "TEST") || str_eq(t, "USER") || str_eq(t, "ENDB") || str_eq(t, "AR") || str_eq(t, "BR") || str_eq(t, "CA") || str_eq(t, "GD") || str_eq(t, "GR") || str_eq(t, "IM") || str_eq(t, "LA") || str_eq(t, "LS") || str_eq(t, "MA") || str_eq(t, "ME") || str_eq(t, "OB") || str_eq(t, "PL") || str_eq(t, "SC") || str_eq(t, "SN") || str_eq(t, "TX") || str_eq(t, "WM") || str_eq(t, "WO") || str_eq(t, "WS")
}

proof fn lemma_check_stuck(dna: DnaView, bs: Seq<BlendBlockView>, i: nat, n: nat)
    requires
        i <= n,
    ensures
        blocks_check(dna, bs, i) is Eof ==> blocks_check(dna, bs, n) is Eof,
        blocks_check(dna, bs, i) is Panic ==> blocks_check(dna, bs, n) is Panic,
    decreases n - i,
{
    if i < n {
        lemma_check_stuck(dna, bs, i, (n - 1) as nat);
    }
}

fn check_blocks(blocks: &Vec<BlendBlock>, dna: &Dna) -> (res: Result<(), ReadError>)
    requires
        !(blocks_check(dna@, block_views(blocks@), blocks@.len()) is Panic),
    ensures
        match blocks_check(dna@, block_views(blocks@), blocks@.len()) {
            Step::Done(_, _) => res is Ok,
            Step::Eof => res is Err,
            Step::Panic => false,
        },
{
    let ghost bvs = block_views(blocks@);
    let n = blocks.len();
    let mut verts: Vec<(u32, u32, u32)> = Vec::new();
    let mut edges: Vec<(usize, usize)> = Vec::new();
    let mut i: usize = 0;
    assert(edges@ =~= Seq::<(usize, usize)>::empty());
    while i < n
        invariant
            n == blocks@.len(),
            bvs == block_views(blocks@),
            0 <= i <= n,
            blocks_check(dna@, bvs, i as nat) == Step::Done(
                MeshState { verts: verts@.len(), edges: edges@ },
                0,
            ),
            !(blocks_check(dna@, bvs, n as nat) is Panic),
        decreases n - i,
    {
        proof {
            lemma_check_stuck(dna@, bvs, (i + 1) as nat, n as nat);
        }
        let b = &blocks[i];
        assert(bvs[i as int] == b@);
        let tag = b.tag.as_str();
        if str_eq(tag, "DATA") {
            match check_data_block(b, dna, &mut verts, &mut edges) {
                Ok(()) => {},
                Err(e) => {
                    proof {
                        lemma_check_stuck(dna@, bvs, (i + 1) as nat, n as nat);
                    }
                    return Err(e);
                },
            }
        } else if str_eq(tag, "TEST") {
            let mut r = Cursor::new(b.data.as_slice());
            let w = read_u32_le(&mut r);
            let h = read_u32_le(&mut r);
            if w.is_err() || h.is_err() {
                proof {
                    lemma_check_stuck(dna@, bvs, (i + 1) as nat, n as nat);
                }
                return Err(ReadError::UnexpectedEof);
            }
        } else if !is_known_tag(tag) {
            return vstd::pervasive::unreached();
        }
        i += 1;
    }
    Ok(())
}

/// Reads a `.blend` file: its header, its blocks up to `ENDB`, and its SDNA
/// catalogue; then checks the mesh data of every `DATA` block against the
/// catalogue.
pub fn parse_blend(bytes: &[u8]) -> (res: Result<Blend, ReadError>)
    requires
        !(blend_at(bytes@) is Panic),
    ensures
        match blend_at(bytes@) {
            Step::Done(v, _) => res matches Ok(blend) && blend@ == v,
            Step::Eof => res is Err,
            Step::Panic => false,
        },
{
    let mut reader = Cursor::new(bytes);
    let b = read_bytes(&mut reader, 12)?;
    if !(b[0] == 0x42 && b[1] == 0x4C && b[2] == 0x45 && b[3] == 0x4E && b[4] == 0x44 && b[5]
        == 0x45 && b[6] == 0x52 && b[7] == 0x2D && b[8] == 0x76) {
        return vstd::pervasive::unreached();
    }
    let mut digits: Vec<u8> = Vec::new();
    digits.push(b[9]);
    digits.push(b[10]);
    digits.push(b[11]);
    assert(digits@ =~= b@.subrange(9, 12));
    let text = match string_from_utf8(digits) {
        Some(t) => t,
        None => return vstd::pervasive::unreached(),
    };
    let version = match parse_usize(text.as_str()) {
        Some(v) => v,
        None => return vstd::pervasive::unreached(),
    };
    if version <= 280 {
        return vstd::pervasive::unreached();
    }
    let (blocks, dna) = read_blocks(&mut reader)?;
    let dna = match dna {
        Some(d) => d,
        None => return vstd::pervasive::unreached(),
    };
    check_blocks(&blocks, &dna)?;
    Ok(Blend { blocks, dna })
}

} // verus!
