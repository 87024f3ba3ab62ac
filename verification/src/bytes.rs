//! Little-endian words and UTF-8 text in byte sequences.
use vstd::prelude::*;
use vstd::utf8::{decode_utf8, encode_utf8, valid_utf8};

verus! {

/// The smallest multiple of `alignment` that is not below `value`.
#[verifier::opaque]
pub open spec fn aligned_up(value: int, alignment: int) -> int {
    (value + alignment - 1) / alignment * alignment
}

/// The four bytes of `v`, least significant first.
pub open spec fn le_bytes(v: u32) -> Seq<u8> {
    seq![
        (v % 0x100) as u8,
        (v / 0x100 % 0x100) as u8,
        (v / 0x1_0000 % 0x100) as u8,
        (v / 0x100_0000) as u8,
    ]
}

/// The word whose four bytes, least significant first, stand at `at` in `s`.
pub open spec fn le_word(s: Seq<u8>, at: int) -> int {
    s[at] + 0x100 * s[at + 1] + 0x1_0000 * s[at + 2] + 0x100_0000 * s[at + 3]
}

/// A word that was laid out by [`le_bytes`] is read back unchanged.
pub proof fn le_word_of_le_bytes(s: Seq<u8>, at: int, v: u32)
    requires
        0 <= at,
        at + 4 <= s.len(),
        s.subrange(at, at + 4) == le_bytes(v),
    ensures
        le_word(s, at) == v,
{
    let b = s.subrange(at, at + 4);
    assert(b[0] == s[at] && b[1] == s[at + 1] && b[2] == s[at + 2] && b[3] == s[at + 3]);
}

/// Appends the four bytes of `v` to `out`, least significant first.
pub fn push_u32_le(out: &mut Vec<u8>, v: u32)
    ensures
        final(out)@ == old(out)@ + le_bytes(v),
{
    out.push((v % 0x100) as u8);
    out.push((v / 0x100 % 0x100) as u8);
    out.push((v / 0x1_0000 % 0x100) as u8);
    out.push((v / 0x100_0000) as u8);
    assert(out@ =~= old(out)@ + le_bytes(v));
}

/// The word whose four bytes, least significant first, stand at `off`.
pub fn read_u32_le(buf: &[u8], off: usize) -> (r: u32)
    requires
        off + 4 <= buf@.len(),
    ensures
        r == le_word(buf@, off as int),
{
    buf[off] as u32 + 0x100 * buf[off + 1] as u32 + 0x1_0000 * buf[off + 2] as u32 + 0x100_0000
        * buf[off + 3] as u32
}

/// What rounding up gives: a multiple of the alignment, less than one alignment above.
pub proof fn lemma_aligned_up(x: int, a: int)
    requires
        a > 0,
    ensures
        x <= aligned_up(x, a) < x + a,
        aligned_up(x, a) % a == 0,
{
    reveal(aligned_up);
    let q = (x + a - 1) / a;
    assert(x + a - 1 == a * q + (x + a - 1) % a) by {
        vstd::arithmetic::div_mod::lemma_fundamental_div_mod(x + a - 1, a);
    }
    assert(0 <= (x + a - 1) % a < a) by {
        vstd::arithmetic::div_mod::lemma_mod_bound(x + a - 1, a);
    }
    assert(q * a == a * q) by (nonlinear_arith);
    assert((q * a) % a == 0) by {
        vstd::arithmetic::div_mod::lemma_mod_multiples_basic(q, a);
    }
}

/// Rounding up gives the least multiple of the alignment that is not below the value, so rounding
/// up twice is the same as rounding up once.
pub proof fn rounding_up_is_least(x: int, a: int, multiple: int)
    requires
        a > 0,
        x <= multiple,
        multiple % a == 0,
    ensures
        aligned_up(x, a) % a == 0,
        x <= aligned_up(x, a) <= multiple,
        aligned_up(aligned_up(x, a), a) == aligned_up(x, a),
{
    lemma_aligned_up(x, a);
    lemma_below_multiple(x, a, multiple);
    lemma_aligned_up(aligned_up(x, a), a);
    lemma_below_multiple(aligned_up(x, a), a, aligned_up(x, a));
}

proof fn lemma_below_multiple(x: int, a: int, multiple: int)
    requires
        a > 0,
        x <= multiple,
        multiple % a == 0,
    ensures
        aligned_up(x, a) <= multiple,
{
    reveal(aligned_up);
    lemma_aligned_up(x, a);
    let q = (x + a - 1) / a;
    let j = multiple / a;
    assert(multiple == a * j) by {
        vstd::arithmetic::div_mod::lemma_fundamental_div_mod(multiple, a);
    }
    assert(q <= j) by (nonlinear_arith)
        requires
            a > 0,
            q * a < x + a,
            x <= a * j,
    ;
    assert(q * a <= a * j) by (nonlinear_arith)
        requires
            a > 0,
            q <= j,
    ;
}

/// What `core::str::Utf8Error` prints for `bytes`, where they are not UTF-8.
pub uninterp spec fn utf8_error_text(bytes: Seq<u8>) -> Seq<char>;

/// `core::str::from_utf8` of the standard library, with both outcomes made into owned text:
/// it succeeds exactly on UTF-8, with the characters that the bytes encode, and otherwise gives
/// an error whose printed text depends on the bytes alone.
#[verifier::external_body]
pub(crate) fn text_from_utf8(bytes: &[u8]) -> (r: Result<String, String>)
    ensures
        match r {
            Ok(s) => valid_utf8(bytes@) && s@ == decode_utf8(bytes@),
            Err(e) => !valid_utf8(bytes@) && e@ == utf8_error_text(bytes@),
        },
{
    match core::str::from_utf8(bytes) {
        Ok(s) => Ok(s.to_string()),
        Err(e) => Err(e.to_string()),
    }
}

/// The bytes of `s` from `from` to `to`, in a vector of their own.
pub fn slice_of(s: &[u8], from: usize, to: usize) -> (r: Vec<u8>)
    requires
        from <= to <= s@.len(),
    ensures
        r@ == s@.subrange(from as int, to as int),
{
    let mut out: Vec<u8> = Vec::new();
    let mut i: usize = from;
    while i < to
        invariant
            from <= i <= to <= s@.len(),
            out@ == s@.subrange(from as int, i as int),
        decreases to - i,
    {
        out.push(s[i]);
        assert(s@.subrange(from as int, i + 1) =~= s@.subrange(from as int, i as int).push(
            s@[i as int],
        ));
        i += 1;
    }
    out
}

/// `s` with `bytes` from `at` on.
pub open spec fn overwritten(s: Seq<u8>, at: int, bytes: Seq<u8>) -> Seq<u8> {
    s.take(at) + bytes + s.skip(at + bytes.len())
}

/// Puts `data` over what lies in `memory` from `at` on.
pub fn overwrite(memory: &mut [u8], at: usize, data: &[u8])
    requires
        at + data@.len() <= old(memory)@.len(),
    ensures
        final(memory)@ == overwritten(old(memory)@, at as int, data@),
{
    let size: usize = memory.len();
    let ghost before = memory@;
    let mut i: usize = 0;
    assert(memory@ =~= overwritten(before, at as int, data@.take(0)));
    while i < data.len()
        invariant
            i <= data@.len(),
            at + data@.len() <= size,
            size == before.len(),
            memory@ == overwritten(before, at as int, data@.take(i as int)),
        decreases data@.len() - i,
    {
        memory[at + i] = data[i];
        assert(memory@ =~= overwritten(before, at as int, data@.take(i + 1)));
        i += 1;
    }
    assert(data@.take(i as int) =~= data@);
}

/// Appends all of `s` to `out`.
pub fn push_all(out: &mut Vec<u8>, s: &[u8])
    ensures
        final(out)@ == old(out)@ + s@,
{
    let ghost start = out@;
    let mut i: usize = 0;
    while i < s.len()
        invariant
            i <= s@.len(),
            out@ == start + s@.take(i as int),
        decreases s@.len() - i,
    {
        out.push(s[i]);
        assert(s@.take(i + 1) =~= s@.take(i as int).push(s@[i as int]));
        assert(out@ =~= start + s@.take(i + 1));
        i += 1;
    }
    assert(s@.take(i as int) =~= s@);
}

/// The bytes of `text`, in a vector of their own.
pub fn bytes_of(text: &str) -> (r: Vec<u8>)
    ensures
        r@ == encode_utf8(text@),
{
    let raw = text.as_bytes();
    let r = slice_of(raw, 0, raw.len());
    assert(r@ =~= raw@);
    r
}

/// A word is written in four bytes, the least significant first, and read by them.
pub proof fn words_are_little_endian(v: u32, s: Seq<u8>, at: int)
    ensures
        le_bytes(v).len() == 4,
        le_bytes(v)[0] + 256 * le_bytes(v)[1] + 65536 * le_bytes(v)[2] + 16777216 * le_bytes(v)[3]
            == v,
        le_word(s, at) == s[at] + 256 * s[at + 1] + 65536 * s[at + 2] + 16777216 * s[at + 3],
{
}

/// Overwriting puts the bytes where they belong and leaves every other byte.
pub proof fn overwriting_touches_its_place(s: Seq<u8>, at: int, bytes: Seq<u8>, i: int)
    requires
        0 <= at,
        at + bytes.len() <= s.len(),
        0 <= i < s.len(),
    ensures
        overwritten(s, at, bytes).len() == s.len(),
        at <= i < at + bytes.len() ==> overwritten(s, at, bytes)[i] == bytes[i - at],
        i < at || at + bytes.len() <= i ==> overwritten(s, at, bytes)[i] == s[i],
{
}

} // verus!
