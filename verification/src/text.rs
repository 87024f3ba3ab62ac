//! Text on characters: scanning, searching and rendering numbers.
//!
//! Strings are handled here as sequences of `char`. The other modules build the messages, path
//! lists and JSON fragments they hand out from these functions.
use vstd::prelude::*;

verus! {

/// `String::push` of the standard library appends one character at the end.
pub assume_specification[ String::push ](s: &mut String, c: char)
    ensures
        final(s)@ == old(s)@.push(c),
;

/// The characters of `s`, in order.
pub fn chars_of(s: &str) -> (r: Vec<char>)
    ensures
        r@ == s@,
{
    let mut out: Vec<char> = Vec::new();
    for c in it: s.chars()
        invariant
            out@ == it.seq().take(it.index()),
            it.seq() == s@,
    {
        out.push(c);
        assert(it.seq().take(it.index() + 1) =~= it.seq().take(it.index()).push(c));
    }
    assert(out@ =~= s@);
    out
}

/// The decimal digit `d`, for `d` below ten.
pub open spec fn digit_char(d: nat) -> char {
    (48 + d) as char
}

/// The digits of `n` in base ten, most significant first, with no leading zero.
pub open spec fn digits(n: nat) -> Seq<char>
    decreases n,
{
    if n < 10 {
        seq![digit_char(n)]
    } else {
        digits(n / 10).push(digit_char(n % 10))
    }
}

/// `i` in base ten, with a leading minus sign when it is negative.
pub open spec fn decimal(i: int) -> Seq<char> {
    if i < 0 {
        seq!['-'] + digits((-i) as nat)
    } else {
        digits(i as nat)
    }
}

fn digit(d: u8) -> (r: char)
    requires
        d < 10,
    ensures
        r == digit_char(d as nat),
{
    (48u8 + d) as char
}

/// Appends `n` in base ten to `out`.
pub fn push_u128(out: &mut String, n: u128)
    ensures
        final(out)@ == old(out)@ + digits(n as nat),
    decreases n,
{
    if n < 10 {
        out.push(digit(n as u8));
    } else {
        push_u128(out, n / 10);
        out.push(digit((n % 10) as u8));
    }
    assert(out@ =~= old(out)@ + digits(n as nat));
}

/// Appends `n` in base ten to `out`.
pub fn push_u64(out: &mut String, n: u64)
    ensures
        final(out)@ == old(out)@ + digits(n as nat),
{
    push_u128(out, n as u128);
}

/// Appends `i` in base ten to `out`.
pub fn push_i64(out: &mut String, i: i64)
    ensures
        final(out)@ == old(out)@ + decimal(i as int),
{
    if i < 0 {
        out.push('-');
        if i == i64::MIN {
            push_u64(out, 0x8000_0000_0000_0000);
        } else {
            push_u64(out, (-i) as u64);
        }
    } else {
        push_u64(out, i as u64);
    }
    assert(out@ =~= old(out)@ + decimal(i as int));
}

/// `i` in base ten.
pub fn i64_text(i: i64) -> (r: String)
    ensures
        r@ == decimal(i as int),
{
    let mut out = String::new();
    push_i64(&mut out, i);
    assert(out@ =~= decimal(i as int));
    out
}

/// `c` with an upper-case ASCII letter made lower case.
pub open spec fn lower_char(c: char) -> char {
    if 65 <= c as int <= 90 {
        (c as int + 32) as char
    } else {
        c
    }
}

/// `s` with its upper-case ASCII letters made lower case.
pub open spec fn lower(s: Seq<char>) -> Seq<char> {
    Seq::new(s.len(), |i: int| lower_char(s[i]))
}

/// Whether `s` ends in `tail`.
pub open spec fn ends_in(s: Seq<char>, tail: Seq<char>) -> bool {
    s.len() >= tail.len() && s.skip(s.len() - tail.len()) == tail
}

/// Whether `needle` occurs in `s`.
pub open spec fn occurs_in(needle: Seq<char>, s: Seq<char>) -> bool {
    exists|i: int|
        0 <= i && i + needle.len() <= s.len() && #[trigger] s.subrange(i, i + needle.len())
            == needle
}

/// The texts in `v`.
pub open spec fn texts(v: Seq<String>) -> Seq<Seq<char>> {
    Seq::new(v.len(), |i: int| v[i]@)
}

/// The first `n` of `parts`, with `sep` between any two.
pub open spec fn joined(parts: Seq<Seq<char>>, sep: Seq<char>, n: int) -> Seq<char>
    decreases n,
{
    if n <= 0 {
        Seq::empty()
    } else if n == 1 {
        parts[0]
    } else {
        joined(parts, sep, n - 1) + sep + parts[n - 1]
    }
}

/// `c` with an upper-case ASCII letter made lower case.
pub fn char_lower(c: char) -> (r: char)
    ensures
        r == lower_char(c),
{
    let n: u32 = c as u32;
    if 65 <= n && n <= 90 {
        (n as u8 + 32) as char
    } else {
        c
    }
}

/// The characters of `s` with upper-case ASCII letters made lower case.
pub fn lower_chars(s: &str) -> (r: Vec<char>)
    ensures
        r@ == lower(s@),
{
    let chars = chars_of(s);
    let mut out: Vec<char> = Vec::new();
    let mut i: usize = 0;
    while i < chars.len()
        invariant
            i <= chars@.len(),
            out@.len() == i,
            forall|j: int| 0 <= j < i ==> #[trigger] out@[j] == lower_char(chars@[j]),
        decreases chars@.len() - i,
    {
        out.push(char_lower(chars[i]));
        i += 1;
    }
    assert(out@ =~= lower(s@));
    out
}

/// Whether `needle` stands at `at` in `s`.
pub fn stands_at(s: &[char], at: usize, needle: &[char]) -> (r: bool)
    requires
        at <= s@.len(),
    ensures
        r == (at + needle@.len() <= s@.len() && s@.subrange(at as int, at + needle@.len())
            == needle@),
{
    if s.len() - at < needle.len() {
        return false;
    }
    let len: usize = s.len();
    let mut i: usize = 0;
    while i < needle.len()
        invariant
            i <= needle@.len(),
            len == s@.len(),
            at + needle@.len() <= len,
            forall|j: int| 0 <= j < i ==> s@[at + j] == #[trigger] needle@[j],
        decreases needle@.len() - i,
    {
        if s[at + i] != needle[i] {
            assert(s@.subrange(at as int, at + needle@.len())[i as int] != needle@[i as int]);
            return false;
        }
        i += 1;
    }
    assert(s@.subrange(at as int, at + needle@.len()) =~= needle@);
    true
}

/// Whether two character sequences are the same.
pub fn same_chars(a: &[char], b: &[char]) -> (r: bool)
    ensures
        r == (a@ == b@),
{
    if a.len() != b.len() {
        return false;
    }
    let r = stands_at(a, 0, b);
    assert(a@.subrange(0, a@.len() as int) =~= a@);
    r
}

/// Whether two texts are the same.
pub fn same_text(a: &str, b: &str) -> (r: bool)
    ensures
        r == (a@ == b@),
{
    same_chars(&chars_of(a), &chars_of(b))
}

/// Whether `s` ends in `tail`.
pub fn chars_end_in(s: &[char], tail: &[char]) -> (r: bool)
    ensures
        r == ends_in(s@, tail@),
{
    if s.len() < tail.len() {
        return false;
    }
    let at: usize = s.len() - tail.len();
    assert(s@.skip(at as int) =~= s@.subrange(at as int, at + tail@.len()));
    stands_at(s, at, tail)
}

/// Whether `needle` occurs in `s`.
pub fn chars_occur(needle: &[char], s: &[char]) -> (r: bool)
    ensures
        r == occurs_in(needle@, s@),
{
    if s.len() < needle.len() {
        return false;
    }
    let last: usize = s.len() - needle.len();
    let mut i: usize = 0;
    loop
        invariant
            i <= last,
            last + needle@.len() == s@.len(),
            forall|j: int|
                0 <= j < i ==> #[trigger] s@.subrange(j, j + needle@.len()) != needle@,
        decreases last - i,
    {
        if stands_at(s, i, needle) {
            return true;
        }
        if i == last {
            return false;
        }
        i += 1;
    }
}

/// All of `parts`, with `sep` between any two.
pub fn join(parts: &Vec<String>, sep: &str) -> (r: String)
    ensures
        r@ == joined(texts(parts@), sep@, parts@.len() as int),
{
    let ghost all = texts(parts@);
    let mut out = String::new();
    let mut i: usize = 0;
    while i < parts.len()
        invariant
            i <= parts@.len(),
            all == texts(parts@),
            out@ == joined(all, sep@, i as int),
        decreases parts@.len() - i,
    {
        let ghost before = out@;
        if i > 0 {
            out.append(sep);
        }
        out.append(&parts[i]);
        assert(all[i as int] == parts@[i as int]@);
        assert(out@ =~= joined(all, sep@, i + 1));
        i += 1;
    }
    out
}

/// Whether `c` is a decimal digit.
pub open spec fn is_digit(c: char) -> bool {
    48 <= c as int <= 57
}

/// The value of a decimal digit.
pub fn digit_value(c: char) -> (r: Option<u64>)
    ensures
        r == (if is_digit(c) {
            Some((c as int - 48) as u64)
        } else {
            None
        }),
{
    let n: u32 = c as u32;
    if 48 <= n && n <= 57 {
        Some((n - 48) as u64)
    } else {
        None
    }
}

/// Why a text is no integer.
#[derive(Debug, Clone, Copy, PartialEq, Eq, Structural)]
pub enum NumberFault {
    Empty,
    InvalidDigit,
    TooLarge,
    TooSmall,
}

/// What is said of a text that is no integer.
pub open spec fn fault_text(f: NumberFault) -> Seq<char> {
    match f {
        NumberFault::Empty => "cannot parse integer from empty string"@,
        NumberFault::InvalidDigit => "invalid digit found in string"@,
        NumberFault::TooLarge => "number too large to fit in target type"@,
        NumberFault::TooSmall => "number too small to fit in target type"@,
    }
}

/// What is said of a text that is no integer.
pub fn fault_message(f: NumberFault) -> (r: String)
    ensures
        r@ == fault_text(f),
{
    match f {
        NumberFault::Empty => "cannot parse integer from empty string".to_owned(),
        NumberFault::InvalidDigit => "invalid digit found in string".to_owned(),
        NumberFault::TooLarge => "number too large to fit in target type".to_owned(),
        NumberFault::TooSmall => "number too small to fit in target type".to_owned(),
    }
}

/// The 64-bit integer that the first `n` characters of `d` write, behind a minus sign where
/// `negative`, or the first fault in them.
pub open spec fn signed_prefix(d: Seq<char>, n: int, negative: bool) -> Result<int, NumberFault>
    decreases n,
{
    if n <= 0 {
        Ok(0)
    } else {
        match signed_prefix(d, n - 1, negative) {
            Err(f) => Err(f),
            Ok(v) => {
                let w = if negative {
                    v * 10 - (d[n - 1] as int - 48)
                } else {
                    v * 10 + (d[n - 1] as int - 48)
                };
                if !is_digit(d[n - 1]) {
                    Err(NumberFault::InvalidDigit)
                } else if w > i64::MAX {
                    Err(NumberFault::TooLarge)
                } else if w < i64::MIN {
                    Err(NumberFault::TooSmall)
                } else {
                    Ok(w)
                }
            },
        }
    }
}

/// The 64-bit integer that `s` writes, or why it writes none.
pub open spec fn signed_number(s: Seq<char>) -> Result<int, NumberFault> {
    if s.len() == 0 {
        Err(NumberFault::Empty)
    } else if s.len() == 1 && (s[0] == '+' || s[0] == '-') {
        Err(NumberFault::InvalidDigit)
    } else if s[0] == '+' {
        signed_prefix(s.skip(1), s.len() - 1, false)
    } else if s[0] == '-' {
        signed_prefix(s.skip(1), s.len() - 1, true)
    } else {
        signed_prefix(s, s.len() as int, false)
    }
}

proof fn lemma_fault_stays(d: Seq<char>, a: int, b: int, negative: bool)
    requires
        0 <= a <= b,
        signed_prefix(d, a, negative) is Err,
    ensures
        signed_prefix(d, b, negative) == signed_prefix(d, a, negative),
    decreases b - a,
{
    if a < b {
        lemma_fault_stays(d, a, b - 1, negative);
    }
}

/// The 64-bit integer that `s` writes, or why it writes none.
pub fn parse_i64(s: &str) -> (r: Result<i64, NumberFault>)
    ensures
        match r {
            Ok(v) => signed_number(s@) == Ok::<int, NumberFault>(v as int),
            Err(f) => signed_number(s@) == Err::<int, NumberFault>(f),
        },
{
    let chars = chars_of(s);
    if chars.len() == 0 {
        return Err(NumberFault::Empty);
    }
    let first = chars[0];
    let signed = first == '+' || first == '-';
    if signed && chars.len() == 1 {
        return Err(NumberFault::InvalidDigit);
    }
    let negative = first == '-';
    let start: usize = if signed {
        1
    } else {
        0
    };
    let ghost d = s@.skip(start as int);
    let ghost n = d.len() as int;
    assert(s@.skip(0) =~= s@);
    let mut v: i64 = 0;
    let mut i: usize = start;
    while i < chars.len()
        invariant
            start <= i <= chars@.len(),
            chars@ == s@,
            d == s@.skip(start as int),
            n == d.len(),
            signed_number(s@) == signed_prefix(d, n, negative),
            signed_prefix(d, i - start, negative) == Ok::<int, NumberFault>(v as int),
        decreases chars@.len() - i,
    {
        let c = chars[i];
        assert(d[i - start] == c);
        proof {
            if signed_prefix(d, i + 1 - start, negative) is Err {
                lemma_fault_stays(d, i + 1 - start, n, negative);
            }
        }
        let x: i128 = match digit_value(c) {
            Some(x) => x as i128,
            None => return Err(NumberFault::InvalidDigit),
        };
        let w: i128 = if negative {
            v as i128 * 10 - x
        } else {
            v as i128 * 10 + x
        };
        if w > i64::MAX as i128 {
            return Err(NumberFault::TooLarge);
        }
        if w < i64::MIN as i128 {
            return Err(NumberFault::TooSmall);
        }
        v = w as i64;
        i += 1;
    }
    Ok(v)
}

proof fn lemma_digits_read_back(n: nat, negative: bool)
    requires
        if negative {
            -(n as int) >= i64::MIN
        } else {
            n <= i64::MAX
        },
    ensures
        signed_prefix(digits(n), digits(n).len() as int, negative) == Ok::<int, NumberFault>(
            if negative {
                -(n as int)
            } else {
                n as int
            },
        ),
        digits(n).len() > 0,
        forall|i: int| 0 <= i < digits(n).len() ==> is_digit(#[trigger] digits(n)[i]),
    decreases n,
{
    if n < 10 {
        reveal_with_fuel(signed_prefix, 2);
        assert(digits(n)[0] == digit_char(n));
    } else {
        let head = digits(n / 10);
        lemma_digits_read_back(n / 10, negative);
        let whole = digits(n);
        assert(whole == head.push(digit_char(n % 10)));
        assert(whole[whole.len() - 1] == digit_char(n % 10));
        lemma_same_prefix(whole, head, head.len() as int, negative);
        assert forall|i: int| 0 <= i < whole.len() implies is_digit(#[trigger] whole[i]) by {
            if i < head.len() {
                assert(whole[i] == head[i]);
            }
        }
    }
}

proof fn lemma_same_prefix(a: Seq<char>, b: Seq<char>, n: int, negative: bool)
    requires
        n <= a.len(),
        n <= b.len(),
        forall|i: int| 0 <= i < n ==> a[i] == b[i],
    ensures
        signed_prefix(a, n, negative) == signed_prefix(b, n, negative),
    decreases n,
{
    if n > 0 {
        lemma_same_prefix(a, b, n - 1, negative);
        assert(a[n - 1] == b[n - 1]);
    }
}

/// A 64-bit integer that was written in base ten is read back.
pub proof fn decimal_reads_back(v: i64)
    ensures
        signed_number(decimal(v as int)) == Ok::<int, NumberFault>(v as int),
{
    let s = decimal(v as int);
    if v < 0 {
        lemma_digits_read_back((-v) as nat, true);
        assert(s.skip(1) =~= digits((-v) as nat));
        assert(s[0] == '-');
    } else {
        lemma_digits_read_back(v as nat, false);
        assert(is_digit(s[0]));
    }
}

/// Whether `c` is white space.
pub open spec fn is_space(c: char) -> bool {
    let n = c as int;
    ||| 9 <= n <= 13
    ||| n == 32
    ||| n == 0x85
    ||| n == 0xA0
    ||| n == 0x1680
    ||| 0x2000 <= n <= 0x200A
    ||| n == 0x2028
    ||| n == 0x2029
    ||| n == 0x202F
    ||| n == 0x205F
    ||| n == 0x3000
}

/// `s` without the white space at its start.
pub open spec fn trimmed_start(s: Seq<char>) -> Seq<char>
    decreases s.len(),
{
    if s.len() > 0 && is_space(s[0]) {
        trimmed_start(s.skip(1))
    } else {
        s
    }
}

/// `s` without the white space at its end.
pub open spec fn trimmed_end(s: Seq<char>) -> Seq<char>
    decreases s.len(),
{
    if s.len() > 0 && is_space(s.last()) {
        trimmed_end(s.drop_last())
    } else {
        s
    }
}

/// `s` without the white space at its ends.
pub open spec fn trimmed(s: Seq<char>) -> Seq<char> {
    trimmed_end(trimmed_start(s))
}

fn is_white(c: char) -> (r: bool)
    ensures
        r == is_space(c),
{
    let n: u32 = c as u32;
    (9 <= n && n <= 13) || n == 32 || n == 0x85 || n == 0xA0 || n == 0x1680 || (0x2000 <= n && n
        <= 0x200A) || n == 0x2028 || n == 0x2029 || n == 0x202F || n == 0x205F || n == 0x3000
}

proof fn lemma_trim_start(s: Seq<char>, k: int)
    requires
        0 <= k <= s.len(),
        forall|i: int| 0 <= i < k ==> is_space(#[trigger] s[i]),
    ensures
        trimmed_start(s) == trimmed_start(s.skip(k)),
    decreases k,
{
    if k > 0 {
        assert(is_space(s[0]));
        assert forall|i: int| 0 <= i < k - 1 implies is_space(#[trigger] s.skip(1)[i]) by {
            assert(s.skip(1)[i] == s[i + 1]);
        }
        lemma_trim_start(s.skip(1), k - 1);
        assert(s.skip(1).skip(k - 1) =~= s.skip(k));
    } else {
        assert(s.skip(0) =~= s);
    }
}

proof fn lemma_trim_end(s: Seq<char>, k: int)
    requires
        0 <= k <= s.len(),
        forall|i: int| k <= i < s.len() ==> is_space(#[trigger] s[i]),
    ensures
        trimmed_end(s) == trimmed_end(s.take(k)),
    decreases s.len() - k,
{
    if k < s.len() {
        assert(is_space(s[s.len() - 1]));
        assert forall|i: int| k <= i < s.drop_last().len() implies is_space(
            #[trigger] s.drop_last()[i],
        ) by {
            assert(s.drop_last()[i] == s[i]);
        }
        lemma_trim_end(s.drop_last(), k);
        assert(s.drop_last().take(k) =~= s.take(k));
    } else {
        assert(s.take(k) =~= s);
    }
}

/// Where the part of `chars` between `from` and `to` begins and ends without white space.
pub fn trim_range(chars: &Vec<char>, from: usize, to: usize) -> (r: (usize, usize))
    requires
        from <= to <= chars@.len(),
    ensures
        from <= r.0 <= r.1 <= to,
        chars@.subrange(r.0 as int, r.1 as int) == trimmed(
            chars@.subrange(from as int, to as int),
        ),
{
    let ghost whole = chars@.subrange(from as int, to as int);
    let mut a: usize = from;
    while a < to && is_white(chars[a])
        invariant
            from <= a <= to <= chars@.len(),
            whole == chars@.subrange(from as int, to as int),
            forall|i: int| 0 <= i < a - from ==> is_space(#[trigger] whole[i]),
        decreases to - a,
    {
        assert(whole[a - from] == chars@[a as int]);
        a += 1;
    }
    proof {
        lemma_trim_start(whole, a - from);
        assert(whole.skip(a - from) =~= chars@.subrange(a as int, to as int));
        if a < to {
            assert(whole.skip(a - from)[0] == chars@[a as int]);
        }
    }
    let ghost rest = chars@.subrange(a as int, to as int);
    assert(trimmed_start(whole) == rest);
    let mut b: usize = to;
    while b > a && is_white(chars[b - 1])
        invariant
            a <= b <= to <= chars@.len(),
            rest == chars@.subrange(a as int, to as int),
            forall|i: int| b - a <= i < rest.len() ==> is_space(#[trigger] rest[i]),
        decreases b - a,
    {
        assert(rest[b - 1 - a] == chars@[b - 1]);
        b -= 1;
    }
    proof {
        lemma_trim_end(rest, b - a);
        assert(rest.take(b - a) =~= chars@.subrange(a as int, b as int));
        if b > a {
            assert(rest.take(b - a).last() == chars@[b - 1]);
        }
    }
    (a, b)
}

/// `s` without the white space at its ends.
pub fn trim_text(s: &str) -> (r: String)
    ensures
        r@ == trimmed(s@),
{
    let chars = chars_of(s);
    assert(chars@.subrange(0, chars@.len() as int) =~= s@);
    let (a, b) = trim_range(&chars, 0, chars.len());
    text_part(&chars, a, b)
}

/// The text of the characters between `from` and `to`.
pub fn text_part(chars: &Vec<char>, from: usize, to: usize) -> (r: String)
    requires
        from <= to <= chars@.len(),
    ensures
        r@ == chars@.subrange(from as int, to as int),
{
    let mut out = String::new();
    let mut i: usize = from;
    assert(out@ =~= chars@.subrange(from as int, from as int));
    while i < to
        invariant
            from <= i <= to <= chars@.len(),
            out@ == chars@.subrange(from as int, i as int),
        decreases to - i,
    {
        out.push(chars[i]);
        assert(out@ =~= chars@.subrange(from as int, i + 1));
        i += 1;
    }
    out
}

/// Where the next separator stands in `s`, from `at` on; its length where there is none.
pub open spec fn next_separator(s: Seq<char>, sep: char, at: int) -> int
    decreases s.len() - at,
{
    if at < 0 || at >= s.len() {
        s.len() as int
    } else if s[at] == sep {
        at
    } else {
        next_separator(s, sep, at + 1)
    }
}

/// The pieces of `s` from `at` on, between separators: one more than there are separators.
pub open spec fn pieces(s: Seq<char>, sep: char, at: int) -> Seq<Seq<char>>
    decreases s.len() - at,
    via pieces_end
{
    if at < 0 || at > s.len() {
        Seq::empty()
    } else {
        let end = next_separator(s, sep, at);
        if end >= s.len() {
            seq![s.subrange(at, s.len() as int)]
        } else {
            seq![s.subrange(at, end)] + pieces(s, sep, end + 1)
        }
    }
}

#[via_fn]
proof fn pieces_end(s: Seq<char>, sep: char, at: int) {
    if 0 <= at <= s.len() {
        lemma_next_separator(s, sep, at);
    }
}

proof fn lemma_next_separator(s: Seq<char>, sep: char, at: int)
    requires
        0 <= at <= s.len(),
    ensures
        at <= next_separator(s, sep, at) <= s.len(),
        next_separator(s, sep, at) < s.len() ==> s[next_separator(s, sep, at)] == sep,
        forall|i: int| at <= i < next_separator(s, sep, at) ==> s[i] != sep,
    decreases s.len() - at,
{
    if at < s.len() && s[at] != sep {
        lemma_next_separator(s, sep, at + 1);
    }
}

proof fn lemma_separator_is_next(s: Seq<char>, sep: char, at: int, end: int)
    requires
        0 <= at <= end <= s.len(),
        end < s.len() ==> s[end] == sep,
        forall|i: int| at <= i < end ==> s[i] != sep,
    ensures
        next_separator(s, sep, at) == end,
    decreases end - at,
{
    if at < end {
        lemma_separator_is_next(s, sep, at + 1, end);
    }
}

proof fn lemma_last_piece(a: Seq<char>, sep: char, b: Seq<char>, at: int)
    requires
        0 <= at <= a.len(),
        !b.contains(sep),
    ensures
        pieces(a + seq![sep] + b, sep, at) == pieces(a, sep, at).push(b),
    decreases a.len() - at,
{
    let w = a + seq![sep] + b;
    let end = next_separator(a, sep, at);
    lemma_next_separator(a, sep, at);
    assert forall|i: int| 0 <= i < a.len() implies w[i] == a[i] by {}
    lemma_separator_is_next(w, sep, at, end);
    assert(w.subrange(at, end) =~= a.subrange(at, end));
    if end < a.len() {
        lemma_last_piece(a, sep, b, end + 1);
        assert(pieces(w, sep, at) =~= pieces(a, sep, at).push(b));
    } else {
        assert forall|i: int| end + 1 <= i < w.len() implies w[i] != sep by {
            assert(b.contains(b[i - a.len() - 1]));
        }
        lemma_separator_is_next(w, sep, end + 1, w.len() as int);
        assert(w.subrange(end + 1, w.len() as int) =~= b);
        assert(pieces(w, sep, end + 1) =~= seq![b]);
        assert(pieces(w, sep, at) =~= pieces(a, sep, at).push(b));
    }
}

/// Texts that are joined with a separator which none of them holds are what the whole falls into
/// at that separator.
pub proof fn pieces_undo_joining(parts: Seq<Seq<char>>, sep: char, n: int)
    requires
        1 <= n <= parts.len(),
        forall|i: int| 0 <= i < n ==> !(#[trigger] parts[i]).contains(sep),
    ensures
        pieces(joined(parts, seq![sep], n), sep, 0) == parts.take(n),
    decreases n,
{
    if n == 1 {
        let s = parts[0];
        assert forall|i: int| 0 <= i < s.len() implies s[i] != sep by {
            assert(s.contains(s[i]));
        }
        lemma_separator_is_next(s, sep, 0, s.len() as int);
        assert(s.subrange(0, s.len() as int) =~= s);
        assert(pieces(s, sep, 0) =~= parts.take(1));
    } else {
        pieces_undo_joining(parts, sep, n - 1);
        lemma_last_piece(joined(parts, seq![sep], n - 1), sep, parts[n - 1], 0);
        assert(parts.take(n - 1).push(parts[n - 1]) =~= parts.take(n));
    }
}

/// A text without white space has nothing to trim.
pub proof fn lemma_nothing_to_trim(s: Seq<char>)
    requires
        forall|i: int| 0 <= i < s.len() ==> !is_space(#[trigger] s[i]),
    ensures
        trimmed(s) == s,
{
}

proof fn lemma_trimmed_start(s: Seq<char>)
    ensures
        exists|k: int|
            0 <= k <= s.len() && #[trigger] s.skip(k) == trimmed_start(s) && (forall|i: int|
                0 <= i < k ==> is_space(#[trigger] s[i])) && (k < s.len() ==> !is_space(s[k])),
    decreases s.len(),
{
    if s.len() > 0 && is_space(s[0]) {
        lemma_trimmed_start(s.skip(1));
        let t = s.skip(1);
        let k = choose|k: int|
            0 <= k <= t.len() && #[trigger] t.skip(k) == trimmed_start(t) && (forall|i: int|
                0 <= i < k ==> is_space(#[trigger] t[i])) && (k < t.len() ==> !is_space(t[k]));
        assert(s.skip(k + 1) =~= t.skip(k));
        assert forall|i: int| 0 <= i < k + 1 implies is_space(#[trigger] s[i]) by {
            if i > 0 {
                assert(s[i] == t[i - 1]);
            }
        }
    } else {
        assert(s.skip(0) =~= s);
    }
}

proof fn lemma_trimmed_end(s: Seq<char>)
    ensures
        exists|k: int|
            0 <= k <= s.len() && #[trigger] s.take(k) == trimmed_end(s) && (forall|i: int|
                k <= i < s.len() ==> is_space(#[trigger] s[i])) && (k > 0 ==> !is_space(s[k - 1])),
    decreases s.len(),
{
    if s.len() > 0 && is_space(s.last()) {
        let t = s.drop_last();
        lemma_trimmed_end(t);
        let k = choose|k: int|
            0 <= k <= t.len() && #[trigger] t.take(k) == trimmed_end(t) && (forall|i: int|
                k <= i < t.len() ==> is_space(#[trigger] t[i])) && (k > 0 ==> !is_space(t[k - 1]));
        assert(s.take(k) =~= t.take(k));
        assert forall|i: int| k <= i < s.len() implies is_space(#[trigger] s[i]) by {
            if i < t.len() {
                assert(s[i] == t[i]);
            }
        }
    } else {
        assert(s.take(s.len() as int) =~= s);
    }
}

/// Trimming takes white space off both ends and nothing else: what is left stands in the text between
/// white space, and neither begins nor ends with it.
pub proof fn trimming_takes_off_white_space(s: Seq<char>)
    ensures
        exists|a: int, b: int|
            0 <= a <= b <= s.len() && #[trigger] s.subrange(a, b) == trimmed(s) && (forall|i: int|
                0 <= i < s.len() && (i < a || b <= i) ==> is_space(#[trigger] s[i])),
        trimmed(s).len() > 0 ==> !is_space(trimmed(s)[0]) && !is_space(trimmed(s).last()),
{
    lemma_trimmed_start(s);
    let t = trimmed_start(s);
    lemma_trimmed_end(t);
    let a = choose|k: int|
        0 <= k <= s.len() && #[trigger] s.skip(k) == trimmed_start(s) && (forall|i: int|
            0 <= i < k ==> is_space(#[trigger] s[i])) && (k < s.len() ==> !is_space(s[k]));
    let n = choose|k: int|
        0 <= k <= t.len() && #[trigger] t.take(k) == trimmed_end(t) && (forall|i: int|
            k <= i < t.len() ==> is_space(#[trigger] t[i])) && (k > 0 ==> !is_space(t[k - 1]));
    assert(s.subrange(a, a + n) =~= t.take(n));
    assert forall|i: int| 0 <= i < s.len() && (i < a || a + n <= i) implies is_space(
        #[trigger] s[i],
    ) by {
        if i >= a + n {
            assert(s[i] == t[i - a]);
        }
    }
    assert(s.subrange(a, a + n) == trimmed(s));
}

/// Space, tab, line feed, carriage return and the other blanks of Unicode are white space; letters,
/// digits and the signs of ASCII are not.
pub proof fn white_space_is_blank(c: char)
    ensures
        c as int == 32 || c as int == 9 || c as int == 10 || c as int == 13 ==> is_space(c),
        33 <= c as int <= 126 ==> !is_space(c),
        is_digit(c) <==> 48 <= c as int <= 57,
{
}

/// Lower case changes the letters from `A` to `Z` alone, each to its own.
pub proof fn lower_case_changes_capitals(s: Seq<char>, i: int)
    requires
        0 <= i < s.len(),
    ensures
        lower(s).len() == s.len(),
        65 <= s[i] as int <= 90 ==> lower(s)[i] as int == s[i] as int + 32,
        !(65 <= s[i] as int <= 90) ==> lower(s)[i] == s[i],
{
}

/// A number is written with its last digit behind the digits of its tenth, and a sign only where it is
/// below zero.
pub proof fn decimal_is_positional(n: int)
    ensures
        0 <= n < 10 ==> decimal(n).len() == 1 && decimal(n)[0] as int == 48 + n,
        n >= 10 ==> decimal(n) == decimal(n / 10).push(decimal(n % 10)[0]),
        n < 0 ==> decimal(n) == seq!['-'] + decimal(-n),
{
}

/// What stands between two texts occurs in the whole, and nothing longer than a text occurs in it.
pub proof fn parts_occur_in_the_whole(a: Seq<char>, needle: Seq<char>, b: Seq<char>)
    ensures
        occurs_in(needle, a + needle + b),
        a.len() < needle.len() ==> !occurs_in(needle, a),
{
    let whole = a + needle + b;
    let at = a.len() as int;
    assert(whole.subrange(at, at + needle.len()) =~= needle);
}

} // verus!
