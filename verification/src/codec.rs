//! Bytes as text: base64, hexadecimal and lossy UTF-8.
use base64::engine::general_purpose::STANDARD;
use base64::Engine as _;
use vstd::prelude::*;
use vstd::utf8::{decode_utf8, encode_utf8, valid_utf8};

verus! {

/// The character of the standard base64 alphabet for the six bits `v`.
pub open spec fn base64_char(v: int) -> char {
    if v < 26 {
        (65 + v) as char
    } else if v < 52 {
        (97 + v - 26) as char
    } else if v < 62 {
        (48 + v - 52) as char
    } else if v == 62 {
        '+'
    } else {
        '/'
    }
}

/// The four characters for the first three bytes of `b`, with padding in place of those that
/// missing bytes would fill.
pub open spec fn base64_group(b: Seq<u8>) -> Seq<char> {
    let b0 = b[0] as int;
    let b1 = if b.len() > 1 {
        b[1] as int
    } else {
        0
    };
    let b2 = if b.len() > 2 {
        b[2] as int
    } else {
        0
    };
    seq![
        base64_char(b0 / 4),
        base64_char(b0 % 4 * 16 + b1 / 16),
        if b.len() > 1 {
            base64_char(b1 % 16 * 4 + b2 / 64)
        } else {
            '='
        },
        if b.len() > 2 {
            base64_char(b2 % 64)
        } else {
            '='
        },
    ]
}

/// `b` in base64, with the standard alphabet and padding.
pub open spec fn base64_of(b: Seq<u8>) -> Seq<char>
    decreases b.len(),
{
    if b.len() == 0 {
        Seq::empty()
    } else if b.len() <= 3 {
        base64_group(b)
    } else {
        base64_group(b) + base64_of(b.skip(3))
    }
}

/// The bytes whose base64 form is `text`, if there are any.
pub open spec fn base64_bytes(text: Seq<char>) -> Option<Seq<u8>> {
    if exists|b: Seq<u8>| #[trigger] base64_of(b) == text {
        Some(choose|b: Seq<u8>| #[trigger] base64_of(b) == text)
    } else {
        None
    }
}

/// Whether `bytes` is the base64 form of `b`, as ASCII.
pub open spec fn is_base64_of(bytes: Seq<u8>, b: Seq<u8>) -> bool {
    bytes == encode_utf8(base64_of(b))
}

/// What `base64::DecodeError` prints for `bytes`, where they are no base64.
pub uninterp spec fn base64_error_text(bytes: Seq<u8>) -> Seq<char>;

/// `Engine::encode` of the `base64` crate's `STANDARD` engine.
#[verifier::external_body]
pub(crate) fn base64_encode(bytes: &[u8]) -> (r: String)
    ensures
        r@ == base64_of(bytes@),
{
    STANDARD.encode(bytes)
}

/// `Engine::decode` of the `base64` crate's `STANDARD` engine, with the error made into the text
/// that it prints. The engine takes exactly what it writes: it refuses missing and surplus
/// padding as well as bits set behind the last byte.
#[verifier::external_body]
pub(crate) fn base64_decode_bytes(bytes: &[u8]) -> (r: Result<Vec<u8>, String>)
    ensures
        match r {
            Ok(b) => is_base64_of(bytes@, b@),
            Err(e) => (forall|b: Seq<u8>| !#[trigger] is_base64_of(bytes@, b)) && e@
                == base64_error_text(bytes@),
        },
{
    match STANDARD.decode(bytes) {
        Ok(b) => Ok(b),
        Err(e) => Err(e.to_string()),
    }
}

/// The bytes whose base64 form is `text`, or what is wrong with it.
pub fn base64_decode(text: &str) -> (r: Result<Vec<u8>, String>)
    ensures
        match r {
            Ok(b) => base64_bytes(text@) == Some(b@),
            Err(e) => base64_bytes(text@) is None && e@ == base64_error_text(encode_utf8(text@)),
        },
{
    let r = base64_decode_bytes(text.as_bytes());
    proof {
        vstd::utf8::encode_utf8_decode_utf8(text@);
        match &r {
            Ok(b) => {
                vstd::utf8::encode_utf8_decode_utf8(base64_of(b@));
                base64_round_trip(b@);
            },
            Err(_) => {
                assert forall|b: Seq<u8>| #[trigger] base64_of(b) != text@ by {
                    assert(!is_base64_of(encode_utf8(text@), b));
                }
            },
        }
    }
    r
}

proof fn lemma_base64_char_injective(v: int, w: int)
    requires
        0 <= v < 64,
        0 <= w < 64,
        base64_char(v) == base64_char(w),
    ensures
        v == w,
{
}

proof fn lemma_base64_char_no_padding(v: int)
    requires
        0 <= v < 64,
    ensures
        base64_char(v) != '=',
{
}

proof fn lemma_base64_group_injective(a: Seq<u8>, b: Seq<u8>)
    requires
        a.len() > 0,
        b.len() > 0,
        base64_group(a) == base64_group(b),
    ensures
        a.len() < 3 || b.len() < 3 ==> a.len() == b.len(),
        a.take(if a.len() < 3 {
            a.len() as int
        } else {
            3
        }) == b.take(if b.len() < 3 {
            b.len() as int
        } else {
            3
        }),
{
    let ga = base64_group(a);
    let gb = base64_group(b);
    let a0 = a[0] as int;
    let b0 = b[0] as int;
    let a1 = if a.len() > 1 {
        a[1] as int
    } else {
        0
    };
    let b1 = if b.len() > 1 {
        b[1] as int
    } else {
        0
    };
    let a2 = if a.len() > 2 {
        a[2] as int
    } else {
        0
    };
    let b2 = if b.len() > 2 {
        b[2] as int
    } else {
        0
    };
    assert(ga[0] == gb[0] && ga[1] == gb[1] && ga[2] == gb[2] && ga[3] == gb[3]);
    lemma_base64_char_injective(a0 / 4, b0 / 4);
    lemma_base64_char_injective(a0 % 4 * 16 + a1 / 16, b0 % 4 * 16 + b1 / 16);
    lemma_base64_char_no_padding(a1 % 16 * 4 + a2 / 64);
    lemma_base64_char_no_padding(b1 % 16 * 4 + b2 / 64);
    lemma_base64_char_no_padding(a2 % 64);
    lemma_base64_char_no_padding(b2 % 64);
    assert(a0 == b0);
    if a.len() > 1 {
        lemma_base64_char_injective(a1 % 16 * 4 + a2 / 64, b1 % 16 * 4 + b2 / 64);
    }
    if a.len() > 2 {
        lemma_base64_char_injective(a2 % 64, b2 % 64);
    }
    assert(a1 == b1);
    assert(a2 == b2);
    let na = if a.len() < 3 {
        a.len() as int
    } else {
        3
    };
    let nb = if b.len() < 3 {
        b.len() as int
    } else {
        3
    };
    assert(na == nb);
    assert(a.take(na) =~= b.take(nb));
}

proof fn lemma_base64_len(b: Seq<u8>)
    ensures
        base64_of(b).len() >= 4 <==> b.len() > 0,
        base64_of(b).len() >= 8 <==> b.len() > 3,
        base64_of(b).len() == 0 <==> b.len() == 0,
        base64_of(b).len() == (b.len() + 2) / 3 * 4,
    decreases b.len(),
{
    if b.len() > 3 {
        lemma_base64_len(b.skip(3));
    }
}

proof fn lemma_base64_injective(a: Seq<u8>, b: Seq<u8>)
    requires
        base64_of(a) == base64_of(b),
    ensures
        a == b,
    decreases a.len(),
{
    lemma_base64_len(a);
    lemma_base64_len(b);
    if a.len() == 0 {
        assert(a =~= b);
    } else if a.len() <= 3 {
        lemma_base64_group_injective(a, b);
        assert(a =~= a.take(a.len() as int));
        assert(b =~= b.take(b.len() as int));
    } else {
        let ga = base64_group(a);
        let gb = base64_group(b);
        assert(base64_of(a) == ga + base64_of(a.skip(3)));
        assert(base64_of(b) == gb + base64_of(b.skip(3)));
        assert(base64_of(a).take(4) =~= ga);
        assert(base64_of(b).take(4) =~= gb);
        assert(base64_of(a).skip(4) =~= base64_of(a.skip(3)));
        assert(base64_of(b).skip(4) =~= base64_of(b.skip(3)));
        lemma_base64_group_injective(a, b);
        lemma_base64_injective(a.skip(3), b.skip(3));
        assert(a =~= a.take(3) + a.skip(3));
        assert(b =~= b.take(3) + b.skip(3));
    }
}

/// Decoding a base64 form gives back the bytes that it stands for.
pub proof fn base64_round_trip(b: Seq<u8>)
    ensures
        base64_bytes(base64_of(b)) == Some(b),
{
    let c = choose|c: Seq<u8>| #[trigger] base64_of(c) == base64_of(b);
    assert(base64_of(c) == base64_of(b));
    lemma_base64_injective(c, b);
}

/// The hexadecimal digit `v`, in lower case.
pub open spec fn hex_char(v: int) -> char {
    if v < 10 {
        (48 + v) as char
    } else {
        (97 + v - 10) as char
    }
}

/// Two lower-case hexadecimal digits for each byte of `b`, the high one first.
pub open spec fn hex_of(b: Seq<u8>) -> Seq<char> {
    Seq::new(
        b.len() * 2,
        |i: int|
            if i % 2 == 0 {
                hex_char(b[i / 2] as int / 16)
            } else {
                hex_char(b[i / 2] as int % 16)
            },
    )
}

/// `hex::encode` of the `hex` crate.
#[verifier::external_body]
pub(crate) fn hex_encode(bytes: &[u8]) -> (r: String)
    ensures
        r@ == hex_of(bytes@),
{
    hex::encode(bytes)
}

/// The value of a hexadecimal digit in either case.
pub open spec fn hex_digit_value(c: char) -> Option<int> {
    if 48 <= c as int <= 57 {
        Some(c as int - 48)
    } else if 97 <= c as int <= 102 {
        Some(c as int - 97 + 10)
    } else if 65 <= c as int <= 70 {
        Some(c as int - 65 + 10)
    } else {
        None
    }
}

/// Whether `text` is hexadecimal: two digits for every byte.
pub open spec fn is_hex(text: Seq<char>) -> bool {
    &&& text.len() % 2 == 0
    &&& forall|i: int| 0 <= i < text.len() ==> hex_digit_value(#[trigger] text[i]) is Some
}

/// The bytes that the hexadecimal text `text` stands for.
pub open spec fn hex_bytes(text: Seq<char>) -> Seq<u8> {
    Seq::new(
        (text.len() / 2) as nat,
        |i: int|
            (hex_digit_value(text[2 * i])->0 * 16 + hex_digit_value(text[2 * i + 1])->0) as u8,
    )
}

/// `hex::decode` of the `hex` crate: it takes digits of either case, two for every byte, and
/// nothing else.
#[verifier::external_body]
pub(crate) fn hex_decode(text: &str) -> (r: Option<Vec<u8>>)
    ensures
        r is Some <==> is_hex(text@),
        r matches Some(b) ==> b@ == hex_bytes(text@),
{
    hex::decode(text).ok()
}

/// The text that stands for `bytes` with every part that is no UTF-8 replaced.
pub uninterp spec fn lossy_text(bytes: Seq<u8>) -> Seq<char>;

/// `String::from_utf8_lossy` of the standard library: a function of the bytes alone, which gives
/// the characters that they encode where they are UTF-8.
#[verifier::external_body]
pub(crate) fn text_lossy(bytes: &[u8]) -> (r: String)
    ensures
        r@ == lossy_text(bytes@),
        valid_utf8(bytes@) ==> r@ == decode_utf8(bytes@),
{
    String::from_utf8_lossy(bytes).into_owned()
}

/// The hexadecimal of bytes reads back as those bytes, two characters for each.
pub proof fn hex_round_trip(b: Seq<u8>)
    ensures
        hex_of(b).len() == 2 * b.len(),
        is_hex(hex_of(b)),
        hex_bytes(hex_of(b)) == b,
{
    let t = hex_of(b);
    assert forall|i: int| 0 <= i < t.len() implies hex_digit_value(#[trigger] t[i]) is Some by {
        let v = b[i / 2];
        assert(0 <= v as int / 16 < 16 && 0 <= v as int % 16 < 16);
    }
    assert forall|i: int| 0 <= i < b.len() implies #[trigger] hex_bytes(t)[i] == b[i] by {
        assert((2 * i) / 2 == i && (2 * i + 1) / 2 == i);
        assert((2 * i) % 2 == 0 && (2 * i + 1) % 2 == 1);
    }
    assert(hex_bytes(t) =~= b);
}

/// The digits of hexadecimal are `0` to `9` and `a` to `f`; capitals are read too.
pub proof fn hex_digits_are_the_usual(v: int, c: char)
    ensures
        0 <= v < 10 ==> hex_char(v) as int == 48 + v,
        10 <= v < 16 ==> hex_char(v) as int == 87 + v,
        48 <= c as int <= 57 ==> hex_digit_value(c) == Some(c as int - 48),
        97 <= c as int <= 102 ==> hex_digit_value(c) == Some(c as int - 87),
        65 <= c as int <= 70 ==> hex_digit_value(c) == Some(c as int - 55),
        !(48 <= c as int <= 57 || 97 <= c as int <= 102 || 65 <= c as int <= 70) ==> hex_digit_value(
            c,
        ) is None,
{
}

/// The characters of base64, by the six bits that they stand for.
pub proof fn base64_characters_are_the_usual(v: int)
    ensures
        0 <= v < 26 ==> base64_char(v) as int == 65 + v,
        26 <= v < 52 ==> base64_char(v) as int == 71 + v,
        52 <= v < 62 ==> base64_char(v) as int == v - 4,
        v == 62 ==> base64_char(v) == '+',
        v == 63 ==> base64_char(v) == '/',
{
}

} // verus!
