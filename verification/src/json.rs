//! JSON values that the host hands to the guest.
use vstd::prelude::*;

use crate::codec::hex_char;
use crate::text::{chars_of, joined, same_text};

verus! {

/// A JSON value. Numbers that are no integers come as the bits of a floating-point number.
#[derive(Debug)]
pub enum Json {
    Null,
    Bool(bool),
    Int(i64),
    /// An integer above those of 64 bits with a sign.
    Big(u64),
    F32(u32),
    F64(u64),
    Text(String),
    List(Vec<Json>),
    /// Members in the order in which they were added.
    Object(Vec<(String, Json)>),
}

/// [`Json`] over sequences.
pub enum JsonView {
    Null,
    Bool(bool),
    Int(i64),
    Big(u64),
    F32(u32),
    F64(u64),
    Text(Seq<char>),
    List(Seq<JsonView>),
    Object(Seq<(Seq<char>, JsonView)>),
}

impl View for Json {
    type V = JsonView;

    open spec fn view(&self) -> JsonView
        decreases self,
    {
        match self {
            Json::Null => JsonView::Null,
            Json::Bool(b) => JsonView::Bool(*b),
            Json::Int(i) => JsonView::Int(*i),
            Json::Big(n) => JsonView::Big(*n),
            Json::F32(b) => JsonView::F32(*b),
            Json::F64(b) => JsonView::F64(*b),
            Json::Text(s) => JsonView::Text(s@),
            Json::List(v) => JsonView::List(
                Seq::new(
                    v@.len(),
                    |i: int|
                        if 0 <= i < v@.len() {
                            v@[i].view()
                        } else {
                            JsonView::Null
                        },
                ),
            ),
            Json::Object(v) => JsonView::Object(
                Seq::new(
                    v@.len(),
                    |i: int|
                        if 0 <= i < v@.len() {
                            (v@[i].0@, v@[i].1.view())
                        } else {
                            (Seq::empty(), JsonView::Null)
                        },
                ),
            ),
        }
    }
}

/// Members of an object, over sequences.
pub open spec fn members(v: Seq<(String, Json)>) -> Seq<(Seq<char>, JsonView)> {
    Seq::new(v.len(), |i: int| (v[i].0@, v[i].1@))
}

/// Elements of a list, over sequences.
pub open spec fn elements(v: Seq<Json>) -> Seq<JsonView> {
    Seq::new(v.len(), |i: int| v[i]@)
}

/// A JSON text.
pub fn json_text(s: &str) -> (r: Json)
    ensures
        r@ == JsonView::Text(s@),
{
    Json::Text(s.to_owned())
}

/// A JSON text, or null.
pub fn json_maybe(s: &Option<String>) -> (r: Json)
    ensures
        r@ == (match s {
            Some(t) => JsonView::Text(t@),
            None => JsonView::Null,
        }),
{
    match s {
        Some(t) => json_text(t),
        None => Json::Null,
    }
}

/// Adds a member behind those that are there.
pub fn put(o: &mut Vec<(String, Json)>, key: &str, value: Json)
    ensures
        members(final(o)@) == members(old(o)@).push((key@, value@)),
{
    o.push((key.to_owned(), value));
    assert(members(o@) =~= members(old(o)@).push((key@, value@)));
}

/// An object of these members.
pub fn json_object(o: Vec<(String, Json)>) -> (r: Json)
    ensures
        r@ == JsonView::Object(members(o@)),
{
    let r = Json::Object(o);
    proof {
        reveal_with_fuel(<Json as View>::view, 2);
        assert(r@->Object_0 =~= members(o@));
    }
    r
}

/// A list of these elements.
pub fn json_list(v: Vec<Json>) -> (r: Json)
    ensures
        r@ == JsonView::List(elements(v@)),
{
    let r = Json::List(v);
    proof {
        reveal_with_fuel(<Json as View>::view, 2);
        assert(r@->List_0 =~= elements(v@));
    }
    r
}

/// A new object with one text member.
pub fn object_with_text(key: &str, value: &str) -> (r: Vec<(String, Json)>)
    ensures
        members(r@) == seq![(key@, JsonView::Text(value@))],
{
    let mut o: Vec<(String, Json)> = Vec::new();
    put(&mut o, key, json_text(value));
    assert(members(o@) =~= seq![(key@, JsonView::Text(value@))]);
    o
}

/// The first member called `key` among the first `n`, if there is one.
pub open spec fn first_member(
    m: Seq<(Seq<char>, JsonView)>,
    key: Seq<char>,
    n: int,
) -> Option<JsonView>
    decreases n,
{
    if n <= 0 {
        None
    } else {
        match first_member(m, key, n - 1) {
            Some(v) => Some(v),
            None => if m[n - 1].0 == key {
                Some(m[n - 1].1)
            } else {
                None
            },
        }
    }
}

/// The member of `v` called `key`; `None` where there is none, or `v` is no object.
pub open spec fn member_of(v: JsonView, key: Seq<char>) -> Option<JsonView> {
    match v {
        JsonView::Object(m) => first_member(m, key, m.len() as int),
        _ => None,
    }
}

/// The member of `v` called `key`; `None` where there is none, or `v` is no object.
pub fn member<'a>(v: &'a Json, key: &str) -> (r: Option<&'a Json>)
    ensures
        match r {
            Some(found) => member_of(v@, key@) == Some(found@),
            None => member_of(v@, key@) is None,
        },
{
    match v {
        Json::Object(o) => {
            proof {
                reveal_with_fuel(<Json as View>::view, 2);
                assert(v@->Object_0 =~= members(o@));
            }
            let mut i: usize = 0;
            while i < o.len()
                invariant
                    i <= o@.len(),
                    v@ == JsonView::Object(members(o@)),
                    first_member(members(o@), key@, i as int) is None,
                decreases o@.len() - i,
            {
                if same_text(&o[i].0, key) {
                    proof {
                        lemma_first_member(members(o@), key@, i + 1, members(o@).len() as int);
                    }
                    return Some(&o[i].1);
                }
                i += 1;
            }
            None
        },
        _ => None,
    }
}

proof fn lemma_first_member(m: Seq<(Seq<char>, JsonView)>, key: Seq<char>, a: int, b: int)
    requires
        0 <= a <= b,
        first_member(m, key, a) is Some,
    ensures
        first_member(m, key, b) == first_member(m, key, a),
    decreases b - a,
{
    if a < b {
        lemma_first_member(m, key, a, b - 1);
    }
}

/// The text that `v` is, if it is one.
pub open spec fn text_in(v: Option<JsonView>) -> Option<Seq<char>> {
    match v {
        Some(JsonView::Text(t)) => Some(t),
        _ => None,
    }
}

/// How `c` is written inside a JSON string literal.
pub open spec fn escaped_char(c: char) -> Seq<char> {
    if c == '\\' {
        seq!['\\', '\\']
    } else if c == '"' {
        seq!['\\', '"']
    } else if c == '\n' {
        seq!['\\', 'n']
    } else if c == '\r' {
        seq!['\\', 'r']
    } else if c == '\t' {
        seq!['\\', 't']
    } else if c as int == 8 {
        seq!['\\', 'b']
    } else if c as int == 12 {
        seq!['\\', 'f']
    } else if (c as int) < 0x20 {
        seq!['\\', 'u', '0', '0', hex_char(c as int / 16), hex_char(c as int % 16)]
    } else {
        seq![c]
    }
}

/// How the first `n` characters of `s` are written inside a JSON string literal.
pub open spec fn escaped(s: Seq<char>, n: int) -> Seq<char>
    decreases n,
{
    if n <= 0 {
        Seq::empty()
    } else {
        escaped(s, n - 1) + escaped_char(s[n - 1])
    }
}

/// `s` as a JSON string literal.
pub open spec fn string_literal(s: Seq<char>) -> Seq<char> {
    seq!['"'] + escaped(s, s.len() as int) + seq!['"']
}

fn hex_digit(v: u8) -> (r: char)
    requires
        v < 16,
    ensures
        r == hex_char(v as int),
{
    if v < 10 {
        (48u8 + v) as char
    } else {
        (97u8 + (v - 10)) as char
    }
}

fn push_escaped(out: &mut String, c: char)
    ensures
        final(out)@ == old(out)@ + escaped_char(c),
{
    let n: u32 = c as u32;
    if c == '\\' {
        out.push('\\');
        out.push('\\');
    } else if c == '"' {
        out.push('\\');
        out.push('"');
    } else if c == '\n' {
        out.push('\\');
        out.push('n');
    } else if c == '\r' {
        out.push('\\');
        out.push('r');
    } else if c == '\t' {
        out.push('\\');
        out.push('t');
    } else if n == 8 {
        out.push('\\');
        out.push('b');
    } else if n == 12 {
        out.push('\\');
        out.push('f');
    } else if n < 0x20 {
        out.push('\\');
        out.push('u');
        out.push('0');
        out.push('0');
        out.push(hex_digit((n / 16) as u8));
        out.push(hex_digit((n % 16) as u8));
    } else {
        out.push(c);
    }
    assert(out@ =~= old(out)@ + escaped_char(c));
}

/// `s` as a JSON string literal.
pub fn js_string_literal(s: &str) -> (r: String)
    ensures
        r@ == string_literal(s@),
{
    let chars = chars_of(s);
    let mut out = String::new();
    out.push('"');
    let mut i: usize = 0;
    assert(out@ =~= seq!['"'] + escaped(s@, 0));
    while i < chars.len()
        invariant
            i <= chars@.len(),
            chars@ == s@,
            out@ == seq!['"'] + escaped(s@, i as int),
        decreases chars@.len() - i,
    {
        push_escaped(&mut out, chars[i]);
        assert(out@ =~= seq!['"'] + escaped(s@, i + 1));
        i += 1;
    }
    out.push('"');
    assert(out@ =~= string_literal(s@));
    out
}

/// The value of a hexadecimal digit in lower case.
pub open spec fn hex_value(c: char) -> Option<int> {
    if 48 <= c as int <= 57 {
        Some(c as int - 48)
    } else if 97 <= c as int <= 102 {
        Some(c as int - 97 + 10)
    } else {
        None
    }
}

/// The character that the start of the body of a string literal stands for, and how many characters
/// it takes there; `None` where it stands for none. A bare quote ends a literal and a bare control
/// character may not stand in one.
pub open spec fn unescaped_char(t: Seq<char>) -> Option<(char, int)> {
    if t.len() == 0 || t[0] == '"' || (t[0] as int) < 0x20 {
        None
    } else if t[0] != '\\' {
        Some((t[0], 1))
    } else if t.len() < 2 {
        None
    } else if t[1] == '\\' || t[1] == '"' || t[1] == '/' {
        Some((t[1], 2))
    } else if t[1] == 'n' {
        Some(('\n', 2))
    } else if t[1] == 'r' {
        Some(('\r', 2))
    } else if t[1] == 't' {
        Some(('\t', 2))
    } else if t[1] == 'b' {
        Some((8int as char, 2))
    } else if t[1] == 'f' {
        Some((12int as char, 2))
    } else if t[1] == 'u' && t.len() >= 6 && t[2] == '0' && t[3] == '0' {
        match (hex_value(t[4]), hex_value(t[5])) {
            (Some(a), Some(b)) => Some(((a * 16 + b) as char, 6)),
            _ => None,
        }
    } else {
        None
    }
}

/// The characters that the body of a string literal stands for, as far as the escapes are among
/// those that [`js_string_literal`] uses.
pub open spec fn unescaped(t: Seq<char>) -> Option<Seq<char>>
    decreases t.len(),
{
    if t.len() == 0 {
        Some(Seq::empty())
    } else {
        match unescaped_char(t) {
            Some((c, k)) => if 0 < k <= t.len() {
                match unescaped(t.skip(k)) {
                    Some(rest) => Some(seq![c] + rest),
                    None => None,
                }
            } else {
                None
            },
            None => None,
        }
    }
}

proof fn lemma_unescape_char(c: char, rest: Seq<char>)
    ensures
        unescaped_char(escaped_char(c) + rest) == Some((c, escaped_char(c).len() as int)),
        (escaped_char(c) + rest).skip(escaped_char(c).len() as int) == rest,
{
    let e = escaped_char(c);
    let t = e + rest;
    assert(t.skip(e.len() as int) =~= rest);
    assert forall|i: int| 0 <= i < e.len() implies t[i] == e[i] by {}
    let n = c as int;
    if c != '\\' && c != '"' && c != '\n' && c != '\r' && c != '\t' && n != 8 && n != 12 && n
        < 0x20 {
        assert(hex_value(hex_char(n / 16)) == Some(n / 16));
        assert(hex_value(hex_char(n % 16)) == Some(n % 16));
        assert(n / 16 * 16 + n % 16 == n);
        assert((n as char) == c);
    }
}

proof fn lemma_escaped_front(s: Seq<char>)
    requires
        s.len() > 0,
    ensures
        escaped(s, s.len() as int) == escaped_char(s[0]) + escaped(s.skip(1), s.len() - 1),
{
    lemma_escaped_front_upto(s, s.len() as int);
}

proof fn lemma_escaped_front_upto(s: Seq<char>, n: int)
    requires
        0 < n <= s.len(),
    ensures
        escaped(s, n) == escaped_char(s[0]) + escaped(s.skip(1), n - 1),
    decreases n,
{
    if n == 1 {
        assert(escaped(s, 0) =~= Seq::empty());
        assert(escaped(s, 1) =~= escaped_char(s[0]) + escaped(s.skip(1), 0));
    } else {
        lemma_escaped_front_upto(s, n - 1);
        assert(s.skip(1)[n - 2] == s[n - 1]);
        assert(escaped(s, n) =~= escaped_char(s[0]) + escaped(s.skip(1), n - 1));
    }
}

/// A string literal stands for exactly the text that it was made from: between its quotes there is
/// no bare quote and no bare control character, and undoing the escapes gives the text back.
pub proof fn literal_reads_back(s: Seq<char>)
    ensures
        string_literal(s).len() >= 2,
        string_literal(s)[0] == '"',
        string_literal(s).last() == '"',
        unescaped(string_literal(s).subrange(1, string_literal(s).len() - 1)) == Some(s),
{
    let body = escaped(s, s.len() as int);
    assert(string_literal(s).subrange(1, string_literal(s).len() - 1) =~= body);
    lemma_body_reads_back(s);
}

proof fn lemma_body_reads_back(s: Seq<char>)
    ensures
        unescaped(escaped(s, s.len() as int)) == Some(s),
    decreases s.len(),
{
    let body = escaped(s, s.len() as int);
    if s.len() == 0 {
        assert(unescaped(body) == Some(Seq::<char>::empty()));
        assert(s =~= Seq::<char>::empty());
    } else {
        let rest = escaped(s.skip(1), s.len() - 1);
        lemma_escaped_front(s);
        lemma_unescape_char(s[0], rest);
        lemma_body_reads_back(s.skip(1));
        assert(seq![s[0]] + s.skip(1) =~= s);
    }
}

proof fn lemma_member_found(m: Seq<(Seq<char>, JsonView)>, key: Seq<char>, n: int)
    requires
        0 <= n <= m.len(),
    ensures
        first_member(m, key, n) is None <==> forall|i: int| 0 <= i < n ==> (#[trigger] m[i]).0 != key,
        forall|i: int|
            0 <= i < n && (#[trigger] m[i]).0 == key && (forall|j: int|
                0 <= j < i ==> (#[trigger] m[j]).0 != key) ==> first_member(m, key, n) == Some(
                m[i].1,
            ),
    decreases n,
{
    if n > 0 {
        lemma_member_found(m, key, n - 1);
    }
}

/// A member is found exactly where the object has one of that name; of several it is the first.
pub proof fn member_is_the_first_of_its_name(m: Seq<(Seq<char>, JsonView)>, key: Seq<char>, i: int)
    requires
        0 <= i < m.len(),
        m[i].0 == key,
        forall|j: int| 0 <= j < i ==> (#[trigger] m[j]).0 != key,
    ensures
        member_of(JsonView::Object(m), key) == Some(m[i].1),
{
    lemma_member_found(m, key, m.len() as int);
}

/// No member is found where the object has none of that name, nor in what is no object.
pub proof fn missing_member_is_not_found(v: JsonView, key: Seq<char>)
    ensures
        !(v is Object) ==> member_of(v, key) is None,
        v matches JsonView::Object(m) ==> (member_of(v, key) is None <==> forall|i: int|
            0 <= i < m.len() ==> (#[trigger] m[i]).0 != key),
{
    if let JsonView::Object(m) = v {
        lemma_member_found(m, key, m.len() as int);
    }
}

/// Whether `s` stands for itself between quotes.
pub open spec fn is_plain(s: Seq<char>) -> bool {
    forall|i: int|
        0 <= i < s.len() ==> (#[trigger] s[i]) as int >= 0x20 && s[i] != '"' && s[i] != '\\'
}

proof fn lemma_plain_escaped(s: Seq<char>, n: int)
    requires
        0 <= n <= s.len(),
        is_plain(s),
    ensures
        escaped(s, n) == s.take(n),
    decreases n,
{
    if n > 0 {
        lemma_plain_escaped(s, n - 1);
        assert(escaped_char(s[n - 1]) =~= seq![s[n - 1]]);
        assert(s.take(n) =~= s.take(n - 1) + seq![s[n - 1]]);
    } else {
        assert(s.take(0) =~= Seq::empty());
    }
}

/// A text without quotes, backslashes and control characters stands in its literal as it is.
pub proof fn plain_text_is_quoted(s: Seq<char>)
    requires
        is_plain(s),
    ensures
        string_literal(s) == seq!['"'] + s + seq!['"'],
{
    lemma_plain_escaped(s, s.len() as int);
    assert(s.take(s.len() as int) =~= s);
}

/// An object in JSON: each name in quotes, a colon and the text of its value, with commas between
/// them.
pub open spec fn object_text(fields: Seq<(Seq<char>, Seq<char>)>) -> Seq<char> {
    seq!['{'] + joined(
        Seq::new(fields.len(), |i: int| seq!['"'] + fields[i].0 + seq!['"', ':'] + fields[i].1),
        seq![','],
        fields.len() as int,
    ) + seq!['}']
}

/// A list in JSON: the texts of its elements with commas between them.
pub open spec fn array_text(items: Seq<Seq<char>>) -> Seq<char> {
    seq!['['] + joined(items, seq![','], items.len() as int) + seq![']']
}

/// The text of a truth value.
pub open spec fn truth_text(b: bool) -> Seq<char> {
    if b {
        seq!['t', 'r', 'u', 'e']
    } else {
        seq!['f', 'a', 'l', 's', 'e']
    }
}

/// Every character has the escape that JSON gives it: quotes, backslashes and control characters
/// stand behind a backslash, and every other character for itself.
pub proof fn characters_are_escaped_as_in_json(c: char)
    ensures
        c == '"' ==> escaped_char(c) == seq!['\\', '"'],
        c == '\\' ==> escaped_char(c) == seq!['\\', '\\'],
        c as int == 10 ==> escaped_char(c) == seq!['\\', 'n'],
        c as int == 13 ==> escaped_char(c) == seq!['\\', 'r'],
        c as int == 9 ==> escaped_char(c) == seq!['\\', 't'],
        c as int == 8 ==> escaped_char(c) == seq!['\\', 'b'],
        c as int == 12 ==> escaped_char(c) == seq!['\\', 'f'],
        (c as int) < 32 ==> escaped_char(c).len() >= 2 && escaped_char(c)[0] == '\\',
        c as int >= 32 && c != '"' && c != '\\' ==> escaped_char(c) == seq![c],
        forall|i: int| 0 <= i < escaped_char(c).len() ==> (#[trigger] escaped_char(c)[i]) as int >= 32,
{
}

proof fn lemma_no_control(s: Seq<char>, n: int)
    requires
        0 <= n <= s.len(),
    ensures
        forall|i: int| 0 <= i < escaped(s, n).len() ==> (#[trigger] escaped(s, n)[i]) as int >= 32,
    decreases n,
{
    if n > 0 {
        lemma_no_control(s, n - 1);
        characters_are_escaped_as_in_json(s[n - 1]);
        let front = escaped(s, n - 1);
        let last = escaped_char(s[n - 1]);
        assert(escaped(s, n) == front + last);
        assert forall|i: int| 0 <= i < (front + last).len() implies (#[trigger] (front + last)[i])
            as int >= 32 by {
            if i < front.len() {
                assert((front + last)[i] == front[i]);
            } else {
                assert((front + last)[i] == last[i - front.len()]);
            }
        }
    }
}

/// A literal stands between quotes and holds no control character.
pub proof fn literal_holds_no_control_character(s: Seq<char>, i: int)
    requires
        0 <= i < string_literal(s).len(),
    ensures
        string_literal(s)[i] as int >= 32,
        string_literal(s)[0] == '"',
        string_literal(s).last() == '"',
{
    lemma_no_control(s, s.len() as int);
}

} // verus!
