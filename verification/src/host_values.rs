//! What the parts of a call mean to the services behind it.
use vstd::prelude::*;
use vstd::utf8::encode_utf8;

use crate::bytes::bytes_of;
use crate::daemon_http::{DaemonHttp, ReplyEnvelope};
use crate::error::{AfterburnerError, ErrorView};
use crate::json::{
    elements, json_list, json_object, json_text, member, member_is_the_first_of_its_name, member_of,
    members, object_with_text, put, text_in, Json, JsonView,
};
use crate::text::{
    chars_of, joined, next_separator, pieces, pieces_undo_joining, text_part, trim_range, trimmed,
};
use crate::wasm_loader::{value_in, value_members, ExportInfo, FloatBits, ImportInfo, WasmValue};

verus! {

/// The number that the bits of a word stand for without a sign.
pub open spec fn unsigned_word(w: i32) -> int {
    if w < 0 {
        w + 0x1_0000_0000
    } else {
        w as int
    }
}

fn word_bits(w: i32) -> (r: u64)
    ensures
        r == unsigned_word(w),
{
    if w < 0 {
        (w as i64 + 0x1_0000_0000) as u64
    } else {
        w as u64
    }
}

/// The offset in a file that a guest hands over in two words.
pub fn chunk_offset(lo: i32, hi: i32) -> (r: u64)
    ensures
        r == unsigned_word(hi) * 0x1_0000_0000 + unsigned_word(lo),
{
    word_bits(hi) * 0x1_0000_0000 + word_bits(lo)
}

/// The length that a guest hands over in a word; one below zero stands for one beyond every file.
pub fn chunk_length(len: i32) -> (r: u64)
    ensures
        r == (if len < 0 {
            len + 0x1_0000_0000_0000_0000
        } else {
            len as int
        }),
{
    if len < 0 {
        (len as i128 + 0x1_0000_0000_0000_0000) as u64
    } else {
        len as u64
    }
}

/// The cost that a guest asks for; one below zero stands for the default.
pub fn cost_of(cost: i32) -> (r: u32)
    ensures
        r == (if cost < 0 {
            0
        } else {
            cost
        }),
{
    if cost < 0 {
        0
    } else {
        cost as u32
    }
}

/// The variant of a hash that a guest asks for; one below zero stands for the third.
pub fn argon2_variant(ty: i32) -> (r: u8)
    ensures
        r == (if ty < 0 {
            2
        } else {
            ty % 256
        }),
{
    if ty < 0 {
        2
    } else {
        (ty % 256) as u8
    }
}

/// How long an input is, as a guest learns it.
pub fn input_length(n: usize) -> (r: i32)
    ensures
        r == (if n <= i32::MAX {
            n as int
        } else {
            -1
        }),
{
    if n <= 0x7fff_ffff {
        n as i32
    } else {
        -1
    }
}

/// The pieces without the white space at their ends.
pub open spec fn trimmed_pieces(p: Seq<Seq<char>>) -> Seq<Seq<char>> {
    Seq::new(p.len(), |i: int| trimmed(p[i]))
}

/// The pieces that are not empty.
pub open spec fn filled(p: Seq<Seq<char>>) -> Seq<Seq<char>> {
    p.filter(|s: Seq<char>| s.len() > 0)
}

/// Texts over sequences.
pub open spec fn as_texts(v: Seq<String>) -> Seq<Seq<char>> {
    Seq::new(v.len(), |i: int| v[i]@)
}

/// The servers that a list names, separated by commas; empty ones do not count.
pub open spec fn servers_of(s: Seq<char>) -> Seq<Seq<char>> {
    filled(trimmed_pieces(pieces(s, ',', 0)))
}

proof fn lemma_filled_push(p: Seq<Seq<char>>, x: Seq<char>)
    ensures
        filled(p.push(x)) == (if x.len() > 0 {
            filled(p).push(x)
        } else {
            filled(p)
        }),
{
    reveal(Seq::filter);
    assert(p.push(x).drop_last() =~= p);
}

/// Cuts `s` at its commas and trims the pieces.
fn split_commas(s: &str) -> (r: Vec<String>)
    ensures
        as_texts(r@) == trimmed_pieces(pieces(s@, ',', 0)),
{
    let chars = chars_of(s);
    let n: usize = chars.len();
    let mut out: Vec<String> = Vec::new();
    let mut at: usize = 0;
    let mut more = true;
    assert(as_texts(out@) + trimmed_pieces(pieces(s@, ',', 0)) =~= trimmed_pieces(
        pieces(s@, ',', 0),
    ));
    while more
        invariant
            chars@ == s@,
            n == chars@.len(),
            more ==> at <= n,
            more ==> as_texts(out@) + trimmed_pieces(pieces(s@, ',', at as int)) == trimmed_pieces(
                pieces(s@, ',', 0),
            ),
            !more ==> as_texts(out@) == trimmed_pieces(pieces(s@, ',', 0)),
        decreases
                (if more {
                    n - at + 1
                } else {
                    0
                }),
    {
        let mut end: usize = at;
        let ghost found = next_separator(s@, ',', at as int);
        while end < n && chars[end] != ','
            invariant
                at <= end <= n,
                n == chars@.len(),
                chars@ == s@,
                next_separator(s@, ',', end as int) == found,
            decreases n - end,
        {
            end += 1;
        }
        assert(end == found);
        let (a, b) = trim_range(&chars, at, end);
        let piece = text_part(&chars, a, b);
        let ghost before = out@;
        out.push(piece);
        proof {
            let rest = pieces(s@, ',', at as int);
            assert(rest[0] =~= s@.subrange(at as int, end as int));
            if end >= n {
                assert(trimmed_pieces(rest) =~= seq![piece@]);
                assert(as_texts(out@) =~= as_texts(before) + trimmed_pieces(rest));
            } else {
                let tail = pieces(s@, ',', end + 1);
                assert(rest =~= seq![s@.subrange(at as int, end as int)] + tail);
                assert(trimmed_pieces(rest) =~= seq![piece@] + trimmed_pieces(tail));
                assert(as_texts(out@) + trimmed_pieces(tail) =~= as_texts(before) + trimmed_pieces(
                    rest,
                ));
            }
        }
        if end >= n {
            more = false;
        } else {
            at = end + 1;
        }
    }
    out
}

/// The servers that a list names, separated by commas; empty ones do not count.
pub fn parse_servers_csv(s: &str) -> (r: Vec<String>)
    ensures
        as_texts(r@) == servers_of(s@),
{
    let all = split_commas(s);
    let ghost p = as_texts(all@);
    let mut out: Vec<String> = Vec::new();
    let mut i: usize = 0;
    assert(as_texts(out@) =~= filled(p.take(0))) by {
        reveal(Seq::filter);
    }
    while i < all.len()
        invariant
            i <= all@.len(),
            p == as_texts(all@),
            as_texts(out@) == filled(p.take(i as int)),
        decreases all@.len() - i,
    {
        let s = &all[i];
        proof {
            assert(p.take(i + 1) =~= p.take(i as int).push(s@));
            lemma_filled_push(p.take(i as int), s@);
        }
        let ghost before = out@;
        if !s.as_str().is_empty() {
            let copy = s.as_str().to_owned();
            out.push(copy);
            assert(as_texts(out@) =~= as_texts(before).push(s@));
        }
        i += 1;
    }
    assert(p.take(all@.len() as int) =~= p);
    out
}

/// The servers that a list names where every piece of it counts, and no list names none.
pub fn all_servers_csv(s: &str) -> (r: Vec<String>)
    ensures
        as_texts(r@) == (if s@.len() == 0 {
            Seq::empty()
        } else {
            trimmed_pieces(pieces(s@, ',', 0))
        }),
{
    if s.is_empty() {
        let none: Vec<String> = Vec::new();
        assert(as_texts(none@) =~= Seq::empty());
        return none;
    }
    split_commas(s)
}

/// The status that a script's reply asks for; one that names none is an error.
pub open spec fn reply_status(v: JsonView) -> u16 {
    match member_of(v, "status"@) {
        Some(JsonView::Int(n)) => if n >= 0 {
            (n % 65536) as u16
        } else {
            500
        },
        Some(JsonView::Big(n)) => (n % 65536) as u16,
        _ => 500,
    }
}

/// The header fields among the first `n` members: those with a text for a value.
pub open spec fn header_fields(m: Seq<(Seq<char>, JsonView)>, n: int) -> Seq<(Seq<char>, Seq<char>)>
    decreases n,
{
    if n <= 0 {
        Seq::empty()
    } else {
        match m[n - 1].1 {
            JsonView::Text(t) => header_fields(m, n - 1).push((m[n - 1].0, t)),
            _ => header_fields(m, n - 1),
        }
    }
}

/// The header fields of a script's reply.
pub open spec fn reply_headers(v: JsonView) -> Seq<(Seq<char>, Seq<char>)> {
    match member_of(v, "headers"@) {
        Some(JsonView::Object(m)) => header_fields(m, m.len() as int),
        _ => Seq::empty(),
    }
}

/// The body of a script's reply.
pub open spec fn reply_body(v: JsonView) -> Seq<u8> {
    match text_in(member_of(v, "body"@)) {
        Some(t) => encode_utf8(t),
        None => Seq::empty(),
    }
}

/// Header fields over sequences.
pub open spec fn header_views(v: Seq<(String, String)>) -> Seq<(Seq<char>, Seq<char>)> {
    Seq::new(v.len(), |i: int| (v[i].0@, v[i].1@))
}

fn read_headers(v: &Json) -> (r: Vec<(String, String)>)
    ensures
        header_views(r@) == reply_headers(v@),
{
    let mut out: Vec<(String, String)> = Vec::new();
    assert(header_views(out@) =~= Seq::empty());
    let found = match member(v, "headers") {
        Some(h) => h,
        None => return out,
    };
    match found {
        Json::Object(o) => {
            proof {
                reveal_with_fuel(<Json as View>::view, 2);
                assert(found@->Object_0 =~= members(o@));
            }
            let mut i: usize = 0;
            while i < o.len()
                invariant
                    i <= o@.len(),
                    header_views(out@) == header_fields(members(o@), i as int),
                decreases o@.len() - i,
            {
                let ghost before = out@;
                let entry = &o[i];
                assert(members(o@)[i as int] == (entry.0@, entry.1@));
                match &entry.1 {
                    Json::Text(t) => {
                        out.push((entry.0.as_str().to_owned(), t.as_str().to_owned()));
                        assert(header_views(out@) =~= header_views(before).push(
                            (entry.0@, t@),
                        ));
                    },
                    _ => {},
                }
                i += 1;
            }
            out
        },
        _ => out,
    }
}

/// The reply that a script hands over as JSON.
pub fn reply_envelope(v: &Json) -> (r: ReplyEnvelope)
    ensures
        r.status == reply_status(v@),
        header_views(r.headers@) == reply_headers(v@),
        r.body@ == reply_body(v@),
{
    let status: u16 = match member(v, "status") {
        Some(Json::Int(n)) => if *n >= 0 {
            (*n % 65536) as u16
        } else {
            500
        },
        Some(Json::Big(n)) => (*n % 65536) as u16,
        _ => 500,
    };
    let headers = read_headers(v);
    let body: Vec<u8> = match member(v, "body") {
        Some(Json::Text(t)) => bytes_of(t),
        _ => {
            let none: Vec<u8> = Vec::new();
            assert(none@ =~= Seq::empty());
            none
        },
    };
    ReplyEnvelope { status, headers, body }
}

/// Answers request `req_id` with what the script replies, as JSON: the reply, where somebody waits
/// for it.
pub fn http_reply(http: &mut DaemonHttp, req_id: i64, v: &Json) -> (r: Option<ReplyEnvelope>)
    ensures
        final(http)@ == old(http)@.replied(req_id),
        r is Some <==> old(http)@.pending.contains_key(req_id),
        r matches Some(reply) ==> reply.status == reply_status(v@) && header_views(reply.headers@)
            == reply_headers(v@) && reply.body@ == reply_body(v@),
{
    http.deliver_reply(req_id, reply_envelope(v))
}

/// Why a service cannot be asked.
#[derive(Debug)]
pub enum Unready {
    /// An error of the service.
    Error(AfterburnerError),
    /// What is kept for the guest as it stands.
    Note(String),
}

/// [`Unready`] over sequences.
#[verifier::ext_equal]
pub enum UnreadyView {
    Error(ErrorView),
    Note(Seq<char>),
}

impl View for Unready {
    type V = UnreadyView;

    open spec fn view(&self) -> UnreadyView {
        match self {
            Unready::Error(e) => UnreadyView::Error(e@),
            Unready::Note(m) => UnreadyView::Note(m@),
        }
    }
}

/// How a connection is to be secured.
#[derive(Debug)]
pub struct ConnectOptions {
    pub reject_unauthorized: bool,
    pub servername: String,
    pub alpn: Vec<String>,
    pub ca_pem: String,
}

/// The texts among the first `n` elements.
pub open spec fn texts_among(e: Seq<JsonView>, n: int) -> Seq<Seq<char>>
    decreases n,
{
    if n <= 0 {
        Seq::empty()
    } else {
        match e[n - 1] {
            JsonView::Text(t) => texts_among(e, n - 1).push(t),
            _ => texts_among(e, n - 1),
        }
    }
}

/// The text of a member, or no text.
pub open spec fn text_or_empty(v: Option<JsonView>) -> Seq<char> {
    match text_in(v) {
        Some(t) => t,
        None => Seq::empty(),
    }
}

/// The member of options, where there are any.
pub open spec fn option_of(v: Option<JsonView>, key: Seq<char>) -> Option<JsonView> {
    match v {
        Some(o) => member_of(o, key),
        None => None,
    }
}

fn find_option<'a>(v: Option<&'a Json>, key: &str) -> (r: Option<&'a Json>)
    ensures
        match r {
            Some(found) => v is Some && member_of(v->0@, key@) == Some(found@),
            None => v is None || member_of(v->0@, key@) is None,
        },
{
    match v {
        Some(o) => member(o, key),
        None => None,
    }
}

/// Options over sequences.
pub open spec fn options_view(v: Option<&Json>) -> Option<JsonView> {
    match v {
        Some(o) => Some(o@),
        None => None,
    }
}

fn find_text(v: Option<&Json>, key: &str) -> (r: String)
    ensures
        r@ == text_or_empty(option_of(options_view(v), key@)),
{
    match find_option(v, key) {
        Some(Json::Text(t)) => t.as_str().to_owned(),
        _ => {
            let none = String::new();
            assert(none@ =~= Seq::empty());
            none
        },
    }
}

/// The texts that are the elements of a member.
pub open spec fn listed_texts(v: Option<JsonView>) -> Seq<Seq<char>> {
    match v {
        Some(JsonView::List(e)) => texts_among(e, e.len() as int),
        _ => Seq::empty(),
    }
}

fn find_texts(v: Option<&Json>, key: &str) -> (r: Vec<String>)
    ensures
        as_texts(r@) == listed_texts(option_of(options_view(v), key@)),
{
    let mut out: Vec<String> = Vec::new();
    assert(as_texts(out@) =~= Seq::empty());
    let found = match find_option(v, key) {
        Some(f) => f,
        None => return out,
    };
    match found {
        Json::List(l) => {
            proof {
                reveal_with_fuel(<Json as View>::view, 2);
                assert(found@->List_0 =~= elements(l@));
            }
            let mut i: usize = 0;
            while i < l.len()
                invariant
                    i <= l@.len(),
                    as_texts(out@) == texts_among(elements(l@), i as int),
                decreases l@.len() - i,
            {
                let ghost before = out@;
                assert(elements(l@)[i as int] == l@[i as int]@);
                match &l[i] {
                    Json::Text(t) => {
                        out.push(t.as_str().to_owned());
                        assert(as_texts(out@) =~= as_texts(before).push(t@));
                    },
                    _ => {},
                }
                i += 1;
            }
            out
        },
        _ => out,
    }
}

/// The options of a secured connection, where `v` is what a script asks for, if that is JSON.
/// Whatever is missing or of another kind is as if nothing was asked for: certificates are checked.
pub fn parse_tls_connect_opts(v: Option<&Json>) -> (r: ConnectOptions)
    ensures
        r.reject_unauthorized == (match option_of(options_view(v), "rejectUnauthorized"@) {
            Some(JsonView::Bool(b)) => b,
            _ => true,
        }),
        r.servername@ == text_or_empty(option_of(options_view(v), "servername"@)),
        as_texts(r.alpn@) == listed_texts(option_of(options_view(v), "alpn"@)),
        r.ca_pem@ == text_or_empty(option_of(options_view(v), "ca"@)),
{
    let reject_unauthorized = match find_option(v, "rejectUnauthorized") {
        Some(Json::Bool(b)) => *b,
        _ => true,
    };
    ConnectOptions {
        reject_unauthorized,
        servername: find_text(v, "servername"),
        alpn: find_texts(v, "alpn"),
        ca_pem: find_text(v, "ca"),
    }
}

/// What an export is called, of which kind it is, and how it is called, as JSON.
pub open spec fn export_members(e: ExportInfo) -> Seq<(Seq<char>, JsonView)> {
    seq![
        ("name"@, JsonView::Text(e.name@)),
        ("kind"@, JsonView::Text(e.kind@)),
        ("param_count"@, JsonView::Int(e.param_count as i64)),
        ("result_count"@, JsonView::Int(e.result_count as i64)),
    ]
}

/// The exports of a module as JSON.
pub fn exports_json(list: &Vec<ExportInfo>) -> (r: Json)
    ensures
        r@ == JsonView::List(
            Seq::new(list@.len(), |i: int| JsonView::Object(export_members(list@[i]))),
        ),
{
    let mut out: Vec<Json> = Vec::new();
    let mut i: usize = 0;
    while i < list.len()
        invariant
            i <= list@.len(),
            out@.len() == i,
            forall|j: int|
                0 <= j < i ==> (#[trigger] out@[j])@ == JsonView::Object(export_members(list@[j])),
        decreases list@.len() - i,
    {
        let e = &list[i];
        let mut o = object_with_text("name", &e.name);
        put(&mut o, "kind", json_text(&e.kind));
        put(&mut o, "param_count", Json::Int(e.param_count as i64));
        put(&mut o, "result_count", Json::Int(e.result_count as i64));
        assert(members(o@) =~= export_members(*e));
        out.push(json_object(o));
        i += 1;
    }
    assert(elements(out@) =~= Seq::new(
        list@.len(),
        |i: int| JsonView::Object(export_members(list@[i])),
    ));
    json_list(out)
}

/// Where an import comes from, what it is called and of which kind it is, as JSON.
pub open spec fn import_members(e: ImportInfo) -> Seq<(Seq<char>, JsonView)> {
    seq![
        ("module"@, JsonView::Text(e.module@)),
        ("name"@, JsonView::Text(e.name@)),
        ("kind"@, JsonView::Text(e.kind@)),
    ]
}

/// The imports of a module as JSON.
pub fn imports_json(list: &Vec<ImportInfo>) -> (r: Json)
    ensures
        r@ == JsonView::List(
            Seq::new(list@.len(), |i: int| JsonView::Object(import_members(list@[i]))),
        ),
{
    let mut out: Vec<Json> = Vec::new();
    let mut i: usize = 0;
    while i < list.len()
        invariant
            i <= list@.len(),
            out@.len() == i,
            forall|j: int|
                0 <= j < i ==> (#[trigger] out@[j])@ == JsonView::Object(import_members(list@[j])),
        decreases list@.len() - i,
    {
        let e = &list[i];
        let mut o = object_with_text("module", &e.module);
        put(&mut o, "name", json_text(&e.name));
        put(&mut o, "kind", json_text(&e.kind));
        assert(members(o@) =~= import_members(*e));
        out.push(json_object(o));
        i += 1;
    }
    assert(elements(out@) =~= Seq::new(
        list@.len(),
        |i: int| JsonView::Object(import_members(list@[i])),
    ));
    json_list(out)
}

/// The results of a call as JSON.
pub fn results_json(list: &Vec<WasmValue>) -> (r: Json)
    ensures
        r@ == JsonView::List(
            Seq::new(list@.len(), |i: int| JsonView::Object(value_members(list@[i]))),
        ),
{
    let mut out: Vec<Json> = Vec::new();
    let mut i: usize = 0;
    while i < list.len()
        invariant
            i <= list@.len(),
            out@.len() == i,
            forall|j: int|
                0 <= j < i ==> (#[trigger] out@[j])@ == JsonView::Object(value_members(list@[j])),
        decreases list@.len() - i,
    {
        out.push(list[i].to_json());
        i += 1;
    }
    assert(elements(out@) =~= Seq::new(
        list@.len(),
        |i: int| JsonView::Object(value_members(list@[i])),
    ));
    json_list(out)
}

/// Whether the first `n` elements are values.
pub open spec fn are_values(e: Seq<JsonView>, floats: Seq<FloatBits>, n: int) -> bool {
    forall|i: int| 0 <= i < n ==> value_in(#[trigger] e[i], floats[i]) is Ok
}

/// The arguments of a call that a script hands over as JSON, where it is a list; `floats` are the
/// values in it as floating-point numbers, one for each element.
pub fn call_arguments(v: Option<&Json>, floats: &Vec<FloatBits>) -> (r: Result<
    Vec<WasmValue>,
    Unready,
>)
    requires
        options_view(v) matches Some(JsonView::List(e)) ==> floats@.len() == e.len(),
    ensures
        match options_view(v) {
            Some(JsonView::List(e)) => match r {
                Ok(args) => {
                    &&& are_values(e, floats@, e.len() as int)
                    &&& args@.len() == e.len()
                    &&& forall|i: int|
                        0 <= i < e.len() ==> value_in(e[i], floats@[i]) == Ok::<
                            WasmValue,
                            Seq<char>,
                        >(#[trigger] args@[i])
                },
                Err(err) => exists|k: int|
                    0 <= k < e.len() && #[trigger] are_values(e, floats@, k) && value_in(
                        e[k],
                        floats@[k],
                    ) is Err && err@ == UnreadyView::Error(
                        ErrorView::Host(value_in(e[k], floats@[k])->Err_0),
                    ),
            },
            _ => r matches Err(err) && err@ == UnreadyView::Note(
                "wasm.call: args must be a JSON array"@,
            ),
        },
{
    let list = match v {
        Some(Json::List(l)) => l,
        _ => {
            return Err(Unready::Note("wasm.call: args must be a JSON array".to_owned()));
        },
    };
    let ghost e = elements(list@);
    proof {
        reveal_with_fuel(<Json as View>::view, 2);
        assert(options_view(v)->0->List_0 =~= e);
    }
    let mut out: Vec<WasmValue> = Vec::new();
    let mut i: usize = 0;
    while i < list.len()
        invariant
            i <= list@.len(),
            e == elements(list@),
            floats@.len() == e.len(),
            options_view(v) == Some(JsonView::List(e)),
            out@.len() == i,
            are_values(e, floats@, i as int),
            forall|j: int|
                0 <= j < i ==> value_in(e[j], floats@[j]) == Ok::<WasmValue, Seq<char>>(
                    #[trigger] out@[j],
                ),
        decreases list@.len() - i,
    {
        assert(e[i as int] == list@[i as int]@);
        match WasmValue::from_json(&list[i], floats[i]) {
            Ok(x) => out.push(x),
            Err(err) => {
                assert(are_values(e, floats@, i as int));
                return Err(Unready::Error(err));
            },
        }
        i += 1;
    }
    Ok(out)
}

/// The parameters of a statement: a list, or the error. `v` is what a script hands over, or what is
/// wrong with it where that is no JSON.
pub fn parse_params(v: Result<Json, String>) -> (r: Result<Vec<Json>, AfterburnerError>)
    ensures
        match v {
            Ok(Json::List(l)) => r == Ok::<Vec<Json>, AfterburnerError>(l),
            Ok(_) => r matches Err(e) && e@ == ErrorView::Host(
                "sqlite3: params must be a JSON array"@,
            ),
            Err(text) => r matches Err(e) && e@ == ErrorView::Host(
                "sqlite3: params JSON parse: "@ + text@,
            ),
        },
{
    match v {
        Ok(Json::List(l)) => Ok(l),
        Ok(_) => Err(AfterburnerError::Host("sqlite3: params must be a JSON array".to_owned())),
        Err(text) => {
            let mut m = "sqlite3: params JSON parse: ".to_owned();
            m.append(&text);
            Err(AfterburnerError::Host(m))
        },
    }
}

/// The arguments of a command: a list of texts, or no text for none; the note that is kept where
/// they are neither. `parsed` is what they are as JSON, if there are any.
pub fn command_arguments(given: &str, parsed: Result<Vec<String>, String>) -> (r: Result<
    Vec<String>,
    String,
>)
    ensures
        if given@.len() == 0 {
            r matches Ok(v) && v@.len() == 0
        } else {
            match parsed {
                Ok(v) => r == Ok::<Vec<String>, String>(v),
                Err(text) => r matches Err(m) && m@ == "child_process: argv parse: "@ + text@,
            }
        },
{
    if given.is_empty() {
        return Ok(Vec::new());
    }
    match parsed {
        Ok(v) => Ok(v),
        Err(text) => {
            let mut m = "child_process: argv parse: ".to_owned();
            m.append(&text);
            Err(m)
        },
    }
}

/// Certificates are checked unless a script says in so many words that they are not to be.
pub proof fn certificates_are_checked_by_default(v: JsonView)
    requires
        member_of(v, "rejectUnauthorized"@) != Some(JsonView::Bool(false)),
    ensures
        match option_of(Some(v), "rejectUnauthorized"@) {
            Some(JsonView::Bool(b)) => b,
            _ => true,
        },
{
}

/// The client gets the status that the script names: every integer from 0 to 65535 as it is; and 500
/// only where the reply names no integer from zero on.
pub proof fn status_is_the_scripts(v: JsonView, n: i64, big: u64)
    ensures
        member_of(v, "status"@) == Some(JsonView::Int(n)) && 0 <= n <= 65535 ==> reply_status(v) == n,
        member_of(v, "status"@) == Some(JsonView::Int(n)) && 0 <= n ==> reply_status(v) as int == n
            as int % 65536,
        member_of(v, "status"@) == Some(JsonView::Int(n)) && n < 0 ==> reply_status(v) == 500,
        member_of(v, "status"@) == Some(JsonView::Big(big)) ==> reply_status(v) as int == big as int
            % 65536,
        member_of(v, "status"@) is None ==> reply_status(v) == 500,
        !(member_of(v, "status"@) matches Some(JsonView::Int(_))) && !(member_of(v, "status"@)
            matches Some(JsonView::Big(_))) ==> reply_status(v) == 500,
{
}

/// The client gets the body that the script names, as UTF-8; an empty one where it names no text.
pub proof fn body_is_the_scripts(v: JsonView, t: Seq<char>)
    ensures
        member_of(v, "body"@) == Some(JsonView::Text(t)) ==> reply_body(v) == encode_utf8(t),
        !(member_of(v, "body"@) matches Some(JsonView::Text(_))) ==> reply_body(v).len() == 0,
{
}

proof fn lemma_header_fields(m: Seq<(Seq<char>, JsonView)>, n: int)
    requires
        0 <= n <= m.len(),
    ensures
        forall|name: Seq<char>, value: Seq<char>|
            header_fields(m, n).contains((name, value)) <==> exists|i: int|
                0 <= i < n && #[trigger] m[i] == (name, JsonView::Text(value)),
        (forall|i: int| 0 <= i < n ==> (#[trigger] m[i]).1 is Text) ==> header_fields(m, n).len()
            == n && forall|i: int|
            0 <= i < n ==> (m[i].0, m[i].1->Text_0) == #[trigger] header_fields(m, n)[i],
    decreases n,
{
    if n > 0 {
        lemma_header_fields(m, n - 1);
        let before = header_fields(m, n - 1);
        let all = header_fields(m, n);
        assert forall|name: Seq<char>, value: Seq<char>|
            all.contains((name, value)) <==> exists|i: int|
                0 <= i < n && #[trigger] m[i] == (name, JsonView::Text(value)) by {
            if let JsonView::Text(t) = m[n - 1].1 {
                assert(all == before.push((m[n - 1].0, t)));
                if before.contains((name, value)) {
                    let k = choose|k: int| 0 <= k < before.len() && before[k] == (name, value);
                    assert(all[k] == (name, value));
                }
                if all.contains((name, value)) && !before.contains((name, value)) {
                    let k = choose|k: int| 0 <= k < all.len() && all[k] == (name, value);
                    if k < before.len() {
                        assert(before[k] == (name, value));
                    }
                    assert(m[n - 1] == (name, JsonView::Text(value)));
                }
                if m[n - 1] == (name, JsonView::Text(value)) {
                    assert(all[before.len() as int] == (name, value));
                }
            }
        }
    }
}

/// The client gets every header that the script names with a text, and no other; where every header
/// is a text, all of them in their order.
pub proof fn headers_are_the_scripts(
    v: JsonView,
    m: Seq<(Seq<char>, JsonView)>,
    name: Seq<char>,
    value: Seq<char>,
)
    ensures
        member_of(v, "headers"@) == Some(JsonView::Object(m)) ==> (reply_headers(v).contains(
            (name, value),
        ) <==> m.contains((name, JsonView::Text(value)))),
        member_of(v, "headers"@) == Some(JsonView::Object(m)) && (forall|i: int|
            0 <= i < m.len() ==> (#[trigger] m[i]).1 is Text) ==> reply_headers(v).len() == m.len()
            && forall|i: int|
            0 <= i < m.len() ==> (m[i].0, m[i].1->Text_0) == #[trigger] reply_headers(v)[i],
        !(member_of(v, "headers"@) matches Some(JsonView::Object(_))) ==> reply_headers(v).len() == 0,
{
    lemma_header_fields(m, m.len() as int);
    if m.contains((name, JsonView::Text(value))) {
        let k = choose|k: int| 0 <= k < m.len() && m[k] == (name, JsonView::Text(value));
        assert(m[k] == (name, JsonView::Text(value)));
    }
}

/// A word below zero stands for the number that its 32 bits are without a sign.
pub proof fn words_are_read_without_a_sign(w: i32)
    ensures
        w >= 0 ==> unsigned_word(w) == w,
        w < 0 ==> unsigned_word(w) == w + 4294967296,
        0 <= unsigned_word(w) <= 4294967295,
{
}

/// The servers that a list names are its pieces between commas, without the white space around them
/// and without the empty ones.
pub proof fn servers_are_the_filled_pieces(parts: Seq<Seq<char>>, i: int)
    requires
        parts.len() > 0,
        forall|k: int| 0 <= k < parts.len() ==> !(#[trigger] parts[k]).contains(','),
        forall|k: int| 0 <= k < parts.len() ==> trimmed(#[trigger] parts[k]).len() > 0,
        0 <= i < parts.len(),
    ensures
        servers_of(joined(parts, seq![','], parts.len() as int)).len() == parts.len(),
        servers_of(joined(parts, seq![','], parts.len() as int))[i] == trimmed(parts[i]),
{
    let n = parts.len() as int;
    pieces_undo_joining(parts, ',', n);
    assert(parts.take(n) =~= parts);
    let t = trimmed_pieces(parts);
    assert forall|k: int| 0 <= k < t.len() implies (#[trigger] t[k]).len() > 0 by {
        assert(trimmed(parts[k]).len() > 0);
    }
    lemma_all_filled(t, n);
    assert(t.take(n) =~= t);
}

proof fn lemma_all_filled(p: Seq<Seq<char>>, n: int)
    requires
        0 <= n <= p.len(),
        forall|k: int| 0 <= k < p.len() ==> (#[trigger] p[k]).len() > 0,
    ensures
        filled(p.take(n)) == p.take(n),
    decreases n,
{
    if n > 0 {
        lemma_all_filled(p, n - 1);
        assert(p.take(n) =~= p.take(n - 1).push(p[n - 1]));
        lemma_filled_push(p.take(n - 1), p[n - 1]);
    } else {
        reveal(Seq::filter);
        assert(filled(p.take(0)) =~= p.take(0));
    }
}

/// No server is empty, and none has white space at its ends.
pub proof fn no_server_is_blank(s: Seq<char>, i: int)
    requires
        0 <= i < servers_of(s).len(),
    ensures
        servers_of(s)[i].len() > 0,
{
    let p = trimmed_pieces(pieces(s, ',', 0));
    p.lemma_filter_pred(|t: Seq<char>| t.len() > 0, i);
}

proof fn lemma_texts_among(e: Seq<JsonView>, n: int)
    requires
        0 <= n <= e.len(),
    ensures
        forall|t: Seq<char>|
            texts_among(e, n).contains(t) <==> exists|i: int|
                0 <= i < n && #[trigger] e[i] == JsonView::Text(t),
        (forall|i: int| 0 <= i < n ==> (#[trigger] e[i]) is Text) ==> texts_among(e, n).len() == n
            && forall|i: int| 0 <= i < n ==> e[i]->Text_0 == #[trigger] texts_among(e, n)[i],
    decreases n,
{
    if n > 0 {
        lemma_texts_among(e, n - 1);
        let before = texts_among(e, n - 1);
        let all = texts_among(e, n);
        assert forall|t: Seq<char>|
            all.contains(t) <==> exists|i: int|
                0 <= i < n && #[trigger] e[i] == JsonView::Text(t) by {
            if let JsonView::Text(last) = e[n - 1] {
                assert(all == before.push(last));
                if before.contains(t) {
                    let k = choose|k: int| 0 <= k < before.len() && before[k] == t;
                    assert(all[k] == t);
                }
                if all.contains(t) && !before.contains(t) {
                    let k = choose|k: int| 0 <= k < all.len() && all[k] == t;
                    if k < before.len() {
                        assert(before[k] == t);
                    }
                    assert(e[n - 1] == JsonView::Text(t));
                }
                if e[n - 1] == JsonView::Text(t) {
                    assert(all[before.len() as int] == t);
                }
            }
        }
    }
}

/// What a script asks for of a secured connection is what it gets: the texts that it names, and of a
/// list the texts in it; nothing where it names none.
pub proof fn options_are_the_scripts(v: JsonView, key: Seq<char>, t: Seq<char>, e: Seq<JsonView>)
    ensures
        member_of(v, key) == Some(JsonView::Text(t)) ==> text_or_empty(option_of(Some(v), key)) == t,
        !(member_of(v, key) matches Some(JsonView::Text(_))) ==> text_or_empty(
            option_of(Some(v), key),
        ).len() == 0,
        text_or_empty(option_of(None, key)).len() == 0,
        member_of(v, key) == Some(JsonView::List(e)) ==> (listed_texts(
            option_of(Some(v), key),
        ).contains(t) <==> e.contains(JsonView::Text(t))),
        member_of(v, key) == Some(JsonView::List(e)) && (forall|i: int|
            0 <= i < e.len() ==> (#[trigger] e[i]) is Text) ==> listed_texts(
            option_of(Some(v), key),
        ).len() == e.len() && forall|i: int|
            0 <= i < e.len() ==> e[i]->Text_0 == #[trigger] listed_texts(
                option_of(Some(v), key),
            )[i],
        !(member_of(v, key) matches Some(JsonView::List(_))) ==> listed_texts(
            option_of(Some(v), key),
        ).len() == 0,
{
    lemma_texts_among(e, e.len() as int);
    if e.contains(JsonView::Text(t)) {
        let k = choose|k: int| 0 <= k < e.len() && e[k] == JsonView::Text(t);
        assert(e[k] == JsonView::Text(t));
    }
}

/// Exports and imports are told with their own names, kinds and numbers.
pub proof fn exports_and_imports_are_told(e: ExportInfo, i: ImportInfo)
    ensures
        member_of(JsonView::Object(export_members(e)), "name"@) == Some(JsonView::Text(e.name@)),
        member_of(JsonView::Object(export_members(e)), "kind"@) == Some(JsonView::Text(e.kind@)),
        member_of(JsonView::Object(export_members(e)), "param_count"@) == Some(
            JsonView::Int(e.param_count as i64),
        ),
        member_of(JsonView::Object(export_members(e)), "result_count"@) == Some(
            JsonView::Int(e.result_count as i64),
        ),
        member_of(JsonView::Object(import_members(i)), "module"@) == Some(JsonView::Text(i.module@)),
        member_of(JsonView::Object(import_members(i)), "name"@) == Some(JsonView::Text(i.name@)),
        member_of(JsonView::Object(import_members(i)), "kind"@) == Some(JsonView::Text(i.kind@)),
{
    reveal_strlit("name");
    reveal_strlit("kind");
    reveal_strlit("param_count");
    reveal_strlit("result_count");
    reveal_strlit("module");
    assert("name"@[0] == 'n' && "kind"@[0] == 'k' && "param_count"@[0] == 'p' && "result_count"@[0]
        == 'r' && "module"@[0] == 'm');
    member_is_the_first_of_its_name(export_members(e), "name"@, 0);
    member_is_the_first_of_its_name(export_members(e), "kind"@, 1);
    member_is_the_first_of_its_name(export_members(e), "param_count"@, 2);
    member_is_the_first_of_its_name(export_members(e), "result_count"@, 3);
    member_is_the_first_of_its_name(import_members(i), "module"@, 0);
    member_is_the_first_of_its_name(import_members(i), "name"@, 1);
    member_is_the_first_of_its_name(import_members(i), "kind"@, 2);
}

} // verus!
