//! What a host answers to a guest.
use vstd::prelude::*;
use vstd::utf8::encode_utf8;

use crate::bytes::bytes_of;
use crate::codec::{
    base64_bytes, base64_encode, base64_of, base64_round_trip, hex_bytes, hex_encode, hex_of,
    hex_round_trip, is_hex, lossy_text, text_lossy,
};
use crate::error::{AfterburnerError, ErrorView};
use crate::host_imports::{encoding_of, failure_of, Encoding, Failure, FailureView, Import};
use crate::host_memory::{error_code, map_err, E_NOT_FOUND, E_OTHER};
use crate::json::{array_text, js_string_literal, object_text, string_literal, truth_text};
use crate::text::{decimal, joined, lower, occurs_in, push_i64, push_u64, same_text};

verus! {

/// What is known of a file.
#[derive(Debug, Clone, Copy)]
pub struct FileStat {
    pub size: u64,
    pub is_file: bool,
    pub is_dir: bool,
    pub mtime_ms: u64,
}

/// An entry of a directory.
#[derive(Debug, Clone)]
pub struct DirEntry {
    pub name: String,
    pub is_file: bool,
    pub is_dir: bool,
    pub is_symlink: bool,
}

/// Something that changed in a directory.
#[derive(Debug, Clone)]
pub struct WatchChange {
    pub kind: String,
    pub filename: String,
}

/// `b` as a script writes it.
pub open spec fn bool_text(b: bool) -> Seq<char> {
    if b {
        "true"@
    } else {
        "false"@
    }
}

fn push_bool(out: &mut String, b: bool)
    ensures
        final(out)@ == old(out)@ + bool_text(b),
{
    if b {
        out.append("true");
    } else {
        out.append("false");
    }
}

/// A list of these parts.
pub open spec fn list_text(parts: Seq<Seq<char>>) -> Seq<char> {
    "["@ + joined(parts, ","@, parts.len() as int) + "]"@
}

/// The size and kind of a file, as a script reads it.
pub open spec fn stat_text(s: FileStat) -> Seq<char> {
    "{\"size\":"@ + decimal(s.size as int) + ",\"isFile\":"@ + bool_text(s.is_file)
        + ",\"isDirectory\":"@ + bool_text(s.is_dir) + ",\"mtimeMs\":"@ + decimal(s.mtime_ms as int)
        + "}"@
}

/// The size and kind of a file, as a script reads it.
pub fn stat_json(s: &FileStat) -> (r: String)
    ensures
        r@ == stat_text(*s),
{
    let mut out = "{\"size\":".to_owned();
    push_u64(&mut out, s.size);
    out.append(",\"isFile\":");
    push_bool(&mut out, s.is_file);
    out.append(",\"isDirectory\":");
    push_bool(&mut out, s.is_dir);
    out.append(",\"mtimeMs\":");
    push_u64(&mut out, s.mtime_ms);
    out.append("}");
    out
}

/// Names as literals.
pub open spec fn name_parts(v: Seq<String>) -> Seq<Seq<char>> {
    Seq::new(v.len(), |i: int| string_literal(v[i]@))
}

/// A list of names, as a script reads it.
pub fn names_json(v: &Vec<String>) -> (r: String)
    ensures
        r@ == list_text(name_parts(v@)),
{
    let mut out = "[".to_owned();
    let mut i: usize = 0;
    let ghost parts = name_parts(v@);
    assert(out@ =~= "["@ + joined(parts, ","@, 0));
    while i < v.len()
        invariant
            i <= v@.len(),
            parts == name_parts(v@),
            out@ == "["@ + joined(parts, ","@, i as int),
        decreases v@.len() - i,
    {
        if i > 0 {
            out.append(",");
        }
        let literal = js_string_literal(&v[i]);
        out.append(&literal);
        assert(parts[i as int] == literal@);
        assert(out@ =~= "["@ + joined(parts, ","@, i + 1));
        i += 1;
    }
    out.append("]");
    out
}

/// Lists of names.
pub open spec fn record_parts(v: Seq<Vec<String>>) -> Seq<Seq<char>> {
    Seq::new(v.len(), |i: int| list_text(name_parts(v[i]@)))
}

/// A list of lists of names, as a script reads it.
pub fn records_json(v: &Vec<Vec<String>>) -> (r: String)
    ensures
        r@ == list_text(record_parts(v@)),
{
    let mut out = "[".to_owned();
    let mut i: usize = 0;
    let ghost parts = record_parts(v@);
    assert(out@ =~= "["@ + joined(parts, ","@, 0));
    while i < v.len()
        invariant
            i <= v@.len(),
            parts == record_parts(v@),
            out@ == "["@ + joined(parts, ","@, i as int),
        decreases v@.len() - i,
    {
        if i > 0 {
            out.append(",");
        }
        let inner = names_json(&v[i]);
        out.append(&inner);
        assert(parts[i as int] == inner@);
        assert(out@ =~= "["@ + joined(parts, ","@, i + 1));
        i += 1;
    }
    out.append("]");
    out
}

/// An entry of a directory, as a script reads it.
pub open spec fn entry_text(e: DirEntry) -> Seq<char> {
    "{\"name\":"@ + string_literal(e.name@) + ",\"isFile\":"@ + bool_text(e.is_file)
        + ",\"isDir\":"@ + bool_text(e.is_dir) + ",\"isSymlink\":"@ + bool_text(e.is_symlink) + "}"@
}

fn push_entry(out: &mut String, e: &DirEntry)
    ensures
        final(out)@ == old(out)@ + entry_text(*e),
{
    out.append("{\"name\":");
    out.append(&js_string_literal(&e.name));
    out.append(",\"isFile\":");
    push_bool(out, e.is_file);
    out.append(",\"isDir\":");
    push_bool(out, e.is_dir);
    out.append(",\"isSymlink\":");
    push_bool(out, e.is_symlink);
    out.append("}");
    assert(out@ =~= old(out)@ + entry_text(*e));
}

/// Entries of a directory.
pub open spec fn entry_parts(v: Seq<DirEntry>) -> Seq<Seq<char>> {
    Seq::new(v.len(), |i: int| entry_text(v[i]))
}

/// The entries of a directory, as a script reads them.
pub fn entries_json(v: &Vec<DirEntry>) -> (r: String)
    ensures
        r@ == list_text(entry_parts(v@)),
{
    let mut out = "[".to_owned();
    let mut i: usize = 0;
    let ghost parts = entry_parts(v@);
    assert(out@ =~= "["@ + joined(parts, ","@, 0));
    while i < v.len()
        invariant
            i <= v@.len(),
            parts == entry_parts(v@),
            out@ == "["@ + joined(parts, ","@, i as int),
        decreases v@.len() - i,
    {
        if i > 0 {
            out.append(",");
        }
        push_entry(&mut out, &v[i]);
        assert(parts[i as int] == entry_text(v@[i as int]));
        assert(out@ =~= "["@ + joined(parts, ","@, i + 1));
        i += 1;
    }
    out.append("]");
    out
}

/// Something that changed, as a script reads it.
pub open spec fn change_text(c: WatchChange) -> Seq<char> {
    "{\"kind\":"@ + string_literal(c.kind@) + ",\"filename\":"@ + string_literal(c.filename@) + "}"@
}

fn push_change(out: &mut String, c: &WatchChange)
    ensures
        final(out)@ == old(out)@ + change_text(*c),
{
    out.append("{\"kind\":");
    out.append(&js_string_literal(&c.kind));
    out.append(",\"filename\":");
    out.append(&js_string_literal(&c.filename));
    out.append("}");
    assert(out@ =~= old(out)@ + change_text(*c));
}

/// Things that changed.
pub open spec fn change_parts(v: Seq<WatchChange>) -> Seq<Seq<char>> {
    Seq::new(v.len(), |i: int| change_text(v[i]))
}

/// What changed in a directory, as a script reads it.
pub fn changes_json(v: &Vec<WatchChange>) -> (r: String)
    ensures
        r@ == list_text(change_parts(v@)),
{
    let mut out = "[".to_owned();
    let mut i: usize = 0;
    let ghost parts = change_parts(v@);
    assert(out@ =~= "["@ + joined(parts, ","@, 0));
    while i < v.len()
        invariant
            i <= v@.len(),
            parts == change_parts(v@),
            out@ == "["@ + joined(parts, ","@, i as int),
        decreases v@.len() - i,
    {
        if i > 0 {
            out.append(",");
        }
        push_change(&mut out, &v[i]);
        assert(parts[i as int] == change_text(v@[i as int]));
        assert(out@ =~= "["@ + joined(parts, ","@, i + 1));
        i += 1;
    }
    out.append("]");
    out
}

/// A response, as a script reads it: its body as text, and in full as base64.
pub open spec fn response_text(status: u16, body: Seq<u8>) -> Seq<char> {
    "{\"status\":"@ + decimal(status as int) + ",\"body\":"@ + string_literal(lossy_text(body))
        + ",\"body_b64\":"@ + string_literal(base64_of(body)) + "}"@
}

/// A response, as a script reads it: its body as text, and in full as base64.
pub fn response_json(status: u16, body: &[u8]) -> (r: String)
    ensures
        r@ == response_text(status, body@),
{
    let mut out = "{\"status\":".to_owned();
    push_u64(&mut out, status as u64);
    out.append(",\"body\":");
    out.append(&js_string_literal(&text_lossy(body)));
    out.append(",\"body_b64\":");
    out.append(&js_string_literal(&base64_encode(body)));
    out.append("}");
    out
}

/// What a command left behind, as a script reads it.
pub open spec fn exec_text(status: i32, stdout: Seq<char>, stderr: Seq<char>) -> Seq<char> {
    "{\"status\":"@ + decimal(status as int) + ",\"stdout\":"@ + string_literal(stdout)
        + ",\"stderr\":"@ + string_literal(stderr) + "}"@
}

/// What a command left behind, as a script reads it.
pub fn exec_json(status: i32, stdout: &str, stderr: &str) -> (r: String)
    ensures
        r@ == exec_text(status, stdout@, stderr@),
{
    let mut out = "{\"status\":".to_owned();
    push_i64(&mut out, status as i64);
    out.append(",\"stdout\":");
    out.append(&js_string_literal(stdout));
    out.append(",\"stderr\":");
    out.append(&js_string_literal(stderr));
    out.append("}");
    out
}

/// An address, as a script reads it.
pub open spec fn address_text(address: Seq<char>, port: u16) -> Seq<char> {
    "{\"address\":"@ + string_literal(address) + ",\"port\":"@ + decimal(port as int) + "}"@
}

/// An address, as a script reads it.
pub fn address_json(address: &str, port: u16) -> (r: String)
    ensures
        r@ == address_text(address@, port),
{
    let mut out = "{\"address\":".to_owned();
    out.append(&js_string_literal(address));
    out.append(",\"port\":");
    push_u64(&mut out, port as u64);
    out.append("}");
    out
}

/// What a statement changed, as a script reads it.
pub open spec fn ran_text(last_id: i64, changes: i64) -> Seq<char> {
    "{\"changes\":"@ + decimal(changes as int) + ",\"lastID\":"@ + decimal(last_id as int) + "}"@
}

/// What a statement changed, as a script reads it.
pub fn ran_json(last_id: i64, changes: i64) -> (r: String)
    ensures
        r@ == ran_text(last_id, changes),
{
    let mut out = "{\"changes\":".to_owned();
    push_i64(&mut out, changes);
    out.append(",\"lastID\":");
    push_i64(&mut out, last_id);
    out.append("}");
    out
}

/// The characters with the numbers of these bytes.
pub open spec fn latin1_text(b: Seq<u8>) -> Seq<char> {
    Seq::new(b.len(), |i: int| b[i] as char)
}

fn latin1(b: &[u8]) -> (r: String)
    ensures
        r@ == latin1_text(b@),
{
    let mut out = String::new();
    let mut i: usize = 0;
    assert(out@ =~= latin1_text(b@.take(0)));
    while i < b.len()
        invariant
            i <= b@.len(),
            out@ == latin1_text(b@.take(i as int)),
        decreases b@.len() - i,
    {
        out.push(b[i] as char);
        assert(out@ =~= latin1_text(b@.take(i + 1)));
        i += 1;
    }
    assert(b@.take(b@.len() as int) =~= b@);
    out
}

/// A digest in the encoding that a script asks for; `None` where there is no such encoding.
pub open spec fn digest_in(encoding: Seq<char>, bytes: Seq<u8>) -> Option<Seq<char>> {
    if encoding == "hex"@ {
        Some(hex_of(bytes))
    } else if encoding == "base64"@ {
        Some(base64_of(bytes))
    } else if encoding == "binary"@ || encoding == "latin1"@ {
        Some(latin1_text(bytes))
    } else if encoding == "utf8"@ || encoding == "utf-8"@ {
        Some(lossy_text(bytes))
    } else {
        None
    }
}

/// A digest in the encoding that a script asks for; `None` where there is no such encoding.
pub fn digest_text(encoding: &str, bytes: &[u8]) -> (r: Option<String>)
    ensures
        match r {
            Some(s) => digest_in(encoding@, bytes@) == Some(s@),
            None => digest_in(encoding@, bytes@) is None,
        },
{
    if same_text(encoding, "hex") {
        Some(hex_encode(bytes))
    } else if same_text(encoding, "base64") {
        Some(base64_encode(bytes))
    } else if same_text(encoding, "binary") || same_text(encoding, "latin1") {
        Some(latin1(bytes))
    } else if same_text(encoding, "utf8") || same_text(encoding, "utf-8") {
        Some(text_lossy(bytes))
    } else {
        None
    }
}

/// What a service says of a call.
#[derive(Debug)]
pub enum ServiceReply {
    Done,
    Flag(bool),
    Number(i64),
    Text(String),
    Bytes(Vec<u8>),
    Names(Vec<String>),
    Records(Vec<Vec<String>>),
    Stat(FileStat),
    Entries(Vec<DirEntry>),
    Changes(Vec<WatchChange>),
    Response(u16, Vec<u8>),
    Exec(i32, String, String),
    Address(String, u16),
    /// The last row that a statement inserted, and how many it changed.
    Ran(i64, i64),
    /// A digest, and the encoding that was asked for.
    Digest(String, Vec<u8>),
    /// What was asked for is not there.
    Missing,
    /// It failed; the error, and the text that it prints.
    Failed(AfterburnerError, String),
    /// A coordinator's own code, and what it says of it; no text where it says nothing.
    Refused(i32, String),
}

/// What goes back to the guest: a number, or bytes for the place that it gave.
#[derive(Debug)]
pub enum Answer {
    Number(i64),
    Out(Vec<u8>),
}

/// [`Answer`] over sequences.
pub enum AnswerView {
    Number(i64),
    Out(Seq<u8>),
}

impl View for Answer {
    type V = AnswerView;

    open spec fn view(&self) -> AnswerView {
        match self {
            Answer::Number(n) => AnswerView::Number(*n),
            Answer::Out(b) => AnswerView::Out(b@),
        }
    }
}

/// Text for the place that the guest gave.
pub open spec fn out_text(t: Seq<char>) -> AnswerView {
    AnswerView::Out(encode_utf8(t))
}

/// Bytes for the place that the guest gave, in an encoding.
pub open spec fn out_bytes(e: Encoding, b: Seq<u8>) -> AnswerView {
    match e {
        Encoding::Base64 => out_text(base64_of(b)),
        Encoding::Hex => out_text(hex_of(b)),
        Encoding::Raw => AnswerView::Out(b),
    }
}

/// The code for a failed service.
pub open spec fn failure_code(f: FailureView, e: ErrorView) -> i32 {
    match f {
        FailureView::Mapped => error_code(e),
        FailureView::Plain(c) => c,
        FailureView::Prefixed(_, c) => c,
    }
}

/// What is said of a failed service, which prints as `text`.
pub open spec fn failure_note(f: FailureView, text: Seq<char>) -> Seq<char> {
    match f {
        FailureView::Prefixed(p, _) => p + text,
        _ => text,
    }
}

/// What goes back to the guest.
pub open spec fn answer_of(i: Import, reply: ServiceReply) -> AnswerView {
    match reply {
        ServiceReply::Done => AnswerView::Number(0),
        ServiceReply::Flag(b) => AnswerView::Number(
            if b {
                1
            } else {
                0
            },
        ),
        ServiceReply::Number(n) => AnswerView::Number(n),
        ServiceReply::Text(t) => out_text(t@),
        ServiceReply::Bytes(b) => out_bytes(encoding_of(i), b@),
        ServiceReply::Names(v) => out_text(list_text(name_parts(v@))),
        ServiceReply::Records(v) => out_text(list_text(record_parts(v@))),
        ServiceReply::Stat(s) => out_text(stat_text(s)),
        ServiceReply::Entries(v) => out_text(list_text(entry_parts(v@))),
        ServiceReply::Changes(v) => out_text(list_text(change_parts(v@))),
        ServiceReply::Response(status, body) => out_text(response_text(status, body@)),
        ServiceReply::Exec(status, out, err) => out_text(exec_text(status, out@, err@)),
        ServiceReply::Address(a, port) => out_text(address_text(a@, port)),
        ServiceReply::Ran(last_id, changes) => out_text(ran_text(last_id, changes)),
        ServiceReply::Digest(encoding, b) => match digest_in(encoding@, b@) {
            Some(t) => out_text(t),
            None => AnswerView::Number(E_OTHER as i64),
        },
        ServiceReply::Missing => AnswerView::Number(E_NOT_FOUND as i64),
        ServiceReply::Failed(e, _) => AnswerView::Number(
            failure_code(failure_of(i), e@) as i64,
        ),
        ServiceReply::Refused(code, _) => AnswerView::Number(code as i64),
    }
}

/// What the guest is told last.
pub open spec fn told_of(i: Import, reply: ServiceReply, before: Seq<char>) -> Seq<char> {
    match reply {
        ServiceReply::Failed(_, text) => failure_note(failure_of(i), text@),
        ServiceReply::Refused(_, text) => if text@.len() == 0 {
            before
        } else {
            text@
        },
        ServiceReply::Digest(encoding, b) => if digest_in(encoding@, b@) is None {
            "hash.digest: unsupported encoding '"@ + encoding@ + "'"@
        } else {
            before
        },
        _ => before,
    }
}

fn out(t: &str) -> (r: Answer)
    ensures
        r@ == out_text(t@),
{
    Answer::Out(bytes_of(t))
}

/// The code for a failed service; what is said of it is kept for the guest.
pub fn service_failed(i: Import, e: &AfterburnerError, text: &str, last_error: &mut String) -> (r: i32)
    ensures
        r == failure_code(failure_of(i), e@),
        final(last_error)@ == failure_note(failure_of(i), text@),
{
    match i.failure() {
        Failure::Mapped => map_err(last_error, e, text),
        Failure::Plain(c) => {
            *last_error = text.to_owned();
            c
        },
        Failure::Prefixed(p, c) => {
            let mut m = p.to_owned();
            m.append(text);
            *last_error = m;
            c
        },
    }
}

/// What goes back to the guest for what a service says of a call of `i`.
pub fn answer(i: Import, reply: &ServiceReply, last_error: &mut String) -> (r: Answer)
    ensures
        r@ == answer_of(i, *reply),
        final(last_error)@ == told_of(i, *reply, old(last_error)@),
{
    match reply {
        ServiceReply::Done => Answer::Number(0),
        ServiceReply::Flag(b) => Answer::Number(
            if *b {
                1
            } else {
                0
            },
        ),
        ServiceReply::Number(n) => Answer::Number(*n),
        ServiceReply::Text(t) => out(t),
        ServiceReply::Bytes(b) => match i.encoding() {
            Encoding::Base64 => out(&base64_encode(b)),
            Encoding::Hex => out(&hex_encode(b)),
            Encoding::Raw => {
                let copy = crate::bytes::slice_of(b, 0, b.len());
                assert(copy@ =~= b@);
                Answer::Out(copy)
            },
        },
        ServiceReply::Names(v) => out(&names_json(v)),
        ServiceReply::Records(v) => out(&records_json(v)),
        ServiceReply::Stat(s) => out(&stat_json(s)),
        ServiceReply::Entries(v) => out(&entries_json(v)),
        ServiceReply::Changes(v) => out(&changes_json(v)),
        ServiceReply::Response(status, body) => out(&response_json(*status, body)),
        ServiceReply::Exec(status, o, e) => out(&exec_json(*status, o, e)),
        ServiceReply::Address(a, port) => out(&address_json(a, *port)),
        ServiceReply::Ran(last_id, changes) => out(&ran_json(*last_id, *changes)),
        ServiceReply::Digest(encoding, b) => match digest_text(encoding, b) {
            Some(t) => out(&t),
            None => {
                let mut m = "hash.digest: unsupported encoding '".to_owned();
                m.append(encoding);
                m.append("'");
                *last_error = m;
                Answer::Number(E_OTHER as i64)
            },
        },
        ServiceReply::Missing => Answer::Number(E_NOT_FOUND as i64),
        ServiceReply::Failed(e, text) => Answer::Number(
            service_failed(i, e, text, last_error) as i64,
        ),
        ServiceReply::Refused(code, text) => {
            if !text.as_str().is_empty() {
                *last_error = text.as_str().to_owned();
            }
            Answer::Number(*code as i64)
        },
    }
}

proof fn lemma_object_of_four(
    a: Seq<char>,
    at: Seq<char>,
    b: Seq<char>,
    bt: Seq<char>,
    c: Seq<char>,
    ct: Seq<char>,
    d: Seq<char>,
    dt: Seq<char>,
)
    ensures
        object_text(seq![(a, at), (b, bt), (c, ct), (d, dt)]) == (seq!['{', '"'] + a + seq![
            '"',
            ':',
        ]) + at + (seq![',', '"'] + b + seq!['"', ':']) + bt + (seq![',', '"'] + c + seq![
            '"',
            ':',
        ]) + ct + (seq![',', '"'] + d + seq!['"', ':']) + dt + seq!['}'],
{
    reveal_with_fuel(joined, 6);
    let fields = seq![(a, at), (b, bt), (c, ct), (d, dt)];
    let parts = Seq::new(
        fields.len(),
        |i: int| seq!['"'] + fields[i].0 + seq!['"', ':'] + fields[i].1,
    );
    assert(parts[0] == seq!['"'] + a + seq!['"', ':'] + at);
    assert(parts[1] == seq!['"'] + b + seq!['"', ':'] + bt);
    assert(parts[2] == seq!['"'] + c + seq!['"', ':'] + ct);
    assert(parts[3] == seq!['"'] + d + seq!['"', ':'] + dt);
    let one = seq!['{', '"'] + a + seq!['"', ':'] + at;
    assert(seq!['{'] + joined(parts, seq![','], 1) =~= one);
    let two = one + (seq![',', '"'] + b + seq!['"', ':']) + bt;
    assert(seq!['{'] + joined(parts, seq![','], 2) =~= two) by {
        assert(seq!['{'] + joined(parts, seq![','], 2) =~= (seq!['{'] + joined(
            parts,
            seq![','],
            1,
        )) + seq![','] + parts[1]);
    }
    let three = two + (seq![',', '"'] + c + seq!['"', ':']) + ct;
    assert(seq!['{'] + joined(parts, seq![','], 3) =~= three) by {
        assert(seq!['{'] + joined(parts, seq![','], 3) =~= (seq!['{'] + joined(
            parts,
            seq![','],
            2,
        )) + seq![','] + parts[2]);
    }
    let four = three + (seq![',', '"'] + d + seq!['"', ':']) + dt;
    assert(seq!['{'] + joined(parts, seq![','], 4) =~= four) by {
        assert(seq!['{'] + joined(parts, seq![','], 4) =~= (seq!['{'] + joined(
            parts,
            seq![','],
            3,
        )) + seq![','] + parts[3]);
    }
}

/// What is known of a file is told as an object with its size, whether it is a file, whether it is a
/// directory, and when it changed.
pub proof fn stat_is_told(s: FileStat)
    ensures
        stat_text(s) == object_text(
            seq![
                ("size"@, decimal(s.size as int)),
                ("isFile"@, truth_text(s.is_file)),
                ("isDirectory"@, truth_text(s.is_dir)),
                ("mtimeMs"@, decimal(s.mtime_ms as int)),
            ],
        ),
{
    reveal_strlit("{\"size\":");
    reveal_strlit(",\"isFile\":");
    reveal_strlit(",\"isDirectory\":");
    reveal_strlit(",\"mtimeMs\":");
    reveal_strlit("size");
    reveal_strlit("isFile");
    reveal_strlit("isDirectory");
    reveal_strlit("mtimeMs");
    reveal_strlit("}");
    reveal_strlit("true");
    reveal_strlit("false");
    assert(bool_text(s.is_file) =~= truth_text(s.is_file));
    assert(bool_text(s.is_dir) =~= truth_text(s.is_dir));
    assert("{\"size\":"@ =~= seq!['{', '"'] + "size"@ + seq!['"', ':']);
    assert(",\"isFile\":"@ =~= seq![',', '"'] + "isFile"@ + seq!['"', ':']);
    assert(",\"isDirectory\":"@ =~= seq![',', '"'] + "isDirectory"@ + seq!['"', ':']);
    assert(",\"mtimeMs\":"@ =~= seq![',', '"'] + "mtimeMs"@ + seq!['"', ':']);
    assert("}"@ =~= seq!['}']);
    lemma_object_of_four(
        "size"@,
        decimal(s.size as int),
        "isFile"@,
        truth_text(s.is_file),
        "isDirectory"@,
        truth_text(s.is_dir),
        "mtimeMs"@,
        decimal(s.mtime_ms as int),
    );
}

/// An entry of a directory is told as an object with its name and what it is.
pub proof fn entry_is_told(e: DirEntry)
    ensures
        entry_text(e) == object_text(
            seq![
                ("name"@, string_literal(e.name@)),
                ("isFile"@, truth_text(e.is_file)),
                ("isDir"@, truth_text(e.is_dir)),
                ("isSymlink"@, truth_text(e.is_symlink)),
            ],
        ),
{
    reveal_strlit("{\"name\":");
    reveal_strlit(",\"isFile\":");
    reveal_strlit(",\"isDir\":");
    reveal_strlit(",\"isSymlink\":");
    reveal_strlit("name");
    reveal_strlit("isFile");
    reveal_strlit("isDir");
    reveal_strlit("isSymlink");
    reveal_strlit("}");
    reveal_strlit("true");
    reveal_strlit("false");
    assert(bool_text(e.is_file) =~= truth_text(e.is_file));
    assert(bool_text(e.is_dir) =~= truth_text(e.is_dir));
    assert(bool_text(e.is_symlink) =~= truth_text(e.is_symlink));
    assert("{\"name\":"@ =~= seq!['{', '"'] + "name"@ + seq!['"', ':']);
    assert(",\"isFile\":"@ =~= seq![',', '"'] + "isFile"@ + seq!['"', ':']);
    assert(",\"isDir\":"@ =~= seq![',', '"'] + "isDir"@ + seq!['"', ':']);
    assert(",\"isSymlink\":"@ =~= seq![',', '"'] + "isSymlink"@ + seq!['"', ':']);
    assert("}"@ =~= seq!['}']);
    lemma_object_of_four(
        "name"@,
        string_literal(e.name@),
        "isFile"@,
        truth_text(e.is_file),
        "isDir"@,
        truth_text(e.is_dir),
        "isSymlink"@,
        truth_text(e.is_symlink),
    );
}

/// A change of a watched file is told as an object with its kind and the file's name.
pub proof fn change_is_told(c: WatchChange)
    ensures
        change_text(c) == object_text(
            seq![
                ("kind"@, string_literal(c.kind@)),
                ("filename"@, string_literal(c.filename@)),
            ],
        ),
{
    reveal_strlit("{\"kind\":");
    reveal_strlit(",\"filename\":");
    reveal_strlit("}");
    reveal_strlit("kind");
    reveal_strlit("filename");
    reveal_with_fuel(joined, 4);
    assert(change_text(c) =~= object_text(
        seq![
            ("kind"@, string_literal(c.kind@)),
            ("filename"@, string_literal(c.filename@)),
        ],
    ));
}

/// A response is told as an object with its status, its body as text, and its body in base64.
pub proof fn response_is_told(status: u16, body: Seq<u8>)
    ensures
        response_text(status, body) == object_text(
            seq![
                ("status"@, decimal(status as int)),
                ("body"@, string_literal(lossy_text(body))),
                ("body_b64"@, string_literal(base64_of(body))),
            ],
        ),
{
    reveal_strlit("{\"status\":");
    reveal_strlit(",\"body\":");
    reveal_strlit(",\"body_b64\":");
    reveal_strlit("}");
    reveal_strlit("status");
    reveal_strlit("body");
    reveal_strlit("body_b64");
    reveal_with_fuel(joined, 5);
    assert(response_text(status, body) =~= object_text(
        seq![
            ("status"@, decimal(status as int)),
            ("body"@, string_literal(lossy_text(body))),
            ("body_b64"@, string_literal(base64_of(body))),
        ],
    ));
}

/// What a command left behind is told as an object with its status, its output and its errors.
pub proof fn command_is_told(status: i32, stdout: Seq<char>, stderr: Seq<char>)
    ensures
        exec_text(status, stdout, stderr) == object_text(
            seq![
                ("status"@, decimal(status as int)),
                ("stdout"@, string_literal(stdout)),
                ("stderr"@, string_literal(stderr)),
            ],
        ),
{
    reveal_strlit("{\"status\":");
    reveal_strlit(",\"stdout\":");
    reveal_strlit(",\"stderr\":");
    reveal_strlit("}");
    reveal_strlit("status");
    reveal_strlit("stdout");
    reveal_strlit("stderr");
    reveal_with_fuel(joined, 5);
    assert(exec_text(status, stdout, stderr) =~= object_text(
        seq![
            ("status"@, decimal(status as int)),
            ("stdout"@, string_literal(stdout)),
            ("stderr"@, string_literal(stderr)),
        ],
    ));
}

/// An address is told as an object with the address and the port.
pub proof fn address_is_told(address: Seq<char>, port: u16)
    ensures
        address_text(address, port) == object_text(
            seq![
                ("address"@, string_literal(address)),
                ("port"@, decimal(port as int)),
            ],
        ),
{
    reveal_strlit("{\"address\":");
    reveal_strlit(",\"port\":");
    reveal_strlit("}");
    reveal_strlit("address");
    reveal_strlit("port");
    reveal_with_fuel(joined, 4);
    assert(address_text(address, port) =~= object_text(
        seq![
            ("address"@, string_literal(address)),
            ("port"@, decimal(port as int)),
        ],
    ));
}

/// What a statement changed is told as an object with the number of rows and the last row's id.
pub proof fn statement_is_told(last_id: i64, changes: i64)
    ensures
        ran_text(last_id, changes) == object_text(
            seq![
                ("changes"@, decimal(changes as int)),
                ("lastID"@, decimal(last_id as int)),
            ],
        ),
{
    reveal_strlit("{\"changes\":");
    reveal_strlit(",\"lastID\":");
    reveal_strlit("}");
    reveal_strlit("changes");
    reveal_strlit("lastID");
    reveal_with_fuel(joined, 4);
    assert(ran_text(last_id, changes) =~= object_text(
        seq![
            ("changes"@, decimal(changes as int)),
            ("lastID"@, decimal(last_id as int)),
        ],
    ));
}

/// A list is told with every element in its place: names as literals, and lists of names as lists.
pub proof fn lists_are_told(names: Seq<String>, records: Seq<Vec<String>>)
    ensures
        list_text(name_parts(names)) == array_text(
            Seq::new(names.len(), |k: int| string_literal(names[k]@)),
        ),
        list_text(record_parts(records)) == array_text(
            Seq::new(
                records.len(),
                |k: int|
                    array_text(
                        Seq::new(records[k]@.len(), |j: int| string_literal(records[k]@[j]@)),
                    ),
            ),
        ),
        forall|entries: Seq<DirEntry>|
            list_text(#[trigger] entry_parts(entries)) == array_text(
                Seq::new(entries.len(), |k: int| entry_text(entries[k])),
            ),
        forall|changes: Seq<WatchChange>|
            list_text(#[trigger] change_parts(changes)) == array_text(
                Seq::new(changes.len(), |k: int| change_text(changes[k])),
            ),
{
    assert forall|parts: Seq<Seq<char>>| #[trigger] list_text(parts) == array_text(parts) by {
        reveal_strlit("[");
        reveal_strlit("]");
        reveal_strlit(",");
        assert(","@ =~= seq![',']);
        assert("["@ =~= seq!['[']);
        assert("]"@ =~= seq![']']);
    }
    assert(record_parts(records) =~= Seq::new(
        records.len(),
        |k: int|
            array_text(Seq::new(records[k]@.len(), |j: int| string_literal(records[k]@[j]@))),
    ));
    assert(name_parts(names) =~= Seq::new(names.len(), |k: int| string_literal(names[k]@)));
}

/// A digest comes in the encoding that was asked for: from hexadecimal and from base64 its bytes can
/// be read, in `binary` and `latin1` every byte is the character with its number, and there is no
/// other encoding but UTF-8.
pub proof fn digest_is_in_the_encoding(encoding: Seq<char>, b: Seq<u8>)
    ensures
        encoding == "hex"@ ==> (digest_in(encoding, b) matches Some(t) && is_hex(t) && hex_bytes(t)
            == b),
        encoding == "base64"@ ==> (digest_in(encoding, b) matches Some(t) && base64_bytes(t)
            == Some(b)),
        encoding == "binary"@ || encoding == "latin1"@ ==> (digest_in(encoding, b) matches Some(t)
            && t.len() == b.len() && forall|i: int|
            0 <= i < b.len() ==> (#[trigger] t[i]) as int == b[i]),
        encoding == "utf8"@ || encoding == "utf-8"@ ==> digest_in(encoding, b) == Some(
            lossy_text(b),
        ),
        encoding != "hex"@ && encoding != "base64"@ && encoding != "binary"@ && encoding
            != "latin1"@ && encoding != "utf8"@ && encoding != "utf-8"@ ==> digest_in(
            encoding,
            b,
        ) is None,
{
    reveal_strlit("hex");
    reveal_strlit("base64");
    reveal_strlit("binary");
    reveal_strlit("latin1");
    reveal_strlit("utf8");
    reveal_strlit("utf-8");
    assert("hex"@.len() == 3 && "base64"@.len() == 6 && "binary"@.len() == 6 && "latin1"@.len() == 6
        && "utf8"@.len() == 4 && "utf-8"@.len() == 5);
    assert("base64"@[1] == 'a' && "binary"@[1] == 'i' && "latin1"@[0] == 'l' && "base64"@[0] == 'b'
        && "binary"@[0] == 'b');
    base64_round_trip(b);
    hex_round_trip(b);
}

/// What a service says goes back as it is: numbers as numbers, yes as one and no as zero, text as its
/// UTF-8, and bytes in the encoding of the function; and what is not there is minus two.
pub proof fn answers_are_what_services_say(
    i: Import,
    n: i64,
    b: bool,
    code: i32,
    t: String,
    v: Vec<u8>,
)
    ensures
        answer_of(i, ServiceReply::Done) == AnswerView::Number(0),
        b ==> answer_of(i, ServiceReply::Flag(b)) == AnswerView::Number(1),
        !b ==> answer_of(i, ServiceReply::Flag(b)) == AnswerView::Number(0),
        answer_of(i, ServiceReply::Number(n)) == AnswerView::Number(n),
        answer_of(i, ServiceReply::Missing) == AnswerView::Number(-2i64),
        answer_of(i, ServiceReply::Text(t)) == AnswerView::Out(encode_utf8(t@)),
        answer_of(i, ServiceReply::Refused(code, t)) == AnswerView::Number(code as i64),
        answer_of(i, ServiceReply::Bytes(v)) == (match encoding_of(i) {
            Encoding::Raw => AnswerView::Out(v@),
            Encoding::Base64 => AnswerView::Out(encode_utf8(base64_of(v@))),
            Encoding::Hex => AnswerView::Out(encode_utf8(hex_of(v@))),
        }),
{
}

/// What a service says of a failure is kept for the guest, behind the function's own words where it
/// has some; a coordinator's words are kept where it says any; and every other answer leaves what
/// was said before.
pub proof fn failures_are_told(i: Import, e: AfterburnerError, text: String, before: Seq<char>)
    ensures
        told_of(i, ServiceReply::Failed(e, text), before).len() >= text@.len(),
        told_of(i, ServiceReply::Failed(e, text), before).skip(
            told_of(i, ServiceReply::Failed(e, text), before).len() - text@.len(),
        ) == text@,
        !(failure_of(i) is Prefixed) ==> told_of(i, ServiceReply::Failed(e, text), before) == text@,
        text@.len() > 0 ==> told_of(i, ServiceReply::Refused(0, text), before) == text@,
        text@.len() == 0 ==> told_of(i, ServiceReply::Refused(0, text), before) == before,
        told_of(i, ServiceReply::Done, before) == before,
        told_of(i, ServiceReply::Missing, before) == before,
        told_of(i, ServiceReply::Text(text), before) == before,
{
    let told = told_of(i, ServiceReply::Failed(e, text), before);
    assert(told.skip(told.len() - text@.len()) =~= text@);
}

/// A failure that a function has no number of its own for is minus one where permission is denied,
/// minus two where something was not found, and minus three otherwise.
pub proof fn failures_have_their_codes(i: Import, e: AfterburnerError, text: String)
    requires
        failure_of(i) is Mapped,
    ensures
        e is PermissionDenied ==> answer_of(i, ServiceReply::Failed(e, text)) == AnswerView::Number(
            -1i64,
        ),
        e matches AfterburnerError::Host(t) ==> answer_of(i, ServiceReply::Failed(e, text))
            == AnswerView::Number(
            if occurs_in("not found"@, lower(t@)) {
                -2i64
            } else {
                -3i64
            },
        ),
        !(e is PermissionDenied) && !(e is Host) ==> answer_of(i, ServiceReply::Failed(e, text))
            == AnswerView::Number(-3i64),
{
}

} // verus!
