//! What a guest asks of its host, and what it is answered.
use std::collections::HashSet;

use afterburner_wasi::error::AfterburnerError;
use afterburner_wasi::host_calls::{admit_call, columnar_reply_bytes, open_call, ArgValue};
use afterburner_wasi::host_imports::{
    crypto_gate, import_at, shape, Codes, Import, Returned, FAILED, IMPORTS, NS,
};
use afterburner_wasi::host_memory::{
    adopt_error, map_err, read_bytes, read_str, write_out, E_BUF_TOO_SMALL, E_NOT_FOUND, E_OTHER,
    E_PERMISSION,
};
use afterburner_wasi::host_replies::{
    address_json, answer, changes_json, digest_text, entries_json, exec_json, names_json,
    records_json, response_json, stat_json, Answer, DirEntry, FileStat, ServiceReply, WatchChange,
};
use afterburner_wasi::host_requests::{details, json_form, Details, JsonForm};
use afterburner_wasi::host_state::HostState;
use afterburner_wasi::host_values::Unready;
use afterburner_wasi::json::Json;
use afterburner_wasi::manifold::Manifold;

const CODES: Codes =
    Codes { other: -7, no_daemon: -1, bad_port: -5, bad_host: -4, bad_payload: -6, bad_cert: -8 };

fn number(a: Answer) -> i64 {
    match a {
        Answer::Number(n) => n,
        Answer::Out(_) => panic!("a number is due"),
    }
}

fn out(a: Answer) -> String {
    match a {
        Answer::Out(b) => String::from_utf8(b).unwrap(),
        Answer::Number(n) => panic!("bytes are due, not {n}"),
    }
}

#[test]
fn imports_have_names_of_their_own() {
    assert_eq!(NS, "afterburner:host");
    let mut names = HashSet::new();
    for n in 0..IMPORTS {
        let i = import_at(n).unwrap();
        assert!(i.name().starts_with("host_"));
        assert!(names.insert(i.name()), "{} twice", i.name());
    }
    assert_eq!(names.len(), 148);
    assert!(import_at(IMPORTS).is_none());
    assert_eq!(Import::FsReadFile.name(), "host_fs_read_file_sync");
    assert_eq!(Import::ColumnarReply.name(), "host_columnar_reply");
}

#[test]
fn imports_return_words_longs_or_nothing() {
    assert_eq!(Import::FsReadFile.result_kind(), Returned::Word);
    assert_eq!(Import::CryptoHashOpen.result_kind(), Returned::Long);
    assert_eq!(Import::TimerClear.result_kind(), Returned::Nothing);
}

#[test]
fn guest_memory_is_read_where_it_lies() {
    let memory = b"hello\xff";
    assert_eq!(read_bytes(memory, 1, 3), Some(b"ell".to_vec()));
    assert_eq!(read_bytes(memory, 6, 0), Some(vec![]));
    assert_eq!(read_bytes(memory, 5, 2), None);
    assert_eq!(read_bytes(memory, -1, 2), None);
    assert_eq!(read_bytes(memory, 0, -1), None);
    assert_eq!(read_str(memory, 0, 5), Some("hello".to_string()));
    assert_eq!(read_str(memory, 4, 2), None);
}

#[test]
fn answers_are_written_where_there_is_room() {
    let mut memory = [0u8; 8];
    let mut error = "as it was".to_string();
    assert_eq!(write_out(&mut memory, &mut error, 2, 4, b"abcd"), 4);
    assert_eq!(&memory, b"\0\0abcd\0\0");
    assert_eq!(read_bytes(&memory, 2, 4), Some(b"abcd".to_vec()));
    assert_eq!(error, "as it was");
    assert_eq!(write_out(&mut memory, &mut error, 0, 3, b"abcd"), E_BUF_TOO_SMALL);
    assert_eq!(error, "output 4 > cap 3");
    assert_eq!(write_out(&mut memory, &mut error, 6, 8, b"abcd"), E_OTHER);
    assert_eq!(&memory, b"\0\0abcd\0\0");
}

#[test]
fn errors_of_services_have_codes() {
    let mut error = String::new();
    let denied = AfterburnerError::PermissionDenied("fs".into());
    assert_eq!(map_err(&mut error, &denied, "permission denied: fs"), E_PERMISSION);
    assert_eq!(error, "permission denied: fs");
    let missing = AfterburnerError::Host("File Not Found: a".into());
    assert_eq!(map_err(&mut error, &missing, "host: a"), E_NOT_FOUND);
    assert_eq!(map_err(&mut error, &AfterburnerError::Host("disk full".into()), "x"), E_OTHER);
    assert_eq!(map_err(&mut error, &AfterburnerError::Timeout, "timeout"), E_OTHER);
    adopt_error(&mut error, String::new());
    assert_eq!(error, "timeout");
    adopt_error(&mut error, "said".into());
    assert_eq!(error, "said");
}

#[test]
fn text_arguments_are_read_from_memory() {
    let mut error = String::new();
    let memory = b"/etc/hosts";
    let args = shape(Import::FsReadFile).args;
    let width: usize = args.iter().map(|a| a.form.width()).sum();
    assert_eq!(width, 4);
    let params = vec![0i64, 10, 0, 0];
    let values =
        open_call(Import::FsReadFile, &CODES, true, Some(memory), &params, &mut error).unwrap();
    match &values[..] {
        [ArgValue::Text(path), ArgValue::Place(0, 0)] => assert_eq!(path, "/etc/hosts"),
        other => panic!("{other:?}"),
    }
}

#[test]
fn guest_without_memory_is_refused() {
    let mut error = String::new();
    let params = vec![0i64, 10, 0, 0];
    let r = open_call(Import::FsReadFile, &CODES, true, None, &params, &mut error);
    assert!(matches!(r, Err(code) if code == E_OTHER));
}

#[test]
fn first_argument_that_does_not_do_is_answered() {
    let mut error = String::new();
    let memory = b"\xff\xfe";
    let params = vec![0i64, 2, 0, 0];
    let r = open_call(Import::FsReadFile, &CODES, true, Some(memory), &params, &mut error);
    assert!(matches!(r, Err(code) if code == E_OTHER));
}

#[test]
fn cryptography_is_asked_for() {
    let mut error = String::new();
    assert_eq!(crypto_gate(Import::CryptoHashOpen, true, &mut error), None);
    assert_eq!(crypto_gate(Import::FsStat, false, &mut error), None);
    assert_eq!(error, "");
    assert!(crypto_gate(Import::CryptoHashOpen, false, &mut error).is_some());
    assert_eq!(error, "crypto.createHash: permission denied");
    assert!(crypto_gate(Import::CryptoHmacOpen, false, &mut error).is_some());
    assert_eq!(error, "crypto.createHmac: permission denied");
}

#[test]
fn answers_of_services_are_encoded() {
    let mut error = String::new();
    assert_eq!(number(answer(Import::FsUnlink, &ServiceReply::Done, &mut error)), 0);
    assert_eq!(number(answer(Import::FsExists, &ServiceReply::Flag(true), &mut error)), 1);
    assert_eq!(number(answer(Import::FsExists, &ServiceReply::Flag(false), &mut error)), 0);
    assert_eq!(number(answer(Import::FsSize, &ServiceReply::Number(77), &mut error)), 77);
    assert_eq!(number(answer(Import::StateGet, &ServiceReply::Missing, &mut error)), -2);
    let hello = ServiceReply::Bytes(b"hello".to_vec());
    assert_eq!(out(answer(Import::FsReadFile, &hello, &mut error)), "aGVsbG8=");
    assert_eq!(out(answer(Import::CryptoHash, &hello, &mut error)), "68656c6c6f");
    assert_eq!(out(answer(Import::GetInput, &hello, &mut error)), "hello");
    assert_eq!(out(answer(Import::OsArch, &ServiceReply::Text("x64".into()), &mut error)), "x64");
    assert_eq!(error, "");
}

#[test]
fn failures_of_services_are_answered() {
    let mut error = String::new();
    let failed =
        || ServiceReply::Failed(AfterburnerError::PermissionDenied("fs".into()), "denied".into());
    assert_eq!(number(answer(Import::FsReadFile, &failed(), &mut error)), E_PERMISSION as i64);
    assert_eq!(error, "denied");
    assert_eq!(number(answer(Import::BcryptHash, &failed(), &mut error)), FAILED as i64);
    assert_eq!(number(answer(Import::SqliteRun, &failed(), &mut error)), E_OTHER as i64);
    assert_eq!(number(answer(Import::EmitRow, &failed(), &mut error)), E_OTHER as i64);
    assert_eq!(error, "emit_row: denied");
    assert_eq!(number(answer(Import::CryptoHashOpen, &failed(), &mut error)), 0);
}

#[test]
fn replies_are_json_texts() {
    let stat = FileStat { size: 5, is_file: true, is_dir: false, mtime_ms: 99 };
    assert_eq!(
        stat_json(&stat),
        r#"{"size":5,"isFile":true,"isDirectory":false,"mtimeMs":99}"#
    );
    assert_eq!(names_json(&vec!["a".into(), "b\"c".into()]), r#"["a","b\"c"]"#);
    assert_eq!(names_json(&vec![]), "[]");
    assert_eq!(
        records_json(&vec![vec!["x".into(), "y".into()], vec![]]),
        r#"[["x","y"],[]]"#
    );
    let entry =
        DirEntry { name: "n".into(), is_file: false, is_dir: true, is_symlink: false };
    assert_eq!(
        entries_json(&vec![entry]),
        r#"[{"name":"n","isFile":false,"isDir":true,"isSymlink":false}]"#
    );
    let change = WatchChange { kind: "change".into(), filename: "f".into() };
    assert_eq!(changes_json(&vec![change]), r#"[{"kind":"change","filename":"f"}]"#);
    assert_eq!(
        response_json(200, b"hi\xff"),
        "{\"status\":200,\"body\":\"hi\u{fffd}\",\"body_b64\":\"aGn/\"}"
    );
    assert_eq!(
        exec_json(-1, "out", "err\n"),
        r#"{"status":-1,"stdout":"out","stderr":"err\n"}"#
    );
    assert_eq!(address_json("127.0.0.1", 80), r#"{"address":"127.0.0.1","port":80}"#);
}

#[test]
fn digests_come_in_the_encoding_asked_for() {
    let bytes = b"\xffab";
    assert_eq!(digest_text("hex", bytes), Some("ff6162".to_string()));
    assert_eq!(digest_text("base64", bytes), Some("/2Fi".to_string()));
    assert_eq!(digest_text("latin1", bytes), Some("\u{ff}ab".to_string()));
    assert_eq!(digest_text("binary", bytes), Some("\u{ff}ab".to_string()));
    assert_eq!(digest_text("utf-8", bytes), Some("\u{fffd}ab".to_string()));
    assert_eq!(digest_text("utf16", bytes), None);
    let mut error = String::new();
    let reply = ServiceReply::Digest("utf16".into(), bytes.to_vec());
    assert_eq!(number(answer(Import::CryptoHashDigest, &reply, &mut error)), E_OTHER as i64);
    assert_eq!(error, "hash.digest: unsupported encoding 'utf16'");
}

#[test]
fn state_answers_for_itself() {
    let state = HostState::new_with_input(b"in".to_vec(), None, 10, Manifold::sealed());
    assert_eq!(out(state.own_answer(Import::GetInput).unwrap()), "in");
    assert_eq!(number(state.own_answer(Import::GetInputLen).unwrap()), 2);
    assert_eq!(out(state.own_answer(Import::LastError).unwrap()), "");
    assert!(state.own_answer(Import::FsReadFile).is_none());
    let mut empty = HostState::new(Some(4096), 10, Manifold::sealed());
    empty.pending_envelope = b"{}".to_vec();
    assert_eq!(out(empty.own_answer(Import::GetEnvelope).unwrap()), "{}");
}

#[test]
fn columnar_reply_is_kept_and_taken_once() {
    let mut state = HostState::new(None, 10, Manifold::sealed());
    assert_eq!(state.columnar_reply(Some(b"..data.."), 2, 4), 0);
    assert_eq!(state.take_columnar_reply(), Some(b"data".to_vec()));
    assert_eq!(state.take_columnar_reply(), None);
    assert!(state.columnar_reply(None, 0, 0) < 0);
    assert!(state.columnar_reply(Some(b"short"), 2, 40) < 0);
    assert_eq!(state.take_columnar_reply(), None);
    let mut error = String::new();
    assert!(columnar_reply_bytes(Some(b"x"), 0, 9, &mut error).is_err());
    assert_eq!(columnar_reply_bytes(Some(b"x"), 0, 1, &mut error), Ok(b"x".to_vec()));
}

#[test]
fn coordinators_answer_with_their_own_codes() {
    let mut error = "before".to_string();
    let refused = ServiceReply::Refused(-9, "tls.connect: denied".into());
    assert_eq!(number(answer(Import::TlsConnect, &refused, &mut error)), -9);
    assert_eq!(error, "tls.connect: denied");
    let silent = ServiceReply::Refused(-4, String::new());
    assert_eq!(number(answer(Import::WorkerSpawn, &silent, &mut error)), -4);
    assert_eq!(error, "tls.connect: denied");
    assert_eq!(
        out(answer(Import::SqliteRun, &ServiceReply::Ran(4, 2), &mut error)),
        r#"{"changes":2,"lastID":4}"#
    );
}

#[test]
fn arguments_become_what_services_work_on() {
    let none = || Ok(Vec::new());
    let text = |t: &str| ArgValue::Text(t.to_string());
    let names = vec![text("a.io"), text(" 1.1.1.1, ,8.8.8.8 ")];
    match details(Import::DnsResolve4, &names, Ok(Json::Null), none()) {
        Ok(Details::Servers(v)) => assert_eq!(v, vec!["1.1.1.1", "8.8.8.8"]),
        other => panic!("{other:?}"),
    }
    let words = vec![
        text("/f"),
        ArgValue::Number(-1),
        ArgValue::Number(1),
        ArgValue::Number(16),
    ];
    match details(Import::FsReadChunk, &words, Ok(Json::Null), none()) {
        Ok(Details::Chunk { offset, length }) => assert_eq!((offset, length), (0x1_ffff_ffff, 16)),
        other => panic!("{other:?}"),
    }
    match details(Import::FsWriteChunk, &words, Ok(Json::Null), none()) {
        Ok(Details::Offset(offset)) => assert_eq!(offset, 0x1_ffff_ffff),
        other => panic!("{other:?}"),
    }
    match details(Import::BcryptHash, &words, Ok(Json::Null), none()) {
        Ok(Details::Cost(cost)) => assert_eq!(cost, 0),
        other => panic!("{other:?}"),
    }
    match details(Import::Argon2Hash, &words, Ok(Json::Null), none()) {
        Ok(Details::Hashing { variant, time, memory, parallelism }) => {
            assert_eq!((variant, time, memory, parallelism), (2, 1, 16, 0))
        }
        other => panic!("{other:?}"),
    }
    assert_eq!(json_form(Import::TlsConnect), JsonForm::Value(2));
    let trusting = Json::Object(vec![("rejectUnauthorized".to_string(), Json::Bool(false))]);
    match details(Import::TlsConnect, &names, Ok(trusting), none()) {
        Ok(Details::Secured(o)) => assert!(!o.reject_unauthorized),
        other => panic!("{other:?}"),
    }
    match details(Import::TlsConnect, &names, Err("eof".to_string()), none()) {
        Ok(Details::Secured(o)) => assert!(o.reject_unauthorized),
        other => panic!("{other:?}"),
    }
    match details(Import::SqliteAll, &names, Ok(Json::List(vec![Json::Null])), none()) {
        Ok(Details::Params(v)) => assert_eq!(v.len(), 1),
        other => panic!("{other:?}"),
    }
    match details(Import::SqliteAll, &names, Err("eof".to_string()), none()) {
        Err(Unready::Error(AfterburnerError::Host(t))) => {
            assert_eq!(t, "sqlite3: params JSON parse: eof")
        }
        other => panic!("{other:?}"),
    }
    assert_eq!(json_form(Import::ChildProcessExec), JsonForm::Texts(1));
    match details(Import::ChildProcessExec, &names, Ok(Json::Null), Err("eof".to_string())) {
        Err(Unready::Note(t)) => assert_eq!(t, "child_process: argv parse: eof"),
        other => panic!("{other:?}"),
    }
    assert!(matches!(details(Import::OsArch, &vec![], Ok(Json::Null), none()), Ok(Details::Plain)));
}

#[test]
fn arguments_are_read_before_cryptography_is_asked_for() {
    let mut error = "before".to_string();
    let memory = b"sha256".to_vec();
    let hash = Import::CryptoHashOpen;
    let opened = |allowed: bool, len: i64, error: &mut String| {
        admit_call(hash, &CODES, true, allowed, Some(&memory), &vec![0, len], error)
    };
    assert!(matches!(opened(false, 99, &mut error), Err(0)));
    assert_eq!(error, "before");
    assert!(matches!(opened(false, 6, &mut error), Err(0)));
    assert_eq!(error, "crypto.createHash: permission denied");
    match opened(true, 6, &mut error).as_deref() {
        Ok([ArgValue::Text(t)]) => assert_eq!(t, "sha256"),
        other => panic!("{other:?}"),
    }
    let hmac = Import::CryptoHmacOpen;
    let memory = b"sha256!!".to_vec();
    let answered =
        admit_call(hmac, &CODES, true, false, Some(&memory), &vec![0, 6, 6, 2], &mut error);
    assert!(matches!(answered, Err(0)));
    assert_eq!(error, "hmac key: invalid base64");
}
