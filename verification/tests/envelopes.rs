//! What goes to a script, as JSON.
use afterburner_wasi::daemon_dgram::{DaemonDgram, DgramEvent};
use afterburner_wasi::daemon_envelopes::{
    dgram_event_to_envelope, http_event_to_envelope, http_outbound_response_to_envelope,
    net_event_to_envelope, tls_event_to_envelope, worker_event_to_envelope, TlsEvent, WorkerEvent,
};
use afterburner_wasi::daemon_http::{DaemonEvent, DaemonHttp};
use afterburner_wasi::daemon_http_outbound::{
    request_timeout_ms, response_event, DaemonHttpOutbound, RequestOutcome, DEFAULT_TIMEOUT_MS,
};
use afterburner_wasi::daemon_inspector::{
    frame_step, json_protocol, json_targets, json_version, DaemonInspector, Frame, FrameStep,
    InspectorEventKind, OnceCell, ERR_ALREADY_OPEN, ERR_BIND, ERR_NOT_OPEN,
};
use afterburner_wasi::daemon_net::{AddrInfo, DaemonNet, NetEvent};
use afterburner_wasi::daemon_runtime::{
    event_envelope, has_listeners, has_refs, init_envelope, map_daemon_trap, GuestTrap,
    ScriptInvocation,
};
use afterburner_wasi::daemon_shard_pool::timer_envelope;
use afterburner_wasi::error::AfterburnerError;
use afterburner_wasi::host::Timers;
use afterburner_wasi::host_values::{
    all_servers_csv, argon2_variant, call_arguments, chunk_length, chunk_offset,
    command_arguments, cost_of, http_reply, input_length, parse_params, parse_servers_csv,
    parse_tls_connect_opts, reply_envelope, results_json, Unready,
};
use afterburner_wasi::json::{js_string_literal, Json};
use afterburner_wasi::manifold::Manifold;
use afterburner_wasi::wasm_engine::{compile_envelope, invoke_envelope, script_envelope};
use afterburner_wasi::wasm_loader::{FloatBits, WasmValue};
use serde_json::{Number, Value};

fn value(v: &Json) -> Value {
    match v {
        Json::Null => Value::Null,
        Json::Bool(b) => Value::Bool(*b),
        Json::Int(n) => Value::Number(Number::from(*n)),
        Json::Big(n) => Value::Number(Number::from(*n)),
        Json::F32(b) => Number::from_f64(f32::from_bits(*b) as f64).map_or(Value::Null, Value::Number),
        Json::F64(b) => Number::from_f64(f64::from_bits(*b)).map_or(Value::Null, Value::Number),
        Json::Text(t) => Value::String(t.clone()),
        Json::List(l) => Value::Array(l.iter().map(value).collect()),
        Json::Object(o) => Value::Object(o.iter().map(|(k, x)| (k.clone(), value(x))).collect()),
    }
}

fn json(v: &Value) -> Json {
    match v {
        Value::Null => Json::Null,
        Value::Bool(b) => Json::Bool(*b),
        Value::Number(n) => match (n.as_i64(), n.as_u64()) {
            (Some(i), _) => Json::Int(i),
            (None, Some(u)) => Json::Big(u),
            _ => Json::F64(n.as_f64().unwrap().to_bits()),
        },
        Value::String(t) => Json::Text(t.clone()),
        Value::Array(l) => Json::List(l.iter().map(json).collect()),
        Value::Object(o) => Json::Object(o.iter().map(|(k, x)| (k.clone(), json(x))).collect()),
    }
}

fn parsed(text: &str) -> Value {
    serde_json::from_str(text).unwrap()
}

fn addr() -> Option<AddrInfo> {
    Some(AddrInfo { address: "::1".into(), ipv4: false, port: 8 })
}

#[test]
fn http_requests_go_to_the_script() {
    let event = DaemonEvent {
        server_id: 1,
        req_id: 2,
        method: "GET".into(),
        url: "/a?b".into(),
        headers: vec![
            ("x".into(), "first".into()),
            ("host".into(), "h".into()),
            ("x".into(), "last".into()),
        ],
        body: b"ok\xff".to_vec(),
    };
    assert_eq!(
        value(&http_event_to_envelope(&event)),
        parsed(
            "{\"kind\":\"http-request\",\"server_id\":1,\"req_id\":2,\"req\":{\"method\":\"GET\",\"url\":\"/a?b\",\"headers\":{\"host\":\"h\",\"x\":\"last\"},\"body\":\"ok\u{fffd}\"}}"
        )
    );
}

#[test]
fn worker_events_go_to_the_script() {
    let (v, reap) = worker_event_to_envelope(&WorkerEvent::Online { worker_id: 3 });
    assert_eq!((value(&v), reap), (parsed(r#"{"kind":"worker-online","worker_id":3}"#), None));
    let message = WorkerEvent::Message { worker_id: 3, payload: "p".into() };
    let (v, reap) = worker_event_to_envelope(&message);
    assert_eq!(
        (value(&v), reap),
        (parsed(r#"{"kind":"worker-message","worker_id":3,"payload":"p"}"#), None)
    );
    let error = WorkerEvent::Error { worker_id: 3, message: "m".into(), stack: "s".into() };
    let (v, reap) = worker_event_to_envelope(&error);
    assert_eq!(
        (value(&v), reap),
        (parsed(r#"{"kind":"worker-error","worker_id":3,"message":"m","stack":"s"}"#), None)
    );
    let (v, reap) = worker_event_to_envelope(&WorkerEvent::Exit { worker_id: 3, code: -1 });
    assert_eq!(
        (value(&v), reap),
        (parsed(r#"{"kind":"worker-exit","worker_id":3,"code":-1}"#), Some(3))
    );
    let (v, reap) = worker_event_to_envelope(&WorkerEvent::ParentMessage { payload: "p".into() });
    assert_eq!((value(&v), reap), (parsed(r#"{"kind":"worker-parent-message","payload":"p"}"#), None));
    let (v, reap) = worker_event_to_envelope(&WorkerEvent::TerminateRequested);
    assert_eq!((value(&v), reap), (parsed(r#"{"kind":"worker-terminate-requested"}"#), None));
}

#[test]
fn net_events_go_to_the_script() {
    let cases = vec![
        (
            NetEvent::Connect { conn_id: 1, local: None, remote: addr() },
            r#"{"kind":"net-connect","conn_id":1,"local":null,"remote":{"address":"::1","family":"IPv6","port":8}}"#,
            None,
        ),
        (
            NetEvent::Connection { server_id: 2, conn_id: 1, local: addr(), remote: None },
            r#"{"kind":"net-connection","server_id":2,"conn_id":1,"local":{"address":"::1","family":"IPv6","port":8},"remote":null}"#,
            None,
        ),
        (
            NetEvent::Data { conn_id: 1, payload_b64: "aGk=".into() },
            r#"{"kind":"net-data","conn_id":1,"payload_b64":"aGk="}"#,
            None,
        ),
        (NetEvent::End { conn_id: 1 }, r#"{"kind":"net-end","conn_id":1}"#, None),
        (NetEvent::Drain { conn_id: 1 }, r#"{"kind":"net-drain","conn_id":1}"#, None),
        (
            NetEvent::Close { conn_id: 1, had_error: true },
            r#"{"kind":"net-close","conn_id":1,"had_error":true}"#,
            Some(1),
        ),
        (
            NetEvent::Error { conn_id: 1, message: "m".into(), code: "c".into() },
            r#"{"kind":"net-error","conn_id":1,"message":"m","code":"c"}"#,
            None,
        ),
        (
            NetEvent::Listening { server_id: 2, port: 80 },
            r#"{"kind":"net-listening","server_id":2,"port":80}"#,
            None,
        ),
        (
            NetEvent::ServerError { server_id: 2, message: "m".into() },
            r#"{"kind":"net-server-error","server_id":2,"message":"m"}"#,
            None,
        ),
    ];
    for (event, text, close) in cases {
        let (v, closes) = net_event_to_envelope(&event);
        assert_eq!((value(&v), closes), (parsed(text), close));
    }
}

#[test]
fn tls_events_go_to_the_script() {
    let connect = TlsEvent::Connect {
        conn_id: 1,
        local: None,
        remote: None,
        alpn_protocol: Some("h2".into()),
        protocol: None,
        authorized: true,
        cipher: Some("c".into()),
        peer_cert_chain_der: vec![vec![0xff, 0x00], vec![]],
    };
    let (v, close) = tls_event_to_envelope(&connect);
    assert_eq!(
        (value(&v), close),
        (
            parsed(
                r#"{"kind":"tls-connect","conn_id":1,"local":null,"remote":null,"alpn_protocol":"h2","protocol":null,"authorized":true,"cipher":"c","peer_cert_chain_der_b64":["/wA=",""]}"#
            ),
            None
        )
    );
    let (v, close) = tls_event_to_envelope(&TlsEvent::Close { conn_id: 4, had_error: false });
    assert_eq!(
        (value(&v), close),
        (parsed(r#"{"kind":"tls-close","conn_id":4,"had_error":false}"#), Some(4))
    );
    let (v, close) = tls_event_to_envelope(&TlsEvent::Listening { server_id: 4, port: 443 });
    assert_eq!(
        (value(&v), close),
        (parsed(r#"{"kind":"tls-listening","server_id":4,"port":443}"#), None)
    );
}

#[test]
fn datagram_events_go_to_the_script() {
    let from = AddrInfo { address: "10.0.0.1".into(), ipv4: true, port: 53 };
    let message = DgramEvent::Message { socket_id: 1, from, payload_b64: "aGk=".into() };
    assert_eq!(
        value(&dgram_event_to_envelope(&message)),
        parsed(
            r#"{"kind":"dgram-message","socketId":1,"payload":"aGk=","from":{"address":"10.0.0.1","port":53,"family":"IPv4"}}"#
        )
    );
    assert_eq!(
        value(&dgram_event_to_envelope(&DgramEvent::Listening { socket_id: 1, port: 2 })),
        parsed(r#"{"kind":"dgram-listening","socketId":1,"port":2}"#)
    );
    let error = DgramEvent::Error { socket_id: 1, message: "m".into(), code: "EACCES".into() };
    assert_eq!(
        value(&dgram_event_to_envelope(&error)),
        parsed(r#"{"kind":"dgram-error","socketId":1,"message":"m","code":"EACCES"}"#)
    );
    assert_eq!(
        value(&dgram_event_to_envelope(&DgramEvent::Close { socket_id: 1 })),
        parsed(r#"{"kind":"dgram-close","socketId":1}"#)
    );
}

#[test]
fn scripts_are_started_with_their_invocation() {
    let invocation = ScriptInvocation {
        argv: vec!["burn".into(), "a.js".into()],
        env: vec![("K".into(), "V".into())],
        cwd: None,
    };
    assert_eq!(
        value(&init_envelope("1+1", &invocation)),
        parsed(
            r#"{"mode":"daemon-init","source":"1+1","argv":["burn","a.js"],"env":{"K":"V"},"cwd":null}"#
        )
    );
    let somewhere = ScriptInvocation { cwd: Some("/tmp".into()), ..invocation };
    assert_eq!(
        value(&script_envelope("script", "1+1", &somewhere)),
        parsed(
            r#"{"mode":"script","source":"1+1","argv":["burn","a.js"],"env":{"K":"V"},"cwd":"/tmp"}"#
        )
    );
    assert_eq!(
        value(&event_envelope(timer_envelope(5))),
        parsed(r#"{"mode":"daemon-event","event":{"kind":"timer-fire","timer_id":5}}"#)
    );
    assert_eq!(
        value(&compile_envelope("compile", "1+1")),
        parsed(r#"{"mode":"compile","source":"1+1"}"#)
    );
    assert_eq!(
        serde_json::from_slice::<Value>(&invoke_envelope("invoke", &[0xff, 0x00])).unwrap(),
        parsed(r#"{"mode":"invoke","bytecode_b64":"/wA="}"#)
    );
}

#[test]
fn traps_of_a_daemon_are_told_apart() {
    assert!(matches!(map_daemon_trap("p", GuestTrap::Exit(3)), AfterburnerError::ProcessExit(3)));
    assert!(matches!(map_daemon_trap("p", GuestTrap::Interrupt), AfterburnerError::Timeout));
    assert!(matches!(map_daemon_trap("p", GuestTrap::OutOfFuel), AfterburnerError::FuelExhausted));
    match map_daemon_trap("daemon-event", GuestTrap::Trap("unreachable".into())) {
        AfterburnerError::WasmTrap(text) => assert_eq!(text, "daemon-event: unreachable"),
        other => panic!("{other:?}"),
    }
    match map_daemon_trap("p", GuestTrap::Chain(vec!["a".into(), "b".into()])) {
        AfterburnerError::WasmTrap(text) => assert_eq!(text, "p: a => b"),
        other => panic!("{other:?}"),
    }
}

#[test]
fn daemon_lives_while_something_is_open() {
    let mut error = String::new();
    let mut http = DaemonHttp::new();
    let mut timers = Timers::new();
    let mut net = DaemonNet::new(Manifold::open());
    let mut dgram = DaemonDgram::new(Manifold::open());
    assert!(!has_refs(&http, &timers, false, None, false, None, None));
    assert!(has_refs(&http, &timers, true, None, false, None, None));
    assert!(has_refs(&http, &timers, false, None, true, None, None));
    assert!(!has_refs(&http, &timers, false, Some(&net), false, None, Some(&dgram)));
    timers.set(true, 10, 0, 0);
    assert!(has_refs(&http, &timers, false, Some(&net), false, None, None));
    timers.unref(1);
    assert!(!has_refs(&http, &timers, false, Some(&net), false, None, None));
    let conn = net.connect("example.com", 80, &mut error).unwrap();
    assert!(has_refs(&http, &timers, false, Some(&net), false, None, None));
    net.mark_closed(conn);
    assert!(!has_refs(&http, &timers, false, Some(&net), false, None, None));
    let (socket, _) = dgram.bind("127.0.0.1", 0, &mut error).unwrap();
    dgram.bound(socket, "127.0.0.1".into(), 4000);
    assert!(has_refs(&http, &timers, false, None, false, None, Some(&dgram)));
    dgram.close(socket);
    assert!(!has_refs(&http, &timers, false, None, false, None, Some(&dgram)));
    assert!(!has_listeners(&http));
    http.register_listener(80);
    assert!(has_listeners(&http));
    assert!(has_refs(&http, &timers, false, Some(&net), false, None, None));
}

#[test]
fn outbound_requests_keep_the_daemon_alive_until_taken() {
    let (http, timers) = (DaemonHttp::new(), Timers::new());
    let stays_up =
        |o: &DaemonHttpOutbound| has_refs(&http, &timers, false, None, false, Some(o), None);
    let mut outbound = DaemonHttpOutbound::new();
    assert!(!stays_up(&outbound));
    assert_eq!(outbound.request(), 1);
    assert!(stays_up(&outbound));
    assert_eq!(outbound.request(), 2);
    assert_eq!(outbound.in_flight_count(), 2);
    assert!(outbound.try_recv_response(None).is_none());
    assert_eq!(outbound.in_flight_count(), 2);
    let response = response_event(
        1,
        RequestOutcome::Response { status: 200, headers: vec![], body: b"hi\xff".to_vec() },
    );
    assert_eq!((response.status, response.body_b64.as_str()), (200, "aGn/"));
    assert_eq!(response.body_text, "hi\u{fffd}");
    assert!(response.error.is_none());
    assert!(outbound.try_recv_response(Some(response)).is_some());
    let failed = response_event(2, RequestOutcome::Failed("refused".into()));
    assert_eq!((failed.status, failed.body_text.as_str()), (0, "__HOST_ERR__:refused"));
    assert_eq!(failed.error.as_deref(), Some("refused"));
    assert!(outbound.has_refs());
    assert!(stays_up(&outbound));
    outbound.try_recv_response(Some(failed));
    assert!(!outbound.has_refs());
    assert!(!stays_up(&outbound));
    let lost = response_event(3, RequestOutcome::Lost("panic".into()));
    assert_eq!(lost.body_text, "__HOST_ERR__:join: panic");
    assert_eq!(lost.error.as_deref(), Some("join: panic"));
    let late = response_event(4, RequestOutcome::TimedOut(60_000));
    assert_eq!((late.req_id, late.status), (4, 0));
    assert_eq!(late.error.as_deref(), Some("timed out after 60000 ms"));
}

#[test]
fn inspector_opens_once() {
    let mut inspector = DaemonInspector::new();
    assert_eq!(inspector.bound_port(), 0);
    assert_eq!(inspector.close(), ERR_NOT_OPEN);
    assert_eq!(inspector.open(), None);
    assert_eq!(inspector.finish_open(None), ERR_BIND);
    assert_eq!(inspector.open(), None);
    assert_eq!(inspector.finish_open(Some(9229)), 9229);
    assert_eq!(inspector.bound_port(), 9229);
    assert_eq!(inspector.open(), Some(ERR_ALREADY_OPEN));
    assert_eq!(inspector.close(), 0);
    assert_eq!(inspector.bound_port(), 0);
}

#[test]
fn inspector_sends_to_the_sessions_that_are_there() {
    let mut inspector = DaemonInspector::new();
    let first = inspector.open_session();
    assert!(matches!(first.kind, InspectorEventKind::SessionOpened));
    assert_eq!(first.session_id, 1);
    assert_eq!(inspector.open_session().session_id, 2);
    let mut all = inspector.send(0);
    all.sort();
    assert_eq!(all, vec![1, 2]);
    assert_eq!(inspector.send(2), vec![2]);
    let left = inspector.close_session(2);
    assert!(matches!(left.kind, InspectorEventKind::SessionClosed));
    assert_eq!(inspector.send(2), Vec::<i64>::new());
    assert_eq!(inspector.send(0), vec![1]);
}

#[test]
fn inspector_frames_are_forwarded_as_text() {
    match frame_step(1, Frame::Text("{}".into())) {
        FrameStep::Forward(e) => match e.kind {
            InspectorEventKind::Message(t) => assert_eq!((e.session_id, t.as_str()), (1, "{}")),
            _ => panic!("a message is due"),
        },
        _ => panic!("the frame goes on"),
    }
    match frame_step(1, Frame::Binary(b"{}".to_vec())) {
        FrameStep::Forward(e) => {
            assert!(matches!(e.kind, InspectorEventKind::Message(t) if t == "{}"))
        }
        _ => panic!("the frame goes on"),
    }
    assert!(matches!(frame_step(1, Frame::Binary(vec![0xff])), FrameStep::Skip));
    assert!(matches!(frame_step(1, Frame::Control), FrameStep::Skip));
    assert!(matches!(frame_step(1, Frame::Closed), FrameStep::Stop));
}

#[test]
fn inspector_describes_its_targets() {
    let targets = value(&json_targets(9229));
    assert_eq!(targets.as_array().unwrap().len(), 1);
    assert!(targets[0]["webSocketDebuggerUrl"].as_str().unwrap().contains("9229"));
    assert!(value(&json_version(9229)).is_object());
    assert!(value(&json_protocol()).is_object());
}

#[test]
fn cell_is_filled_once() {
    let mut cell: OnceCell<u8> = OnceCell::new();
    assert!(cell.take().is_none());
    assert!(cell.set(1));
    assert!(!cell.set(2));
    assert_eq!(cell.take(), Some(1));
    assert_eq!(cell.take(), None);
}

#[test]
fn string_literals_are_escaped() {
    assert_eq!(js_string_literal("a\"b\\c\n\u{1}"), "\"a\\\"b\\\\c\\n\\u0001\"");
    assert_eq!(js_string_literal("é"), "\"é\"");
    for text in ["", "plain", "\u{8}\u{c}\r\t", "\u{1f}\u{7f}"] {
        assert_eq!(parsed(&js_string_literal(text)), Value::String(text.to_string()));
    }
}

#[test]
fn replies_of_scripts_are_read() {
    let reply = reply_envelope(&json(&parsed(
        r#"{"status":201,"headers":{"x":"y"},"body":"hi"}"#,
    )));
    assert_eq!(reply.status, 201);
    assert_eq!(reply.headers, vec![("x".to_string(), "y".to_string())]);
    assert_eq!(reply.body, b"hi".to_vec());
    let mut http = DaemonHttp::with_runtime();
    let id = http.register_pending();
    let v = json(&parsed(r#"{"status":204}"#));
    assert_eq!(http_reply(&mut http, id, &v).unwrap().status, 204);
    assert!(http_reply(&mut http, id, &v).is_none());
    let empty = reply_envelope(&json(&parsed("{}")));
    assert_eq!((empty.status, empty.headers.len(), empty.body.len()), (500, 0, 0));
}

#[test]
fn certificates_are_checked_unless_told_otherwise() {
    let none = parse_tls_connect_opts(None);
    assert!(none.reject_unauthorized);
    assert_eq!((none.servername.as_str(), none.alpn.len()), ("", 0));
    let v = json(&parsed(
        r#"{"rejectUnauthorized":false,"servername":"h","alpn":["h2","http/1.1"],"ca":"PEM"}"#,
    ));
    let opts = parse_tls_connect_opts(Some(&v));
    assert!(!opts.reject_unauthorized);
    assert_eq!((opts.servername.as_str(), opts.ca_pem.as_str()), ("h", "PEM"));
    assert_eq!(opts.alpn, vec!["h2".to_string(), "http/1.1".to_string()]);
    let odd = json(&parsed(r#"{"rejectUnauthorized":"no"}"#));
    assert!(parse_tls_connect_opts(Some(&odd)).reject_unauthorized);
}

#[test]
fn server_lists_are_split_at_commas() {
    assert_eq!(parse_servers_csv(" 1.1.1.1 ,, 8.8.8.8"), vec!["1.1.1.1", "8.8.8.8"]);
    assert_eq!(parse_servers_csv(""), Vec::<String>::new());
    assert_eq!(all_servers_csv("a, ,b "), vec!["a", "", "b"]);
    assert_eq!(all_servers_csv(""), Vec::<String>::new());
}

#[test]
fn numbers_of_calls_are_read() {
    assert_eq!(chunk_offset(5, 0), 5);
    assert_eq!(chunk_offset(-1, 1), (1u64 << 32) + 0xffff_ffff);
    assert_eq!(chunk_length(9), 9);
    assert_eq!(input_length(7), 7);
    assert_eq!(chunk_length(-1), u64::MAX);
    assert_eq!((cost_of(12), cost_of(-3)), (12, 0));
    assert_eq!((argon2_variant(1), argon2_variant(-1)), (1, 2));
}

#[test]
fn parameters_of_statements_are_a_list() {
    let list = parse_params(Ok(json(&parsed("[1,\"a\"]")))).unwrap();
    assert_eq!(list.len(), 2);
    match parse_params(Ok(Json::Null)) {
        Err(AfterburnerError::Host(t)) => assert_eq!(t, "sqlite3: params must be a JSON array"),
        _ => panic!("null is no list"),
    }
    match parse_params(Err("eof".into())) {
        Err(AfterburnerError::Host(t)) => assert_eq!(t, "sqlite3: params JSON parse: eof"),
        _ => panic!("there is nothing to read"),
    }
}

#[test]
fn commands_may_have_no_arguments() {
    assert_eq!(command_arguments("", Err("eof".into())), Ok(vec![]));
    assert_eq!(command_arguments("[\"a\"]", Ok(vec!["a".into()])), Ok(vec!["a".to_string()]));
    assert_eq!(
        command_arguments("[", Err("eof".into())),
        Err("child_process: argv parse: eof".to_string())
    );
}

#[test]
fn arguments_of_exports_are_read() {
    let floats = vec![FloatBits { single: 0, double: 0 }; 2];
    let v = json(&parsed(r#"[{"type":"i32","value":5},{"type":"i64","value":"-6"}]"#));
    assert_eq!(
        call_arguments(Some(&v), &floats).unwrap(),
        vec![WasmValue::I32(5), WasmValue::I64(-6)]
    );
    match call_arguments(None, &vec![]) {
        Err(Unready::Note(t)) => assert_eq!(t, "wasm.call: args must be a JSON array"),
        _ => panic!("no list was given"),
    }
    let odd = json(&parsed(r#"[{"value":5}]"#));
    match call_arguments(Some(&odd), &vec![FloatBits { single: 0, double: 0 }]) {
        Err(Unready::Error(AfterburnerError::Host(t))) => {
            assert_eq!(t, "WasmValue: missing `type`")
        }
        _ => panic!("that is no value"),
    }
    assert_eq!(
        value(&results_json(&vec![WasmValue::I32(5), WasmValue::I64(-6)])),
        parsed(r#"[{"type":"i32","value":5},{"type":"i64","value":"-6"}]"#)
    );
}

#[test]
fn requests_do_not_wait_for_ever() {
    assert_eq!(DEFAULT_TIMEOUT_MS, 60_000);
    assert_eq!(request_timeout_ms(None, None), 60_000);
    assert_eq!(request_timeout_ms(Some(5), None), 5);
    assert_eq!(request_timeout_ms(Some(90_000), Some(1_000)), 1_000);
    assert_eq!(request_timeout_ms(Some(500), Some(1_000)), 500);
    assert_eq!(request_timeout_ms(None, Some(70_000)), 60_000);
}

#[test]
fn responses_to_requests_are_told() {
    let response = response_event(
        7,
        RequestOutcome::Response {
            status: 201,
            headers: vec![("x".into(), "1".into()), ("y".into(), "2".into()), ("x".into(), "3".into())],
            body: b"hi".to_vec(),
        },
    );
    assert_eq!(
        value(&http_outbound_response_to_envelope(&response)),
        parsed(
            r#"{"kind":"http-response","req_id":7,"status":201,"headers":{"x":"3","y":"2"},
                "body_b64":"aGk=","body_text":"hi","error":null}"#
        )
    );
    let failed = response_event(8, RequestOutcome::Failed("refused".into()));
    assert_eq!(
        value(&http_outbound_response_to_envelope(&failed)),
        parsed(
            r#"{"kind":"http-response","req_id":8,"status":0,"headers":{},"body_b64":"",
                "body_text":"__HOST_ERR__:refused","error":"refused"}"#
        )
    );
}
