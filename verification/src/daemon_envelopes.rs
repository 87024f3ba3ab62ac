//! Events of a daemon as the JSON envelopes that its script gets.
//!
//! Every kind of event becomes an object whose `kind` member names it. Where an event is the last of
//! a connection or of a worker, its id comes with the envelope, so that the caller can forget it
//! once the script has been told.
use vstd::prelude::*;

use crate::codec::{base64_encode, base64_of, lossy_text, text_lossy};
use crate::daemon_dgram::{DgramEvent, DgramEventView};
use crate::daemon_http::DaemonEvent;
use crate::daemon_http_outbound::HttpOutboundResponseEvent;
use crate::daemon_net::{addr_view, AddrInfo, AddrView, NetEvent, NetEventView};
use crate::json::{
    elements, json_list, json_maybe, json_object, json_text, member_is_the_first_of_its_name,
    member_of, members, object_with_text, put, Json, JsonView,
};
use crate::text::same_text;

verus! {

/// Header names with their values, over sequences.
pub open spec fn header_views(h: Seq<(String, String)>) -> Seq<(Seq<char>, Seq<char>)> {
    Seq::new(h.len(), |i: int| (h[i].0@, h[i].1@))
}

/// Whether the name of header `i` comes again behind it.
pub open spec fn comes_again(h: Seq<(Seq<char>, Seq<char>)>, i: int) -> bool {
    exists|j: int| i < j < h.len() && (#[trigger] h[j]).0 == h[i].0
}

/// The headers from `i` on as members of an object: of those with one name the last.
pub open spec fn header_members(h: Seq<(Seq<char>, Seq<char>)>, i: int) -> Seq<
    (Seq<char>, JsonView),
>
    decreases h.len() - i,
{
    if i < 0 || i >= h.len() {
        Seq::empty()
    } else if comes_again(h, i) {
        header_members(h, i + 1)
    } else {
        seq![(h[i].0, JsonView::Text(h[i].1))] + header_members(h, i + 1)
    }
}

fn headers_json(headers: &Vec<(String, String)>) -> (r: Json)
    ensures
        r@ == JsonView::Object(header_members(header_views(headers@), 0)),
{
    let ghost h = header_views(headers@);
    let mut out: Vec<(String, Json)> = Vec::new();
    let mut i: usize = 0;
    assert(members(out@) + header_members(h, 0) =~= header_members(h, 0));
    while i < headers.len()
        invariant
            i <= headers@.len(),
            h == header_views(headers@),
            members(out@) + header_members(h, i as int) == header_members(h, 0),
        decreases headers@.len() - i,
    {
        let mut again = false;
        let mut j: usize = i + 1;
        while j < headers.len()
            invariant
                i < j <= headers@.len(),
                h == header_views(headers@),
                again == exists|k: int| i < k < j && (#[trigger] h[k]).0 == h[i as int].0,
            decreases headers@.len() - j,
        {
            let same = same_text(&headers[j].0, &headers[i].0);
            assert(h[j as int].0 == headers@[j as int].0@);
            assert(h[i as int].0 == headers@[i as int].0@);
            if same {
                again = true;
            }
            j += 1;
        }
        let ghost before = members(out@);
        let ghost rest = header_members(h, i + 1);
        if !again {
            put(&mut out, &headers[i].0, json_text(&headers[i].1));
            proof {
                let this = (h[i as int].0, JsonView::Text(h[i as int].1));
                assert(members(out@) == before.push(this));
                assert(before + (seq![this] + rest) =~= before.push(this) + rest);
            }
        }
        i += 1;
    }
    assert(members(out@) + Seq::empty() =~= members(out@));
    json_object(out)
}

/// The envelope of a request.
pub open spec fn http_envelope(e: DaemonEvent) -> JsonView {
    JsonView::Object(
        seq![
            ("kind"@, JsonView::Text("http-request"@)),
            ("server_id"@, JsonView::Int(e.server_id as i64)),
            ("req_id"@, JsonView::Int(e.req_id)),
            (
                "req"@,
                JsonView::Object(
                    seq![
                        ("method"@, JsonView::Text(e.method@)),
                        ("url"@, JsonView::Text(e.url@)),
                        (
                            "headers"@,
                            JsonView::Object(header_members(header_views(e.headers@), 0)),
                        ),
                        ("body"@, JsonView::Text(lossy_text(e.body@))),
                    ],
                ),
            ),
        ],
    )
}

/// The envelope of a request. Its body goes in as text, with what is no UTF-8 replaced.
pub fn http_event_to_envelope(event: &DaemonEvent) -> (r: Json)
    ensures
        r@ == http_envelope(*event),
{
    let mut req = object_with_text("method", &event.method);
    put(&mut req, "url", json_text(&event.url));
    put(&mut req, "headers", headers_json(&event.headers));
    put(&mut req, "body", Json::Text(text_lossy(&event.body)));
    assert(members(req@) =~= seq![
        ("method"@, JsonView::Text(event.method@)),
        ("url"@, JsonView::Text(event.url@)),
        ("headers"@, JsonView::Object(header_members(header_views(event.headers@), 0))),
        ("body"@, JsonView::Text(lossy_text(event.body@))),
    ]);
    let mut o = object_with_text("kind", "http-request");
    put(&mut o, "server_id", Json::Int(event.server_id as i64));
    put(&mut o, "req_id", Json::Int(event.req_id));
    put(&mut o, "req", json_object(req));
    let r = json_object(o);
    assert(r@->Object_0 =~= http_envelope(*event)->Object_0);
    r
}

/// The members of the envelope of a response to a script's own request.
pub open spec fn http_response_envelope(e: HttpOutboundResponseEvent) -> Seq<(Seq<char>, JsonView)> {
    seq![
        ("kind"@, JsonView::Text("http-response"@)),
        ("req_id"@, JsonView::Int(e.req_id)),
        ("status"@, JsonView::Int(e.status as i64)),
        ("headers"@, JsonView::Object(header_members(header_views(e.headers@), 0))),
        ("body_b64"@, JsonView::Text(e.body_b64@)),
        ("body_text"@, JsonView::Text(e.body_text@)),
        ("error"@, maybe_text(e.error)),
    ]
}

/// The envelope of a response to a script's own request.
pub fn http_outbound_response_to_envelope(e: &HttpOutboundResponseEvent) -> (r: Json)
    ensures
        r@ == JsonView::Object(http_response_envelope(*e)),
{
    let mut o = object_with_text("kind", "http-response");
    put(&mut o, "req_id", Json::Int(e.req_id));
    put(&mut o, "status", Json::Int(e.status as i64));
    put(&mut o, "headers", headers_json(&e.headers));
    put(&mut o, "body_b64", json_text(&e.body_b64));
    put(&mut o, "body_text", json_text(&e.body_text));
    put(&mut o, "error", json_maybe(&e.error));
    assert(members(o@) =~= http_response_envelope(*e));
    json_object(o)
}

/// What happened to a worker.
#[derive(Debug, Clone)]
pub enum WorkerEvent {
    Online { worker_id: i32 },
    Message { worker_id: i32, payload: String },
    Error { worker_id: i32, message: String, stack: String },
    Exit { worker_id: i32, code: i32 },
    ParentMessage { payload: String },
    TerminateRequested,
}

/// The members of a worker's envelope.
pub open spec fn worker_envelope(e: WorkerEvent) -> Seq<(Seq<char>, JsonView)> {
    match e {
        WorkerEvent::Online { worker_id } => seq![
            ("kind"@, JsonView::Text("worker-online"@)),
            ("worker_id"@, JsonView::Int(worker_id as i64)),
        ],
        WorkerEvent::Message { worker_id, payload } => seq![
            ("kind"@, JsonView::Text("worker-message"@)),
            ("worker_id"@, JsonView::Int(worker_id as i64)),
            ("payload"@, JsonView::Text(payload@)),
        ],
        WorkerEvent::Error { worker_id, message, stack } => seq![
            ("kind"@, JsonView::Text("worker-error"@)),
            ("worker_id"@, JsonView::Int(worker_id as i64)),
            ("message"@, JsonView::Text(message@)),
            ("stack"@, JsonView::Text(stack@)),
        ],
        WorkerEvent::Exit { worker_id, code } => seq![
            ("kind"@, JsonView::Text("worker-exit"@)),
            ("worker_id"@, JsonView::Int(worker_id as i64)),
            ("code"@, JsonView::Int(code as i64)),
        ],
        WorkerEvent::ParentMessage { payload } => seq![
            ("kind"@, JsonView::Text("worker-parent-message"@)),
            ("payload"@, JsonView::Text(payload@)),
        ],
        WorkerEvent::TerminateRequested => seq![
            ("kind"@, JsonView::Text("worker-terminate-requested"@)),
        ],
    }
}

/// The envelope of a worker's event, with the worker to forget where it was its last.
pub fn worker_event_to_envelope(evt: &WorkerEvent) -> (r: (Json, Option<i32>))
    ensures
        r.0@ == JsonView::Object(worker_envelope(*evt)),
        r.1 == (match *evt {
            WorkerEvent::Exit { worker_id, .. } => Some(worker_id),
            _ => None,
        }),
{
    let mut last: Option<i32> = None;
    let o = match evt {
        WorkerEvent::Online { worker_id } => {
            let mut o = object_with_text("kind", "worker-online");
            put(&mut o, "worker_id", Json::Int(*worker_id as i64));
            o
        },
        WorkerEvent::Message { worker_id, payload } => {
            let mut o = object_with_text("kind", "worker-message");
            put(&mut o, "worker_id", Json::Int(*worker_id as i64));
            put(&mut o, "payload", json_text(payload));
            o
        },
        WorkerEvent::Error { worker_id, message, stack } => {
            let mut o = object_with_text("kind", "worker-error");
            put(&mut o, "worker_id", Json::Int(*worker_id as i64));
            put(&mut o, "message", json_text(message));
            put(&mut o, "stack", json_text(stack));
            o
        },
        WorkerEvent::Exit { worker_id, code } => {
            let mut o = object_with_text("kind", "worker-exit");
            put(&mut o, "worker_id", Json::Int(*worker_id as i64));
            put(&mut o, "code", Json::Int(*code as i64));
            last = Some(*worker_id);
            o
        },
        WorkerEvent::ParentMessage { payload } => {
            let mut o = object_with_text("kind", "worker-parent-message");
            put(&mut o, "payload", json_text(payload));
            o
        },
        WorkerEvent::TerminateRequested => object_with_text("kind", "worker-terminate-requested"),
    };
    assert(members(o@) =~= worker_envelope(*evt));
    (json_object(o), last)
}

/// The words for an address family.
pub open spec fn family_text(ipv4: bool) -> Seq<char> {
    if ipv4 {
        "IPv4"@
    } else {
        "IPv6"@
    }
}

fn family(ipv4: bool) -> (r: &'static str)
    ensures
        r@ == family_text(ipv4),
{
    if ipv4 {
        "IPv4"
    } else {
        "IPv6"
    }
}

/// An address as JSON: an object, or null where there is none.
pub open spec fn addr_members(a: Option<AddrView>) -> JsonView {
    match a {
        Some(a) => JsonView::Object(
            seq![
                ("address"@, JsonView::Text(a.address)),
                ("family"@, JsonView::Text(family_text(a.ipv4))),
                ("port"@, JsonView::Int(a.port as i64)),
            ],
        ),
        None => JsonView::Null,
    }
}

fn addr_json(addr: &Option<AddrInfo>) -> (r: Json)
    ensures
        r@ == addr_members(addr_view(*addr)),
{
    match addr {
        Some(a) => {
            let mut o = object_with_text("address", &a.address);
            put(&mut o, "family", json_text(family(a.ipv4)));
            put(&mut o, "port", Json::Int(a.port as i64));
            let r = json_object(o);
            assert(r@->Object_0 =~= addr_members(addr_view(*addr))->Object_0);
            r
        },
        None => Json::Null,
    }
}

/// The members of a connection's envelope.
pub open spec fn net_envelope(e: NetEventView) -> Seq<(Seq<char>, JsonView)> {
    match e {
        NetEventView::Connect { conn_id, local, remote } => seq![
            ("kind"@, JsonView::Text("net-connect"@)),
            ("conn_id"@, JsonView::Int(conn_id as i64)),
            ("local"@, addr_members(local)),
            ("remote"@, addr_members(remote)),
        ],
        NetEventView::Connection { server_id, conn_id, local, remote } => seq![
            ("kind"@, JsonView::Text("net-connection"@)),
            ("server_id"@, JsonView::Int(server_id as i64)),
            ("conn_id"@, JsonView::Int(conn_id as i64)),
            ("local"@, addr_members(local)),
            ("remote"@, addr_members(remote)),
        ],
        NetEventView::Data { conn_id, payload_b64 } => seq![
            ("kind"@, JsonView::Text("net-data"@)),
            ("conn_id"@, JsonView::Int(conn_id as i64)),
            ("payload_b64"@, JsonView::Text(payload_b64)),
        ],
        NetEventView::End { conn_id } => seq![
            ("kind"@, JsonView::Text("net-end"@)),
            ("conn_id"@, JsonView::Int(conn_id as i64)),
        ],
        NetEventView::Drain { conn_id } => seq![
            ("kind"@, JsonView::Text("net-drain"@)),
            ("conn_id"@, JsonView::Int(conn_id as i64)),
        ],
        NetEventView::Close { conn_id, had_error } => seq![
            ("kind"@, JsonView::Text("net-close"@)),
            ("conn_id"@, JsonView::Int(conn_id as i64)),
            ("had_error"@, JsonView::Bool(had_error)),
        ],
        NetEventView::Error { conn_id, message, code } => seq![
            ("kind"@, JsonView::Text("net-error"@)),
            ("conn_id"@, JsonView::Int(conn_id as i64)),
            ("message"@, JsonView::Text(message)),
            ("code"@, JsonView::Text(code)),
        ],
        NetEventView::Listening { server_id, port } => seq![
            ("kind"@, JsonView::Text("net-listening"@)),
            ("server_id"@, JsonView::Int(server_id as i64)),
            ("port"@, JsonView::Int(port as i64)),
        ],
        NetEventView::ServerError { server_id, message } => seq![
            ("kind"@, JsonView::Text("net-server-error"@)),
            ("server_id"@, JsonView::Int(server_id as i64)),
            ("message"@, JsonView::Text(message)),
        ],
    }
}

/// An object of a kind and an id.
fn kind_and_id(kind: &str, key: &str, id: i32) -> (r: Vec<(String, Json)>)
    ensures
        members(r@) == seq![
            ("kind"@, JsonView::Text(kind@)),
            (key@, JsonView::Int(id as i64)),
        ],
{
    let mut o = object_with_text("kind", kind);
    put(&mut o, key, Json::Int(id as i64));
    assert(members(o@) =~= seq![
        ("kind"@, JsonView::Text(kind@)),
        (key@, JsonView::Int(id as i64)),
    ]);
    o
}

/// The envelope of a connection's event, with the connection to forget where it was its last.
pub fn net_event_to_envelope(evt: &NetEvent) -> (r: (Json, Option<i32>))
    ensures
        r.0@ == JsonView::Object(net_envelope(evt@)),
        r.1 == (match *evt {
            NetEvent::Close { conn_id, .. } => Some(conn_id),
            _ => None,
        }),
{
    let mut last: Option<i32> = None;
    let o = match evt {
        NetEvent::Connect { conn_id, local, remote } => {
            let mut o = kind_and_id("net-connect", "conn_id", *conn_id);
            put(&mut o, "local", addr_json(local));
            put(&mut o, "remote", addr_json(remote));
            o
        },
        NetEvent::Connection { server_id, conn_id, local, remote } => {
            let mut o = kind_and_id("net-connection", "server_id", *server_id);
            put(&mut o, "conn_id", Json::Int(*conn_id as i64));
            put(&mut o, "local", addr_json(local));
            put(&mut o, "remote", addr_json(remote));
            o
        },
        NetEvent::Data { conn_id, payload_b64 } => {
            let mut o = kind_and_id("net-data", "conn_id", *conn_id);
            put(&mut o, "payload_b64", json_text(payload_b64));
            o
        },
        NetEvent::End { conn_id } => kind_and_id("net-end", "conn_id", *conn_id),
        NetEvent::Drain { conn_id } => kind_and_id("net-drain", "conn_id", *conn_id),
        NetEvent::Close { conn_id, had_error } => {
            let mut o = kind_and_id("net-close", "conn_id", *conn_id);
            put(&mut o, "had_error", Json::Bool(*had_error));
            last = Some(*conn_id);
            o
        },
        NetEvent::Error { conn_id, message, code } => {
            let mut o = kind_and_id("net-error", "conn_id", *conn_id);
            put(&mut o, "message", json_text(message));
            put(&mut o, "code", json_text(code));
            o
        },
        NetEvent::Listening { server_id, port } => {
            let mut o = kind_and_id("net-listening", "server_id", *server_id);
            put(&mut o, "port", Json::Int(*port as i64));
            o
        },
        NetEvent::ServerError { server_id, message } => {
            let mut o = kind_and_id("net-server-error", "server_id", *server_id);
            put(&mut o, "message", json_text(message));
            o
        },
    };
    assert(members(o@) =~= net_envelope(evt@));
    (json_object(o), last)
}

/// What happened on a TLS connection or a TLS server.
#[derive(Debug, Clone)]
pub enum TlsEvent {
    Connect {
        conn_id: i32,
        local: Option<AddrInfo>,
        remote: Option<AddrInfo>,
        alpn_protocol: Option<String>,
        protocol: Option<String>,
        authorized: bool,
        cipher: Option<String>,
        /// The peer's certificates, each in DER.
        peer_cert_chain_der: Vec<Vec<u8>>,
    },
    Connection {
        server_id: i32,
        conn_id: i32,
        local: Option<AddrInfo>,
        remote: Option<AddrInfo>,
        alpn_protocol: Option<String>,
        protocol: Option<String>,
        cipher: Option<String>,
        /// The peer's certificates, each in DER.
        peer_cert_chain_der: Vec<Vec<u8>>,
    },
    Data { conn_id: i32, payload_b64: String },
    End { conn_id: i32 },
    Drain { conn_id: i32 },
    Close { conn_id: i32, had_error: bool },
    Error { conn_id: i32, message: String, code: String },
    Listening { server_id: i32, port: u16 },
    ServerError { server_id: i32, message: String },
}

/// A text or null.
pub open spec fn maybe_text(s: Option<String>) -> JsonView {
    match s {
        Some(t) => JsonView::Text(t@),
        None => JsonView::Null,
    }
}

/// Certificates as a list of base64 texts.
pub open spec fn cert_chain(chain: Seq<Vec<u8>>) -> JsonView {
    JsonView::List(Seq::new(chain.len(), |i: int| JsonView::Text(base64_of(chain[i]@))))
}

fn cert_chain_to_b64(chain: &Vec<Vec<u8>>) -> (r: Json)
    ensures
        r@ == cert_chain(chain@),
{
    let mut v: Vec<Json> = Vec::new();
    let mut i: usize = 0;
    while i < chain.len()
        invariant
            i <= chain@.len(),
            v@.len() == i,
            forall|j: int|
                0 <= j < i ==> (#[trigger] v@[j])@ == JsonView::Text(base64_of(chain@[j]@)),
        decreases chain@.len() - i,
    {
        v.push(Json::Text(base64_encode(&chain[i])));
        i += 1;
    }
    assert(elements(v@) =~= Seq::new(
        chain@.len(),
        |i: int| JsonView::Text(base64_of(chain@[i]@)),
    ));
    json_list(v)
}

/// The members of a TLS connection's envelope.
pub open spec fn tls_envelope(e: TlsEvent) -> Seq<(Seq<char>, JsonView)> {
    match e {
        TlsEvent::Connect {
            conn_id,
            local,
            remote,
            alpn_protocol,
            protocol,
            authorized,
            cipher,
            peer_cert_chain_der,
        } => seq![
            ("kind"@, JsonView::Text("tls-connect"@)),
            ("conn_id"@, JsonView::Int(conn_id as i64)),
            ("local"@, addr_members(addr_view(local))),
            ("remote"@, addr_members(addr_view(remote))),
            ("alpn_protocol"@, maybe_text(alpn_protocol)),
            ("protocol"@, maybe_text(protocol)),
            ("authorized"@, JsonView::Bool(authorized)),
            ("cipher"@, maybe_text(cipher)),
            ("peer_cert_chain_der_b64"@, cert_chain(peer_cert_chain_der@)),
        ],
        TlsEvent::Connection {
            server_id,
            conn_id,
            local,
            remote,
            alpn_protocol,
            protocol,
            cipher,
            peer_cert_chain_der,
        } => seq![
            ("kind"@, JsonView::Text("tls-connection"@)),
            ("server_id"@, JsonView::Int(server_id as i64)),
            ("conn_id"@, JsonView::Int(conn_id as i64)),
            ("local"@, addr_members(addr_view(local))),
            ("remote"@, addr_members(addr_view(remote))),
            ("alpn_protocol"@, maybe_text(alpn_protocol)),
            ("protocol"@, maybe_text(protocol)),
            ("cipher"@, maybe_text(cipher)),
            ("peer_cert_chain_der_b64"@, cert_chain(peer_cert_chain_der@)),
        ],
        TlsEvent::Data { conn_id, payload_b64 } => seq![
            ("kind"@, JsonView::Text("tls-data"@)),
            ("conn_id"@, JsonView::Int(conn_id as i64)),
            ("payload_b64"@, JsonView::Text(payload_b64@)),
        ],
        TlsEvent::End { conn_id } => seq![
            ("kind"@, JsonView::Text("tls-end"@)),
            ("conn_id"@, JsonView::Int(conn_id as i64)),
        ],
        TlsEvent::Drain { conn_id } => seq![
            ("kind"@, JsonView::Text("tls-drain"@)),
            ("conn_id"@, JsonView::Int(conn_id as i64)),
        ],
        TlsEvent::Close { conn_id, had_error } => seq![
            ("kind"@, JsonView::Text("tls-close"@)),
            ("conn_id"@, JsonView::Int(conn_id as i64)),
            ("had_error"@, JsonView::Bool(had_error)),
        ],
        TlsEvent::Error { conn_id, message, code } => seq![
            ("kind"@, JsonView::Text("tls-error"@)),
            ("conn_id"@, JsonView::Int(conn_id as i64)),
            ("message"@, JsonView::Text(message@)),
            ("code"@, JsonView::Text(code@)),
        ],
        TlsEvent::Listening { server_id, port } => seq![
            ("kind"@, JsonView::Text("tls-listening"@)),
            ("server_id"@, JsonView::Int(server_id as i64)),
            ("port"@, JsonView::Int(port as i64)),
        ],
        TlsEvent::ServerError { server_id, message } => seq![
            ("kind"@, JsonView::Text("tls-server-error"@)),
            ("server_id"@, JsonView::Int(server_id as i64)),
            ("message"@, JsonView::Text(message@)),
        ],
    }
}

/// The envelope of a TLS connection's event, with the connection to forget where it was its last.
pub fn tls_event_to_envelope(evt: &TlsEvent) -> (r: (Json, Option<i32>))
    ensures
        r.0@ == JsonView::Object(tls_envelope(*evt)),
        r.1 == (match *evt {
            TlsEvent::Close { conn_id, .. } => Some(conn_id),
            _ => None,
        }),
{
    let mut last: Option<i32> = None;
    let o = match evt {
        TlsEvent::Connect {
            conn_id,
            local,
            remote,
            alpn_protocol,
            protocol,
            authorized,
            cipher,
            peer_cert_chain_der,
        } => {
            let mut o = kind_and_id("tls-connect", "conn_id", *conn_id);
            put(&mut o, "local", addr_json(local));
            put(&mut o, "remote", addr_json(remote));
            put(&mut o, "alpn_protocol", json_maybe(alpn_protocol));
            put(&mut o, "protocol", json_maybe(protocol));
            put(&mut o, "authorized", Json::Bool(*authorized));
            put(&mut o, "cipher", json_maybe(cipher));
            put(&mut o, "peer_cert_chain_der_b64", cert_chain_to_b64(peer_cert_chain_der));
            o
        },
        TlsEvent::Connection {
            server_id,
            conn_id,
            local,
            remote,
            alpn_protocol,
            protocol,
            cipher,
            peer_cert_chain_der,
        } => {
            let mut o = kind_and_id("tls-connection", "server_id", *server_id);
            put(&mut o, "conn_id", Json::Int(*conn_id as i64));
            put(&mut o, "local", addr_json(local));
            put(&mut o, "remote", addr_json(remote));
            put(&mut o, "alpn_protocol", json_maybe(alpn_protocol));
            put(&mut o, "protocol", json_maybe(protocol));
            put(&mut o, "cipher", json_maybe(cipher));
            put(&mut o, "peer_cert_chain_der_b64", cert_chain_to_b64(peer_cert_chain_der));
            o
        },
        TlsEvent::Data { conn_id, payload_b64 } => {
            let mut o = kind_and_id("tls-data", "conn_id", *conn_id);
            put(&mut o, "payload_b64", json_text(payload_b64));
            o
        },
        TlsEvent::End { conn_id } => kind_and_id("tls-end", "conn_id", *conn_id),
        TlsEvent::Drain { conn_id } => kind_and_id("tls-drain", "conn_id", *conn_id),
        TlsEvent::Close { conn_id, had_error } => {
            let mut o = kind_and_id("tls-close", "conn_id", *conn_id);
            put(&mut o, "had_error", Json::Bool(*had_error));
            last = Some(*conn_id);
            o
        },
        TlsEvent::Error { conn_id, message, code } => {
            let mut o = kind_and_id("tls-error", "conn_id", *conn_id);
            put(&mut o, "message", json_text(message));
            put(&mut o, "code", json_text(code));
            o
        },
        TlsEvent::Listening { server_id, port } => {
            let mut o = kind_and_id("tls-listening", "server_id", *server_id);
            put(&mut o, "port", Json::Int(*port as i64));
            o
        },
        TlsEvent::ServerError { server_id, message } => {
            let mut o = kind_and_id("tls-server-error", "server_id", *server_id);
            put(&mut o, "message", json_text(message));
            o
        },
    };
    assert(members(o@) =~= tls_envelope(*evt));
    (json_object(o), last)
}

/// The members of a datagram socket's envelope.
pub open spec fn dgram_envelope(e: DgramEventView) -> Seq<(Seq<char>, JsonView)> {
    match e {
        DgramEventView::Listening { socket_id, port } => seq![
            ("kind"@, JsonView::Text("dgram-listening"@)),
            ("socketId"@, JsonView::Int(socket_id as i64)),
            ("port"@, JsonView::Int(port as i64)),
        ],
        DgramEventView::Message { socket_id, from, payload_b64 } => seq![
            ("kind"@, JsonView::Text("dgram-message"@)),
            ("socketId"@, JsonView::Int(socket_id as i64)),
            ("payload"@, JsonView::Text(payload_b64)),
            (
                "from"@,
                JsonView::Object(
                    seq![
                        ("address"@, JsonView::Text(from.address)),
                        ("port"@, JsonView::Int(from.port as i64)),
                        ("family"@, JsonView::Text(family_text(from.ipv4))),
                    ],
                ),
            ),
        ],
        DgramEventView::Error { socket_id, message, code } => seq![
            ("kind"@, JsonView::Text("dgram-error"@)),
            ("socketId"@, JsonView::Int(socket_id as i64)),
            ("message"@, JsonView::Text(message)),
            ("code"@, JsonView::Text(code)),
        ],
        DgramEventView::Close { socket_id } => seq![
            ("kind"@, JsonView::Text("dgram-close"@)),
            ("socketId"@, JsonView::Int(socket_id as i64)),
        ],
    }
}

/// The envelope of a datagram socket's event.
pub fn dgram_event_to_envelope(evt: &DgramEvent) -> (r: Json)
    ensures
        r@ == JsonView::Object(dgram_envelope(evt@)),
{
    let o = match evt {
        DgramEvent::Listening { socket_id, port } => {
            let mut o = kind_and_id("dgram-listening", "socketId", *socket_id);
            put(&mut o, "port", Json::Int(*port as i64));
            o
        },
        DgramEvent::Message { socket_id, from, payload_b64 } => {
            let mut f = object_with_text("address", &from.address);
            put(&mut f, "port", Json::Int(from.port as i64));
            put(&mut f, "family", json_text(family(from.ipv4)));
            assert(members(f@) =~= seq![
                ("address"@, JsonView::Text(from.address@)),
                ("port"@, JsonView::Int(from.port as i64)),
                ("family"@, JsonView::Text(family_text(from.ipv4))),
            ]);
            let mut o = kind_and_id("dgram-message", "socketId", *socket_id);
            put(&mut o, "payload", json_text(payload_b64));
            put(&mut o, "from", json_object(f));
            o
        },
        DgramEvent::Error { socket_id, message, code } => {
            let mut o = kind_and_id("dgram-error", "socketId", *socket_id);
            put(&mut o, "message", json_text(message));
            put(&mut o, "code", json_text(code));
            o
        },
        DgramEvent::Close { socket_id } => kind_and_id("dgram-close", "socketId", *socket_id),
    };
    assert(members(o@) =~= dgram_envelope(evt@));
    json_object(o)
}

proof fn lemma_member_names(h: Seq<(Seq<char>, Seq<char>)>, i: int, k: int)
    requires
        0 <= i,
        0 <= k < header_members(h, i).len(),
    ensures
        exists|j: int|
            i <= j < h.len() && (#[trigger] h[j]).0 == header_members(h, i)[k].0 && !comes_again(
                h,
                j,
            ),
    decreases h.len() - i,
{
    if i < h.len() {
        if comes_again(h, i) {
            lemma_member_names(h, i + 1, k);
        } else if k > 0 {
            assert(header_members(h, i)[k] == header_members(h, i + 1)[k - 1]);
            lemma_member_names(h, i + 1, k - 1);
        } else {
            assert(h[i].0 == header_members(h, i)[0].0);
        }
    }
}

/// No header name occurs twice among the members that stand for headers.
pub proof fn header_members_are_distinct(h: Seq<(Seq<char>, Seq<char>)>, i: int, a: int, b: int)
    requires
        0 <= i,
        0 <= a < b < header_members(h, i).len(),
    ensures
        header_members(h, i)[a].0 != header_members(h, i)[b].0,
    decreases h.len() - i,
{
    if i < h.len() {
        if comes_again(h, i) {
            header_members_are_distinct(h, i + 1, a, b);
        } else if a > 0 {
            assert(header_members(h, i)[a] == header_members(h, i + 1)[a - 1]);
            assert(header_members(h, i)[b] == header_members(h, i + 1)[b - 1]);
            header_members_are_distinct(h, i + 1, a - 1, b - 1);
        } else {
            assert(header_members(h, i)[b] == header_members(h, i + 1)[b - 1]);
            lemma_member_names(h, i + 1, b - 1);
        }
    }
}

/// Every event of a connection or a server is told under its own kind, with what the event says, each
/// thing under its own name.
pub proof fn connection_events_are_told(e: NetEventView)
    ensures
        e matches NetEventView::Connect { conn_id, local, remote } ==> {
            &&& member_of(JsonView::Object(net_envelope(e)), "kind"@) == Some(JsonView::Text("net-connect"@))
            &&& member_of(JsonView::Object(net_envelope(e)), "conn_id"@) == Some(JsonView::Int(conn_id as i64))
            &&& member_of(JsonView::Object(net_envelope(e)), "local"@) == Some(addr_members(local))
            &&& member_of(JsonView::Object(net_envelope(e)), "remote"@) == Some(addr_members(remote))
            &&& net_envelope(e).len() == 4
        },
        e matches NetEventView::Connection { server_id, conn_id, local, remote } ==> {
            &&& member_of(JsonView::Object(net_envelope(e)), "kind"@) == Some(JsonView::Text("net-connection"@))
            &&& member_of(JsonView::Object(net_envelope(e)), "server_id"@) == Some(JsonView::Int(server_id as i64))
            &&& member_of(JsonView::Object(net_envelope(e)), "conn_id"@) == Some(JsonView::Int(conn_id as i64))
            &&& member_of(JsonView::Object(net_envelope(e)), "local"@) == Some(addr_members(local))
            &&& member_of(JsonView::Object(net_envelope(e)), "remote"@) == Some(addr_members(remote))
            &&& net_envelope(e).len() == 5
        },
        e matches NetEventView::Data { conn_id, payload_b64 } ==> {
            &&& member_of(JsonView::Object(net_envelope(e)), "kind"@) == Some(JsonView::Text("net-data"@))
            &&& member_of(JsonView::Object(net_envelope(e)), "conn_id"@) == Some(JsonView::Int(conn_id as i64))
            &&& member_of(JsonView::Object(net_envelope(e)), "payload_b64"@) == Some(JsonView::Text(payload_b64))
            &&& net_envelope(e).len() == 3
        },
        e matches NetEventView::End { conn_id } ==> {
            &&& member_of(JsonView::Object(net_envelope(e)), "kind"@) == Some(JsonView::Text("net-end"@))
            &&& member_of(JsonView::Object(net_envelope(e)), "conn_id"@) == Some(JsonView::Int(conn_id as i64))
            &&& net_envelope(e).len() == 2
        },
        e matches NetEventView::Drain { conn_id } ==> {
            &&& member_of(JsonView::Object(net_envelope(e)), "kind"@) == Some(JsonView::Text("net-drain"@))
            &&& member_of(JsonView::Object(net_envelope(e)), "conn_id"@) == Some(JsonView::Int(conn_id as i64))
            &&& net_envelope(e).len() == 2
        },
        e matches NetEventView::Close { conn_id, had_error } ==> {
            &&& member_of(JsonView::Object(net_envelope(e)), "kind"@) == Some(JsonView::Text("net-close"@))
            &&& member_of(JsonView::Object(net_envelope(e)), "conn_id"@) == Some(JsonView::Int(conn_id as i64))
            &&& member_of(JsonView::Object(net_envelope(e)), "had_error"@) == Some(JsonView::Bool(had_error))
            &&& net_envelope(e).len() == 3
        },
        e matches NetEventView::Error { conn_id, message, code } ==> {
            &&& member_of(JsonView::Object(net_envelope(e)), "kind"@) == Some(JsonView::Text("net-error"@))
            &&& member_of(JsonView::Object(net_envelope(e)), "conn_id"@) == Some(JsonView::Int(conn_id as i64))
            &&& member_of(JsonView::Object(net_envelope(e)), "message"@) == Some(JsonView::Text(message))
            &&& member_of(JsonView::Object(net_envelope(e)), "code"@) == Some(JsonView::Text(code))
            &&& net_envelope(e).len() == 4
        },
        e matches NetEventView::Listening { server_id, port } ==> {
            &&& member_of(JsonView::Object(net_envelope(e)), "kind"@) == Some(JsonView::Text("net-listening"@))
            &&& member_of(JsonView::Object(net_envelope(e)), "server_id"@) == Some(JsonView::Int(server_id as i64))
            &&& member_of(JsonView::Object(net_envelope(e)), "port"@) == Some(JsonView::Int(port as i64))
            &&& net_envelope(e).len() == 3
        },
        e matches NetEventView::ServerError { server_id, message } ==> {
            &&& member_of(JsonView::Object(net_envelope(e)), "kind"@) == Some(JsonView::Text("net-server-error"@))
            &&& member_of(JsonView::Object(net_envelope(e)), "server_id"@) == Some(JsonView::Int(server_id as i64))
            &&& member_of(JsonView::Object(net_envelope(e)), "message"@) == Some(JsonView::Text(message))
            &&& net_envelope(e).len() == 3
        },
{
    reveal_strlit("kind");
    reveal_strlit("conn_id");
    reveal_strlit("local");
    reveal_strlit("remote");
    reveal_strlit("server_id");
    reveal_strlit("payload_b64");
    reveal_strlit("had_error");
    reveal_strlit("message");
    reveal_strlit("code");
    reveal_strlit("port");
    assert("conn_id"@.len() != "code"@.len());
    assert("conn_id"@.len() != "had_error"@.len());
    assert("conn_id"@.len() != "local"@.len());
    assert("conn_id"@[0] != "message"@[0]);
    assert("conn_id"@.len() != "payload_b64"@.len());
    assert("conn_id"@.len() != "remote"@.len());
    assert("kind"@[0] != "code"@[0]);
    assert("kind"@.len() != "conn_id"@.len());
    assert("kind"@.len() != "had_error"@.len());
    assert("kind"@.len() != "local"@.len());
    assert("kind"@.len() != "message"@.len());
    assert("kind"@.len() != "payload_b64"@.len());
    assert("kind"@[0] != "port"@[0]);
    assert("kind"@.len() != "remote"@.len());
    assert("kind"@.len() != "server_id"@.len());
    assert("local"@.len() != "remote"@.len());
    assert("message"@.len() != "code"@.len());
    assert("server_id"@.len() != "conn_id"@.len());
    assert("server_id"@.len() != "local"@.len());
    assert("server_id"@.len() != "message"@.len());
    assert("server_id"@.len() != "port"@.len());
    assert("server_id"@.len() != "remote"@.len());
    let m = net_envelope(e);
    if e is Connect {
        member_is_the_first_of_its_name(m, "kind"@, 0);
        member_is_the_first_of_its_name(m, "conn_id"@, 1);
        member_is_the_first_of_its_name(m, "local"@, 2);
        member_is_the_first_of_its_name(m, "remote"@, 3);
    }
    if e is Connection {
        member_is_the_first_of_its_name(m, "kind"@, 0);
        member_is_the_first_of_its_name(m, "server_id"@, 1);
        member_is_the_first_of_its_name(m, "conn_id"@, 2);
        member_is_the_first_of_its_name(m, "local"@, 3);
        member_is_the_first_of_its_name(m, "remote"@, 4);
    }
    if e is Data {
        member_is_the_first_of_its_name(m, "kind"@, 0);
        member_is_the_first_of_its_name(m, "conn_id"@, 1);
        member_is_the_first_of_its_name(m, "payload_b64"@, 2);
    }
    if e is End {
        member_is_the_first_of_its_name(m, "kind"@, 0);
        member_is_the_first_of_its_name(m, "conn_id"@, 1);
    }
    if e is Drain {
        member_is_the_first_of_its_name(m, "kind"@, 0);
        member_is_the_first_of_its_name(m, "conn_id"@, 1);
    }
    if e is Close {
        member_is_the_first_of_its_name(m, "kind"@, 0);
        member_is_the_first_of_its_name(m, "conn_id"@, 1);
        member_is_the_first_of_its_name(m, "had_error"@, 2);
    }
    if e is Error {
        member_is_the_first_of_its_name(m, "kind"@, 0);
        member_is_the_first_of_its_name(m, "conn_id"@, 1);
        member_is_the_first_of_its_name(m, "message"@, 2);
        member_is_the_first_of_its_name(m, "code"@, 3);
    }
    if e is Listening {
        member_is_the_first_of_its_name(m, "kind"@, 0);
        member_is_the_first_of_its_name(m, "server_id"@, 1);
        member_is_the_first_of_its_name(m, "port"@, 2);
    }
    if e is ServerError {
        member_is_the_first_of_its_name(m, "kind"@, 0);
        member_is_the_first_of_its_name(m, "server_id"@, 1);
        member_is_the_first_of_its_name(m, "message"@, 2);
    }
}

/// Every event of a TLS connection or server is told under its own kind, with what the event says, each
/// thing under its own name.
pub proof fn tls_events_are_told(e: TlsEvent)
    ensures
        e matches TlsEvent::Connect { conn_id, local, remote, alpn_protocol, protocol, authorized, cipher, peer_cert_chain_der } ==> {
            &&& member_of(JsonView::Object(tls_envelope(e)), "kind"@) == Some(JsonView::Text("tls-connect"@))
            &&& member_of(JsonView::Object(tls_envelope(e)), "conn_id"@) == Some(JsonView::Int(conn_id as i64))
            &&& member_of(JsonView::Object(tls_envelope(e)), "local"@) == Some(addr_members(addr_view(local)))
            &&& member_of(JsonView::Object(tls_envelope(e)), "remote"@) == Some(addr_members(addr_view(remote)))
            &&& member_of(JsonView::Object(tls_envelope(e)), "alpn_protocol"@) == Some(maybe_text(alpn_protocol))
            &&& member_of(JsonView::Object(tls_envelope(e)), "protocol"@) == Some(maybe_text(protocol))
            &&& member_of(JsonView::Object(tls_envelope(e)), "authorized"@) == Some(JsonView::Bool(authorized))
            &&& member_of(JsonView::Object(tls_envelope(e)), "cipher"@) == Some(maybe_text(cipher))
            &&& member_of(JsonView::Object(tls_envelope(e)), "peer_cert_chain_der_b64"@) == Some(cert_chain(peer_cert_chain_der@))
            &&& tls_envelope(e).len() == 9
        },
        e matches TlsEvent::Connection { server_id, conn_id, local, remote, alpn_protocol, protocol, cipher, peer_cert_chain_der } ==> {
            &&& member_of(JsonView::Object(tls_envelope(e)), "kind"@) == Some(JsonView::Text("tls-connection"@))
            &&& member_of(JsonView::Object(tls_envelope(e)), "server_id"@) == Some(JsonView::Int(server_id as i64))
            &&& member_of(JsonView::Object(tls_envelope(e)), "conn_id"@) == Some(JsonView::Int(conn_id as i64))
            &&& member_of(JsonView::Object(tls_envelope(e)), "local"@) == Some(addr_members(addr_view(local)))
            &&& member_of(JsonView::Object(tls_envelope(e)), "remote"@) == Some(addr_members(addr_view(remote)))
            &&& member_of(JsonView::Object(tls_envelope(e)), "alpn_protocol"@) == Some(maybe_text(alpn_protocol))
            &&& member_of(JsonView::Object(tls_envelope(e)), "protocol"@) == Some(maybe_text(protocol))
            &&& member_of(JsonView::Object(tls_envelope(e)), "cipher"@) == Some(maybe_text(cipher))
            &&& member_of(JsonView::Object(tls_envelope(e)), "peer_cert_chain_der_b64"@) == Some(cert_chain(peer_cert_chain_der@))
            &&& tls_envelope(e).len() == 9
        },
        e matches TlsEvent::Data { conn_id, payload_b64 } ==> {
            &&& member_of(JsonView::Object(tls_envelope(e)), "kind"@) == Some(JsonView::Text("tls-data"@))
            &&& member_of(JsonView::Object(tls_envelope(e)), "conn_id"@) == Some(JsonView::Int(conn_id as i64))
            &&& member_of(JsonView::Object(tls_envelope(e)), "payload_b64"@) == Some(JsonView::Text(payload_b64@))
            &&& tls_envelope(e).len() == 3
        },
        e matches TlsEvent::End { conn_id } ==> {
            &&& member_of(JsonView::Object(tls_envelope(e)), "kind"@) == Some(JsonView::Text("tls-end"@))
            &&& member_of(JsonView::Object(tls_envelope(e)), "conn_id"@) == Some(JsonView::Int(conn_id as i64))
            &&& tls_envelope(e).len() == 2
        },
        e matches TlsEvent::Drain { conn_id } ==> {
            &&& member_of(JsonView::Object(tls_envelope(e)), "kind"@) == Some(JsonView::Text("tls-drain"@))
            &&& member_of(JsonView::Object(tls_envelope(e)), "conn_id"@) == Some(JsonView::Int(conn_id as i64))
            &&& tls_envelope(e).len() == 2
        },
        e matches TlsEvent::Close { conn_id, had_error } ==> {
            &&& member_of(JsonView::Object(tls_envelope(e)), "kind"@) == Some(JsonView::Text("tls-close"@))
            &&& member_of(JsonView::Object(tls_envelope(e)), "conn_id"@) == Some(JsonView::Int(conn_id as i64))
            &&& member_of(JsonView::Object(tls_envelope(e)), "had_error"@) == Some(JsonView::Bool(had_error))
            &&& tls_envelope(e).len() == 3
        },
        e matches TlsEvent::Error { conn_id, message, code } ==> {
            &&& member_of(JsonView::Object(tls_envelope(e)), "kind"@) == Some(JsonView::Text("tls-error"@))
            &&& member_of(JsonView::Object(tls_envelope(e)), "conn_id"@) == Some(JsonView::Int(conn_id as i64))
            &&& member_of(JsonView::Object(tls_envelope(e)), "message"@) == Some(JsonView::Text(message@))
            &&& member_of(JsonView::Object(tls_envelope(e)), "code"@) == Some(JsonView::Text(code@))
            &&& tls_envelope(e).len() == 4
        },
        e matches TlsEvent::Listening { server_id, port } ==> {
            &&& member_of(JsonView::Object(tls_envelope(e)), "kind"@) == Some(JsonView::Text("tls-listening"@))
            &&& member_of(JsonView::Object(tls_envelope(e)), "server_id"@) == Some(JsonView::Int(server_id as i64))
            &&& member_of(JsonView::Object(tls_envelope(e)), "port"@) == Some(JsonView::Int(port as i64))
            &&& tls_envelope(e).len() == 3
        },
        e matches TlsEvent::ServerError { server_id, message } ==> {
            &&& member_of(JsonView::Object(tls_envelope(e)), "kind"@) == Some(JsonView::Text("tls-server-error"@))
            &&& member_of(JsonView::Object(tls_envelope(e)), "server_id"@) == Some(JsonView::Int(server_id as i64))
            &&& member_of(JsonView::Object(tls_envelope(e)), "message"@) == Some(JsonView::Text(message@))
            &&& tls_envelope(e).len() == 3
        },
{
    reveal_strlit("kind");
    reveal_strlit("conn_id");
    reveal_strlit("local");
    reveal_strlit("remote");
    reveal_strlit("alpn_protocol");
    reveal_strlit("protocol");
    reveal_strlit("authorized");
    reveal_strlit("cipher");
    reveal_strlit("peer_cert_chain_der_b64");
    reveal_strlit("server_id");
    reveal_strlit("payload_b64");
    reveal_strlit("had_error");
    reveal_strlit("message");
    reveal_strlit("code");
    reveal_strlit("port");
    assert("alpn_protocol"@.len() != "authorized"@.len());
    assert("alpn_protocol"@.len() != "cipher"@.len());
    assert("alpn_protocol"@.len() != "peer_cert_chain_der_b64"@.len());
    assert("alpn_protocol"@.len() != "protocol"@.len());
    assert("authorized"@.len() != "cipher"@.len());
    assert("authorized"@.len() != "peer_cert_chain_der_b64"@.len());
    assert("cipher"@.len() != "peer_cert_chain_der_b64"@.len());
    assert("conn_id"@.len() != "alpn_protocol"@.len());
    assert("conn_id"@.len() != "authorized"@.len());
    assert("conn_id"@.len() != "cipher"@.len());
    assert("conn_id"@.len() != "code"@.len());
    assert("conn_id"@.len() != "had_error"@.len());
    assert("conn_id"@.len() != "local"@.len());
    assert("conn_id"@[0] != "message"@[0]);
    assert("conn_id"@.len() != "payload_b64"@.len());
    assert("conn_id"@.len() != "peer_cert_chain_der_b64"@.len());
    assert("conn_id"@.len() != "protocol"@.len());
    assert("conn_id"@.len() != "remote"@.len());
    assert("kind"@.len() != "alpn_protocol"@.len());
    assert("kind"@.len() != "authorized"@.len());
    assert("kind"@.len() != "cipher"@.len());
    assert("kind"@[0] != "code"@[0]);
    assert("kind"@.len() != "conn_id"@.len());
    assert("kind"@.len() != "had_error"@.len());
    assert("kind"@.len() != "local"@.len());
    assert("kind"@.len() != "message"@.len());
    assert("kind"@.len() != "payload_b64"@.len());
    assert("kind"@.len() != "peer_cert_chain_der_b64"@.len());
    assert("kind"@[0] != "port"@[0]);
    assert("kind"@.len() != "protocol"@.len());
    assert("kind"@.len() != "remote"@.len());
    assert("kind"@.len() != "server_id"@.len());
    assert("local"@.len() != "alpn_protocol"@.len());
    assert("local"@.len() != "authorized"@.len());
    assert("local"@.len() != "cipher"@.len());
    assert("local"@.len() != "peer_cert_chain_der_b64"@.len());
    assert("local"@.len() != "protocol"@.len());
    assert("local"@.len() != "remote"@.len());
    assert("message"@.len() != "code"@.len());
    assert("protocol"@.len() != "authorized"@.len());
    assert("protocol"@.len() != "cipher"@.len());
    assert("protocol"@.len() != "peer_cert_chain_der_b64"@.len());
    assert("remote"@.len() != "alpn_protocol"@.len());
    assert("remote"@.len() != "authorized"@.len());
    assert("remote"@[0] != "cipher"@[0]);
    assert("remote"@.len() != "peer_cert_chain_der_b64"@.len());
    assert("remote"@.len() != "protocol"@.len());
    assert("server_id"@.len() != "alpn_protocol"@.len());
    assert("server_id"@.len() != "cipher"@.len());
    assert("server_id"@.len() != "conn_id"@.len());
    assert("server_id"@.len() != "local"@.len());
    assert("server_id"@.len() != "message"@.len());
    assert("server_id"@.len() != "peer_cert_chain_der_b64"@.len());
    assert("server_id"@.len() != "port"@.len());
    assert("server_id"@.len() != "protocol"@.len());
    assert("server_id"@.len() != "remote"@.len());
    let m = tls_envelope(e);
    if e is Connect {
        member_is_the_first_of_its_name(m, "kind"@, 0);
        member_is_the_first_of_its_name(m, "conn_id"@, 1);
        member_is_the_first_of_its_name(m, "local"@, 2);
        member_is_the_first_of_its_name(m, "remote"@, 3);
        member_is_the_first_of_its_name(m, "alpn_protocol"@, 4);
        member_is_the_first_of_its_name(m, "protocol"@, 5);
        member_is_the_first_of_its_name(m, "authorized"@, 6);
        member_is_the_first_of_its_name(m, "cipher"@, 7);
        member_is_the_first_of_its_name(m, "peer_cert_chain_der_b64"@, 8);
    }
    if e is Connection {
        member_is_the_first_of_its_name(m, "kind"@, 0);
        member_is_the_first_of_its_name(m, "server_id"@, 1);
        member_is_the_first_of_its_name(m, "conn_id"@, 2);
        member_is_the_first_of_its_name(m, "local"@, 3);
        member_is_the_first_of_its_name(m, "remote"@, 4);
        member_is_the_first_of_its_name(m, "alpn_protocol"@, 5);
        member_is_the_first_of_its_name(m, "protocol"@, 6);
        member_is_the_first_of_its_name(m, "cipher"@, 7);
        member_is_the_first_of_its_name(m, "peer_cert_chain_der_b64"@, 8);
    }
    if e is Data {
        member_is_the_first_of_its_name(m, "kind"@, 0);
        member_is_the_first_of_its_name(m, "conn_id"@, 1);
        member_is_the_first_of_its_name(m, "payload_b64"@, 2);
    }
    if e is End {
        member_is_the_first_of_its_name(m, "kind"@, 0);
        member_is_the_first_of_its_name(m, "conn_id"@, 1);
    }
    if e is Drain {
        member_is_the_first_of_its_name(m, "kind"@, 0);
        member_is_the_first_of_its_name(m, "conn_id"@, 1);
    }
    if e is Close {
        member_is_the_first_of_its_name(m, "kind"@, 0);
        member_is_the_first_of_its_name(m, "conn_id"@, 1);
        member_is_the_first_of_its_name(m, "had_error"@, 2);
    }
    if e is Error {
        member_is_the_first_of_its_name(m, "kind"@, 0);
        member_is_the_first_of_its_name(m, "conn_id"@, 1);
        member_is_the_first_of_its_name(m, "message"@, 2);
        member_is_the_first_of_its_name(m, "code"@, 3);
    }
    if e is Listening {
        member_is_the_first_of_its_name(m, "kind"@, 0);
        member_is_the_first_of_its_name(m, "server_id"@, 1);
        member_is_the_first_of_its_name(m, "port"@, 2);
    }
    if e is ServerError {
        member_is_the_first_of_its_name(m, "kind"@, 0);
        member_is_the_first_of_its_name(m, "server_id"@, 1);
        member_is_the_first_of_its_name(m, "message"@, 2);
    }
}

/// The sender of a datagram as JSON.
pub open spec fn sender_members(from: AddrView) -> JsonView {
    JsonView::Object(
        seq![
            ("address"@, JsonView::Text(from.address)),
            ("port"@, JsonView::Int(from.port as i64)),
            ("family"@, JsonView::Text(family_text(from.ipv4))),
        ],
    )
}

/// Every event of a datagram socket is told under its own kind, with what the event says, each thing
/// under its own name.
pub proof fn datagram_events_are_told(e: DgramEventView)
    ensures
        e matches DgramEventView::Listening { socket_id, port } ==> {
            &&& member_of(JsonView::Object(dgram_envelope(e)), "kind"@) == Some(JsonView::Text("dgram-listening"@))
            &&& member_of(JsonView::Object(dgram_envelope(e)), "socketId"@) == Some(JsonView::Int(socket_id as i64))
            &&& member_of(JsonView::Object(dgram_envelope(e)), "port"@) == Some(JsonView::Int(port as i64))
            &&& dgram_envelope(e).len() == 3
        },
        e matches DgramEventView::Message { socket_id, from, payload_b64 } ==> {
            &&& member_of(JsonView::Object(dgram_envelope(e)), "kind"@) == Some(JsonView::Text("dgram-message"@))
            &&& member_of(JsonView::Object(dgram_envelope(e)), "socketId"@) == Some(JsonView::Int(socket_id as i64))
            &&& member_of(JsonView::Object(dgram_envelope(e)), "payload"@) == Some(JsonView::Text(payload_b64))
            &&& member_of(JsonView::Object(dgram_envelope(e)), "from"@) == Some(sender_members(from))
            &&& dgram_envelope(e).len() == 4
        },
        e matches DgramEventView::Error { socket_id, message, code } ==> {
            &&& member_of(JsonView::Object(dgram_envelope(e)), "kind"@) == Some(JsonView::Text("dgram-error"@))
            &&& member_of(JsonView::Object(dgram_envelope(e)), "socketId"@) == Some(JsonView::Int(socket_id as i64))
            &&& member_of(JsonView::Object(dgram_envelope(e)), "message"@) == Some(JsonView::Text(message))
            &&& member_of(JsonView::Object(dgram_envelope(e)), "code"@) == Some(JsonView::Text(code))
            &&& dgram_envelope(e).len() == 4
        },
        e matches DgramEventView::Close { socket_id } ==> {
            &&& member_of(JsonView::Object(dgram_envelope(e)), "kind"@) == Some(JsonView::Text("dgram-close"@))
            &&& member_of(JsonView::Object(dgram_envelope(e)), "socketId"@) == Some(JsonView::Int(socket_id as i64))
            &&& dgram_envelope(e).len() == 2
        },
{
    reveal_strlit("kind");
    reveal_strlit("socketId");
    reveal_strlit("port");
    reveal_strlit("payload");
    reveal_strlit("from");
    reveal_strlit("message");
    reveal_strlit("code");
    assert("kind"@[0] != "code"@[0]);
    assert("kind"@[0] != "from"@[0]);
    assert("kind"@.len() != "message"@.len());
    assert("kind"@.len() != "payload"@.len());
    assert("kind"@[0] != "port"@[0]);
    assert("kind"@.len() != "socketId"@.len());
    assert("message"@.len() != "code"@.len());
    assert("payload"@.len() != "from"@.len());
    assert("socketId"@.len() != "code"@.len());
    assert("socketId"@.len() != "from"@.len());
    assert("socketId"@.len() != "message"@.len());
    assert("socketId"@.len() != "payload"@.len());
    assert("socketId"@.len() != "port"@.len());
    let m = dgram_envelope(e);
    if e is Listening {
        member_is_the_first_of_its_name(m, "kind"@, 0);
        member_is_the_first_of_its_name(m, "socketId"@, 1);
        member_is_the_first_of_its_name(m, "port"@, 2);
    }
    if e is Message {
        member_is_the_first_of_its_name(m, "kind"@, 0);
        member_is_the_first_of_its_name(m, "socketId"@, 1);
        member_is_the_first_of_its_name(m, "payload"@, 2);
        member_is_the_first_of_its_name(m, "from"@, 3);
    }
    if e is Error {
        member_is_the_first_of_its_name(m, "kind"@, 0);
        member_is_the_first_of_its_name(m, "socketId"@, 1);
        member_is_the_first_of_its_name(m, "message"@, 2);
        member_is_the_first_of_its_name(m, "code"@, 3);
    }
    if e is Close {
        member_is_the_first_of_its_name(m, "kind"@, 0);
        member_is_the_first_of_its_name(m, "socketId"@, 1);
    }
}

/// Every event of a worker is told under its own kind, with what the event says, each thing under its
/// own name.
pub proof fn worker_events_are_told(e: WorkerEvent)
    ensures
        e matches WorkerEvent::Online { worker_id } ==> {
            &&& member_of(JsonView::Object(worker_envelope(e)), "kind"@) == Some(JsonView::Text("worker-online"@))
            &&& member_of(JsonView::Object(worker_envelope(e)), "worker_id"@) == Some(JsonView::Int(worker_id as i64))
            &&& worker_envelope(e).len() == 2
        },
        e matches WorkerEvent::Message { worker_id, payload } ==> {
            &&& member_of(JsonView::Object(worker_envelope(e)), "kind"@) == Some(JsonView::Text("worker-message"@))
            &&& member_of(JsonView::Object(worker_envelope(e)), "worker_id"@) == Some(JsonView::Int(worker_id as i64))
            &&& member_of(JsonView::Object(worker_envelope(e)), "payload"@) == Some(JsonView::Text(payload@))
            &&& worker_envelope(e).len() == 3
        },
        e matches WorkerEvent::Error { worker_id, message, stack } ==> {
            &&& member_of(JsonView::Object(worker_envelope(e)), "kind"@) == Some(JsonView::Text("worker-error"@))
            &&& member_of(JsonView::Object(worker_envelope(e)), "worker_id"@) == Some(JsonView::Int(worker_id as i64))
            &&& member_of(JsonView::Object(worker_envelope(e)), "message"@) == Some(JsonView::Text(message@))
            &&& member_of(JsonView::Object(worker_envelope(e)), "stack"@) == Some(JsonView::Text(stack@))
            &&& worker_envelope(e).len() == 4
        },
        e matches WorkerEvent::Exit { worker_id, code } ==> {
            &&& member_of(JsonView::Object(worker_envelope(e)), "kind"@) == Some(JsonView::Text("worker-exit"@))
            &&& member_of(JsonView::Object(worker_envelope(e)), "worker_id"@) == Some(JsonView::Int(worker_id as i64))
            &&& member_of(JsonView::Object(worker_envelope(e)), "code"@) == Some(JsonView::Int(code as i64))
            &&& worker_envelope(e).len() == 3
        },
        e matches WorkerEvent::ParentMessage { payload } ==> {
            &&& member_of(JsonView::Object(worker_envelope(e)), "kind"@) == Some(JsonView::Text("worker-parent-message"@))
            &&& member_of(JsonView::Object(worker_envelope(e)), "payload"@) == Some(JsonView::Text(payload@))
            &&& worker_envelope(e).len() == 2
        },
        e matches WorkerEvent::TerminateRequested ==> {
            &&& member_of(JsonView::Object(worker_envelope(e)), "kind"@) == Some(JsonView::Text("worker-terminate-requested"@))
            &&& worker_envelope(e).len() == 1
        },
{
    reveal_strlit("kind");
    reveal_strlit("worker_id");
    reveal_strlit("payload");
    reveal_strlit("message");
    reveal_strlit("stack");
    reveal_strlit("code");
    assert("kind"@[0] != "code"@[0]);
    assert("kind"@.len() != "message"@.len());
    assert("kind"@.len() != "payload"@.len());
    assert("kind"@.len() != "stack"@.len());
    assert("kind"@.len() != "worker_id"@.len());
    assert("message"@.len() != "stack"@.len());
    assert("worker_id"@.len() != "code"@.len());
    assert("worker_id"@.len() != "message"@.len());
    assert("worker_id"@.len() != "payload"@.len());
    assert("worker_id"@.len() != "stack"@.len());
    let m = worker_envelope(e);
    if e is Online {
        member_is_the_first_of_its_name(m, "kind"@, 0);
        member_is_the_first_of_its_name(m, "worker_id"@, 1);
    }
    if e is Message {
        member_is_the_first_of_its_name(m, "kind"@, 0);
        member_is_the_first_of_its_name(m, "worker_id"@, 1);
        member_is_the_first_of_its_name(m, "payload"@, 2);
    }
    if e is Error {
        member_is_the_first_of_its_name(m, "kind"@, 0);
        member_is_the_first_of_its_name(m, "worker_id"@, 1);
        member_is_the_first_of_its_name(m, "message"@, 2);
        member_is_the_first_of_its_name(m, "stack"@, 3);
    }
    if e is Exit {
        member_is_the_first_of_its_name(m, "kind"@, 0);
        member_is_the_first_of_its_name(m, "worker_id"@, 1);
        member_is_the_first_of_its_name(m, "code"@, 2);
    }
    if e is ParentMessage {
        member_is_the_first_of_its_name(m, "kind"@, 0);
        member_is_the_first_of_its_name(m, "payload"@, 1);
    }
    if e is TerminateRequested {
        member_is_the_first_of_its_name(m, "kind"@, 0);
    }
}

/// A response to a script's own request is told with its request, status, headers, body and error, each
/// under its own name.
pub proof fn responses_are_told(e: HttpOutboundResponseEvent)
    ensures
        member_of(JsonView::Object(http_response_envelope(e)), "kind"@) == Some(JsonView::Text("http-response"@)),
        member_of(JsonView::Object(http_response_envelope(e)), "req_id"@) == Some(JsonView::Int(e.req_id)),
        member_of(JsonView::Object(http_response_envelope(e)), "status"@) == Some(JsonView::Int(e.status as i64)),
        member_of(JsonView::Object(http_response_envelope(e)), "headers"@) == Some(JsonView::Object(header_members(header_views(e.headers@), 0))),
        member_of(JsonView::Object(http_response_envelope(e)), "body_b64"@) == Some(JsonView::Text(e.body_b64@)),
        member_of(JsonView::Object(http_response_envelope(e)), "body_text"@) == Some(JsonView::Text(e.body_text@)),
        member_of(JsonView::Object(http_response_envelope(e)), "error"@) == Some(maybe_text(e.error)),
{
    reveal_strlit("kind");
    reveal_strlit("req_id");
    reveal_strlit("status");
    reveal_strlit("headers");
    reveal_strlit("body_b64");
    reveal_strlit("body_text");
    reveal_strlit("error");
    assert("body_b64"@.len() != "body_text"@.len());
    assert("body_b64"@.len() != "error"@.len());
    assert("body_text"@.len() != "error"@.len());
    assert("headers"@.len() != "body_b64"@.len());
    assert("headers"@.len() != "body_text"@.len());
    assert("headers"@.len() != "error"@.len());
    assert("kind"@.len() != "body_b64"@.len());
    assert("kind"@.len() != "body_text"@.len());
    assert("kind"@.len() != "error"@.len());
    assert("kind"@.len() != "headers"@.len());
    assert("kind"@.len() != "req_id"@.len());
    assert("kind"@.len() != "status"@.len());
    assert("req_id"@.len() != "body_b64"@.len());
    assert("req_id"@.len() != "body_text"@.len());
    assert("req_id"@.len() != "error"@.len());
    assert("req_id"@.len() != "headers"@.len());
    assert("req_id"@[0] != "status"@[0]);
    assert("status"@.len() != "body_b64"@.len());
    assert("status"@.len() != "body_text"@.len());
    assert("status"@.len() != "error"@.len());
    assert("status"@.len() != "headers"@.len());
    let m = http_response_envelope(e);
    member_is_the_first_of_its_name(m, "kind"@, 0);
    member_is_the_first_of_its_name(m, "req_id"@, 1);
    member_is_the_first_of_its_name(m, "status"@, 2);
    member_is_the_first_of_its_name(m, "headers"@, 3);
    member_is_the_first_of_its_name(m, "body_b64"@, 4);
    member_is_the_first_of_its_name(m, "body_text"@, 5);
    member_is_the_first_of_its_name(m, "error"@, 6);
}

/// A request is told with its server, its own id, and what the client sent: method, target, headers and
/// body.
pub proof fn requests_are_told(e: DaemonEvent)
    ensures
        member_of(JsonView::Object(request_members(e)), "kind"@) == Some(JsonView::Text("http-request"@)),
        member_of(JsonView::Object(request_members(e)), "server_id"@) == Some(JsonView::Int(e.server_id as i64)),
        member_of(JsonView::Object(request_members(e)), "req_id"@) == Some(JsonView::Int(e.req_id)),
        member_of(JsonView::Object(request_members(e)), "req"@) == Some(sent_members(e)),
{
    reveal_strlit("kind");
    reveal_strlit("server_id");
    reveal_strlit("req_id");
    reveal_strlit("req");
    assert("kind"@.len() != "req"@.len());
    assert("kind"@.len() != "req_id"@.len());
    assert("kind"@.len() != "server_id"@.len());
    assert("req_id"@.len() != "req"@.len());
    assert("server_id"@.len() != "req"@.len());
    assert("server_id"@.len() != "req_id"@.len());
    let m = request_members(e);
    member_is_the_first_of_its_name(m, "kind"@, 0);
    member_is_the_first_of_its_name(m, "server_id"@, 1);
    member_is_the_first_of_its_name(m, "req_id"@, 2);
    member_is_the_first_of_its_name(m, "req"@, 3);
}

/// What a client sent, as JSON.
pub open spec fn sent_members(e: DaemonEvent) -> JsonView {
    http_envelope(e)->Object_0[3].1
}

/// The members of a request's envelope.
pub open spec fn request_members(e: DaemonEvent) -> Seq<(Seq<char>, JsonView)> {
    http_envelope(e)->Object_0
}

/// What a client sent is told as it came: method, target and headers as texts, and the body as text.
pub proof fn sent_request_is_told(e: DaemonEvent)
    ensures
        member_of(JsonView::Object(sent_members(e)->Object_0), "method"@) == Some(JsonView::Text(e.method@)),
        member_of(JsonView::Object(sent_members(e)->Object_0), "url"@) == Some(JsonView::Text(e.url@)),
        member_of(JsonView::Object(sent_members(e)->Object_0), "headers"@) == Some(JsonView::Object(header_members(header_views(e.headers@), 0))),
        member_of(JsonView::Object(sent_members(e)->Object_0), "body"@) == Some(JsonView::Text(lossy_text(e.body@))),
{
    reveal_strlit("method");
    reveal_strlit("url");
    reveal_strlit("headers");
    reveal_strlit("body");
    assert("headers"@.len() != "body"@.len());
    assert("method"@.len() != "body"@.len());
    assert("method"@.len() != "headers"@.len());
    assert("method"@.len() != "url"@.len());
    assert("url"@.len() != "body"@.len());
    assert("url"@.len() != "headers"@.len());
    let m = sent_members(e)->Object_0;
    member_is_the_first_of_its_name(m, "method"@, 0);
    member_is_the_first_of_its_name(m, "url"@, 1);
    member_is_the_first_of_its_name(m, "headers"@, 2);
    member_is_the_first_of_its_name(m, "body"@, 3);
}

/// An address is told with its text, its port and its family, `IPv4` or `IPv6`.
pub proof fn addresses_are_told(a: AddrView)
    ensures
        member_of(JsonView::Object(addr_members(Some(a))->Object_0), "address"@) == Some(JsonView::Text(a.address)),
        member_of(JsonView::Object(addr_members(Some(a))->Object_0), "family"@) == Some(JsonView::Text(if a.ipv4 { "IPv4"@ } else { "IPv6"@ })),
        member_of(JsonView::Object(addr_members(Some(a))->Object_0), "port"@) == Some(JsonView::Int(a.port as i64)),
{
    reveal_strlit("address");
    reveal_strlit("family");
    reveal_strlit("port");
    assert("address"@.len() != "family"@.len());
    assert("address"@.len() != "port"@.len());
    assert("family"@.len() != "port"@.len());
    let m = addr_members(Some(a))->Object_0;
    member_is_the_first_of_its_name(m, "address"@, 0);
    member_is_the_first_of_its_name(m, "family"@, 1);
    member_is_the_first_of_its_name(m, "port"@, 2);
}

/// The certificates of a peer are told in their order, each in base64; and a text that is missing is
/// told as null.
pub proof fn certificates_are_told(chain: Seq<Vec<u8>>, i: int, t: Option<String>)
    requires
        0 <= i < chain.len(),
    ensures
        cert_chain(chain) matches JsonView::List(e) && e.len() == chain.len() && e[i]
            == JsonView::Text(base64_of(chain[i]@)),
        t matches Some(s) ==> maybe_text(t) == JsonView::Text(s@),
        t is None ==> maybe_text(t) == JsonView::Null,
        addr_members(None) == JsonView::Null,
{
}

proof fn lemma_header_kept(h: Seq<(Seq<char>, Seq<char>)>, i: int, at: int)
    requires
        0 <= at <= i < h.len(),
        !comes_again(h, i),
    ensures
        header_members(h, at).contains((h[i].0, JsonView::Text(h[i].1))),
    decreases i - at,
{
    let this = (h[i].0, JsonView::Text(h[i].1));
    if at == i {
        assert(header_members(h, at)[0] == this);
    } else {
        lemma_header_kept(h, i, at + 1);
        let rest = header_members(h, at + 1);
        let k = choose|k: int| 0 <= k < rest.len() && rest[k] == this;
        if comes_again(h, at) {
            assert(header_members(h, at)[k] == this);
        } else {
            assert(header_members(h, at)[k + 1] == this);
        }
    }
}

/// Every header is told with its value; of several with one name the last.
pub proof fn headers_are_told(h: Seq<(Seq<char>, Seq<char>)>, i: int)
    requires
        0 <= i < h.len(),
        forall|j: int| i < j < h.len() ==> (#[trigger] h[j]).0 != h[i].0,
    ensures
        header_members(h, 0).contains((h[i].0, JsonView::Text(h[i].1))),
{
    lemma_header_kept(h, i, 0);
}

proof fn lemma_header_given(h: Seq<(Seq<char>, Seq<char>)>, at: int, k: int)
    requires
        0 <= at,
        0 <= k < header_members(h, at).len(),
    ensures
        exists|i: int|
            at <= i < h.len() && #[trigger] h[i].0 == header_members(h, at)[k].0 && JsonView::Text(
                h[i].1,
            ) == header_members(h, at)[k].1,
    decreases h.len() - at,
{
    if at < h.len() {
        if comes_again(h, at) {
            lemma_header_given(h, at + 1, k);
        } else if k > 0 {
            lemma_header_given(h, at + 1, k - 1);
            assert(header_members(h, at)[k] == header_members(h, at + 1)[k - 1]);
        } else {
            assert(header_members(h, at)[0] == (h[at].0, JsonView::Text(h[at].1)));
        }
    }
}

/// No header is told that was not given.
pub proof fn told_headers_were_given(h: Seq<(Seq<char>, Seq<char>)>, k: int)
    requires
        0 <= k < header_members(h, 0).len(),
    ensures
        exists|i: int|
            0 <= i < h.len() && #[trigger] h[i].0 == header_members(h, 0)[k].0 && JsonView::Text(
                h[i].1,
            ) == header_members(h, 0)[k].1,
{
    lemma_header_given(h, 0, k);
}

} // verus!
