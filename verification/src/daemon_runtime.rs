//! What a daemon's event loop decides.
use vstd::prelude::*;

use crate::daemon_dgram::{DaemonDgram, DgramView};
use crate::daemon_http::{DaemonHttp, HttpView};
use crate::daemon_http_outbound::DaemonHttpOutbound;
use crate::daemon_net::{DaemonNet, NetView};
use crate::error::{AfterburnerError, ErrorView};
use crate::host::{TimerSlot, Timers};
use crate::json::{
    elements, json_list, json_maybe, json_object, json_text, members, object_with_text, put, Json,
    JsonView,
};
use crate::registry::{lemma_some_id, one_less, one_more};
use crate::text::{join, joined, texts};

verus! {

/// Why the guest stopped.
pub enum GuestTrap {
    /// It asked to exit with this code.
    Exit(i32),
    /// Its time was up.
    Interrupt,
    /// Its fuel was used up.
    OutOfFuel,
    /// Another trap, as the engine prints it.
    Trap(String),
    /// A failure outside the guest: its text, then the text of its cause, and so on.
    Chain(Vec<String>),
}

/// The error for a trap in the phase `phase` of a daemon.
pub open spec fn daemon_error(phase: Seq<char>, trap: GuestTrap) -> ErrorView {
    match trap {
        GuestTrap::Exit(code) => ErrorView::ProcessExit(code),
        GuestTrap::Interrupt => ErrorView::Timeout,
        GuestTrap::OutOfFuel => ErrorView::FuelExhausted,
        GuestTrap::Trap(text) => ErrorView::WasmTrap(phase + ": "@ + text@),
        GuestTrap::Chain(parts) => ErrorView::WasmTrap(
            phase + ": "@ + joined(texts(parts@), " => "@, parts@.len() as int),
        ),
    }
}

/// The error for a trap in the phase `phase` of a daemon.
pub fn map_daemon_trap(phase: &str, trap: GuestTrap) -> (r: AfterburnerError)
    ensures
        r@ == daemon_error(phase@, trap),
{
    match trap {
        GuestTrap::Exit(code) => AfterburnerError::ProcessExit(code),
        GuestTrap::Interrupt => AfterburnerError::Timeout,
        GuestTrap::OutOfFuel => AfterburnerError::FuelExhausted,
        GuestTrap::Trap(text) => {
            let mut m = phase.to_owned();
            m.append(": ");
            m.append(&text);
            AfterburnerError::WasmTrap(m)
        },
        GuestTrap::Chain(parts) => {
            let mut m = phase.to_owned();
            m.append(": ");
            m.append(&join(&parts, " => "));
            AfterburnerError::WasmTrap(m)
        },
    }
}

/// Whether an HTTP listener, a TCP connection or server, or a datagram socket is open.
pub open spec fn any_socket_open(
    http: HttpView,
    net: Option<NetView>,
    dgram: Option<DgramView>,
) -> bool {
    ||| exists|id: i64| #[trigger] http.listeners.contains_key(id)
    ||| (net matches Some(n) && n.any_open())
    ||| (dgram matches Some(d) && d.any_open())
}

/// What a TCP coordinator holds, where there is one.
pub open spec fn net_view(net: Option<&DaemonNet>) -> Option<NetView> {
    match net {
        Some(n) => Some(n@),
        None => None,
    }
}

/// What a datagram coordinator holds, where there is one.
pub open spec fn dgram_view(dgram: Option<&DaemonDgram>) -> Option<DgramView> {
    match dgram {
        Some(d) => Some(d@),
        None => None,
    }
}

/// How many requests are in flight.
pub open spec fn flying_requests(outbound: Option<&DaemonHttpOutbound>) -> usize {
    match outbound {
        Some(o) => o.flying(),
        None => 0,
    }
}

/// Whether anything keeps a daemon alive.
pub open spec fn kept_alive(
    http: HttpView,
    timers: Seq<TimerSlot>,
    workers_alive: bool,
    net: Option<NetView>,
    tls_alive: bool,
    flying: usize,
    dgram: Option<DgramView>,
) -> bool {
    ||| http.listeners.dom().len() > 0
    ||| exists|i: int| 0 <= i < timers.len() && (#[trigger] timers[i]).is_ref
    ||| workers_alive
    ||| (net matches Some(n) && (n.alive_conns > 0 || n.alive_servers > 0))
    ||| tls_alive
    ||| flying > 0
    ||| (dgram matches Some(d) && d.counts_any())
}

/// Whether anything keeps a daemon alive: an HTTP listener, a timer that is held, a worker, a TCP
/// connection or server, a TLS connection or server, a request whose response the script has not
/// seen, or a datagram socket.
pub fn has_refs(
    http: &DaemonHttp,
    timers: &Timers,
    workers_alive: bool,
    net: Option<&DaemonNet>,
    tls_alive: bool,
    outbound: Option<&DaemonHttpOutbound>,
    dgram: Option<&DaemonDgram>,
) -> (r: bool)
    ensures
        r == kept_alive(
            http@,
            timers.slots(),
            workers_alive,
            net_view(net),
            tls_alive,
            flying_requests(outbound),
            dgram_view(dgram),
        ),
{
    if http.listener_count() > 0 {
        return true;
    }
    if timers.any_ref() {
        return true;
    }
    if workers_alive {
        return true;
    }
    if let Some(n) = net {
        if n.has_refs() {
            return true;
        }
    }
    if let Some(o) = outbound {
        if o.has_refs() {
            return true;
        }
    }
    if let Some(d) = dgram {
        if d.has_refs() {
            return true;
        }
    }
    tls_alive
}

/// A daemon stays up while an HTTP listener, a TCP connection or server, or a datagram socket is
/// open, whatever else there is.
pub proof fn open_socket_keeps_the_daemon_alive(
    http: HttpView,
    timers: Seq<TimerSlot>,
    workers_alive: bool,
    net: Option<NetView>,
    tls_alive: bool,
    flying: usize,
    dgram: Option<DgramView>,
)
    requires
        http.wf(),
        net matches Some(n) ==> n.wf(),
        dgram matches Some(d) ==> d.wf(),
        any_socket_open(http, net, dgram),
    ensures
        kept_alive(http, timers, workers_alive, net, tls_alive, flying, dgram),
{
    lemma_some_id(http.listeners.dom());
    assert(forall|id: i64| #[trigger]
        http.listeners.contains_key(id) ==> http.listeners.dom().contains(id));
    if let Some(n) = net {
        crate::daemon_net::any_open_is_counted(n);
    }
    if let Some(d) = dgram {
        crate::daemon_dgram::any_open_is_counted(d);
    }
}

/// A request keeps the daemon alive from its start until its response is taken, whatever else there
/// is; and once the last response was taken, requests keep it alive no more.
pub proof fn request_keeps_the_daemon_alive(
    http: HttpView,
    timers: Seq<TimerSlot>,
    workers_alive: bool,
    net: Option<NetView>,
    tls_alive: bool,
    flying: usize,
    dgram: Option<DgramView>,
)
    requires
        flying < usize::MAX,
    ensures
        kept_alive(http, timers, workers_alive, net, tls_alive, one_more(flying), dgram),
        kept_alive(
            http,
            timers,
            workers_alive,
            net,
            tls_alive,
            one_less(one_more(flying)),
            dgram,
        ) == kept_alive(http, timers, workers_alive, net, tls_alive, flying, dgram),
{
}

/// Whether a script that was started listens: if it does not, it was no server.
pub fn has_listeners(http: &DaemonHttp) -> (r: bool)
    ensures
        r == (http@.listeners.dom().len() > 0),
{
    http.listener_count() > 0
}

/// How a script is started.
#[derive(Debug, Clone)]
pub struct ScriptInvocation {
    pub argv: Vec<String>,
    /// Environment variables with their values; no name twice.
    pub env: Vec<(String, String)>,
    pub cwd: Option<String>,
}

/// Texts as a JSON list.
pub open spec fn text_list(v: Seq<String>) -> JsonView {
    JsonView::List(Seq::new(v.len(), |i: int| JsonView::Text(v[i]@)))
}

/// Names with values as a JSON object.
pub open spec fn text_object(v: Seq<(String, String)>) -> JsonView {
    JsonView::Object(Seq::new(v.len(), |i: int| (v[i].0@, JsonView::Text(v[i].1@))))
}

/// Texts as a JSON list.
pub fn texts_json(v: &Vec<String>) -> (r: Json)
    ensures
        r@ == text_list(v@),
{
    let mut out: Vec<Json> = Vec::new();
    let mut i: usize = 0;
    while i < v.len()
        invariant
            i <= v@.len(),
            out@.len() == i,
            forall|j: int| 0 <= j < i ==> (#[trigger] out@[j])@ == JsonView::Text(v@[j]@),
        decreases v@.len() - i,
    {
        out.push(json_text(&v[i]));
        i += 1;
    }
    assert(elements(out@) =~= Seq::new(v@.len(), |i: int| JsonView::Text(v@[i]@)));
    json_list(out)
}

/// Names with values as a JSON object.
pub fn pairs_json(v: &Vec<(String, String)>) -> (r: Json)
    ensures
        r@ == text_object(v@),
{
    let mut out: Vec<(String, Json)> = Vec::new();
    let mut i: usize = 0;
    while i < v.len()
        invariant
            i <= v@.len(),
            members(out@) == Seq::new(i as nat, |j: int| (v@[j].0@, JsonView::Text(v@[j].1@))),
        decreases v@.len() - i,
    {
        put(&mut out, &v[i].0, json_text(&v[i].1));
        i += 1;
        assert(members(out@) =~= Seq::new(
            i as nat,
            |j: int| (v@[j].0@, JsonView::Text(v@[j].1@)),
        ));
    }
    json_object(out)
}

/// The envelope that starts the script `source`.
pub fn init_envelope(source: &str, invocation: &ScriptInvocation) -> (r: Json)
    ensures
        r@ == JsonView::Object(
            seq![
                ("mode"@, JsonView::Text("daemon-init"@)),
                ("source"@, JsonView::Text(source@)),
                ("argv"@, text_list(invocation.argv@)),
                ("env"@, text_object(invocation.env@)),
                (
                    "cwd"@,
                    match invocation.cwd {
                        Some(dir) => JsonView::Text(dir@),
                        None => JsonView::Null,
                    },
                ),
            ],
        ),
{
    let mut o = object_with_text("mode", "daemon-init");
    put(&mut o, "source", json_text(source));
    put(&mut o, "argv", texts_json(&invocation.argv));
    put(&mut o, "env", pairs_json(&invocation.env));
    put(&mut o, "cwd", json_maybe(&invocation.cwd));
    let r = json_object(o);
    assert(r@->Object_0 =~= seq![
        ("mode"@, JsonView::Text("daemon-init"@)),
        ("source"@, JsonView::Text(source@)),
        ("argv"@, text_list(invocation.argv@)),
        ("env"@, text_object(invocation.env@)),
        (
            "cwd"@,
            match invocation.cwd {
                Some(dir) => JsonView::Text(dir@),
                None => JsonView::Null,
            },
        ),
    ]);
    r
}

/// The envelope that hands `event` to the script.
pub fn event_envelope(event: Json) -> (r: Json)
    ensures
        r@ == JsonView::Object(
            seq![("mode"@, JsonView::Text("daemon-event"@)), ("event"@, event@)],
        ),
{
    let mut o = object_with_text("mode", "daemon-event");
    put(&mut o, "event", event);
    let r = json_object(o);
    assert(r@->Object_0 =~= seq![
        ("mode"@, JsonView::Text("daemon-event"@)),
        ("event"@, event@),
    ]);
    r
}

/// Each of these alone keeps a daemon alive: a listener, a timer that is held, a worker, a connection
/// or server, TLS, a request in flight, or a datagram socket; and with none of them it may end.
pub proof fn daemon_ends_where_nothing_is_left(
    http: HttpView,
    timers: Seq<TimerSlot>,
    workers_alive: bool,
    net: Option<NetView>,
    tls_alive: bool,
    flying: usize,
    dgram: Option<DgramView>,
    i: int,
)
    requires
        http.wf(),
        net matches Some(n) ==> n.wf(),
        dgram matches Some(d) ==> d.wf(),
    ensures
        workers_alive || tls_alive || flying > 0 ==> kept_alive(
            http,
            timers,
            workers_alive,
            net,
            tls_alive,
            flying,
            dgram,
        ),
        0 <= i < timers.len() && timers[i].is_ref ==> kept_alive(
            http,
            timers,
            workers_alive,
            net,
            tls_alive,
            flying,
            dgram,
        ),
        !workers_alive && !tls_alive && flying == 0 && (forall|k: int|
            0 <= k < timers.len() ==> !(#[trigger] timers[k]).is_ref) && (forall|id: i64|
            !#[trigger] http.listeners.contains_key(id)) && (net matches Some(n) ==> (forall|id: i64|
            !#[trigger] n.pending.contains_key(id)) && (forall|id: i64|
            !#[trigger] n.servers.contains_key(id))) && (dgram matches Some(d) ==> (forall|id: i64|
            !#[trigger] d.ports.contains_key(id)) && (forall|id: i64|
            !#[trigger] d.joined.contains_key(id))) ==> !kept_alive(
            http,
            timers,
            workers_alive,
            net,
            tls_alive,
            flying,
            dgram,
        ),
{
    lemma_some_id(http.listeners.dom());
    assert(forall|id: i64| #[trigger]
        http.listeners.dom().contains(id) ==> http.listeners.contains_key(id));
    if let Some(n) = net {
        crate::daemon_net::any_open_is_counted(n);
    }
    if let Some(d) = dgram {
        crate::daemon_dgram::any_open_is_counted(d);
    }
}

/// A daemon ends as its guest did: with the code that it left with, out of time, out of fuel, or with
/// a trap that names the phase.
pub proof fn daemon_errors_tell_how_the_guest_ended(phase: Seq<char>, trap: GuestTrap)
    ensures
        trap matches GuestTrap::Exit(code) ==> daemon_error(phase, trap) == ErrorView::ProcessExit(
            code,
        ),
        trap is Interrupt ==> daemon_error(phase, trap) == ErrorView::Timeout,
        trap is OutOfFuel ==> daemon_error(phase, trap) == ErrorView::FuelExhausted,
        trap matches GuestTrap::Trap(text) ==> daemon_error(phase, trap) == ErrorView::WasmTrap(
            phase + seq![':', ' '] + text@,
        ),
        trap matches GuestTrap::Chain(parts) ==> daemon_error(phase, trap) == ErrorView::WasmTrap(
            phase + seq![':', ' '] + joined(texts(parts@), " => "@, parts@.len() as int),
        ),
{
    reveal_strlit(": ");
    assert(": "@ =~= seq![':', ' ']);
}

/// Texts are told as a list of all of them in their order, and pairs as an object of all of them.
pub proof fn texts_and_pairs_are_told(v: Seq<String>, p: Seq<(String, String)>, i: int)
    ensures
        text_list(v) matches JsonView::List(e) && e.len() == v.len() && (0 <= i < v.len() ==> e[i]
            == JsonView::Text(v[i]@)),
        text_object(p) matches JsonView::Object(m) && m.len() == p.len() && (0 <= i < p.len() ==> m[i]
            == (p[i].0@, JsonView::Text(p[i].1@))),
{
}

} // verus!
