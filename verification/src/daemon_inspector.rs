//! Debugger bridge of a daemon.
//!
//! A debugger attaches over a web socket, and its frames go to the script. This module gives the
//! sessions their ids, says who gets a frame, and answers what a debugger asks before it attaches.
//! The listener and the sockets are the caller's.
use vstd::prelude::*;

use crate::json::{
    json_list, json_object, json_text, members, elements, object_with_text, put, Json, JsonView,
};
use crate::registry::{next_after, next_id, no_numbers, IdMap};
use crate::text::{decimal, push_u64};

verus! {

pub type SessionId = i32;

/// What happened in a debugger session.
#[derive(Debug, Clone)]
pub struct InspectorEvent {
    pub session_id: SessionId,
    pub kind: InspectorEventKind,
}

/// Kinds of session events.
#[derive(Debug, Clone)]
pub enum InspectorEventKind {
    /// A frame from the debugger.
    Message(String),
    SessionOpened,
    SessionClosed,
}

/// No runtime to listen on.
pub const ERR_NO_RUNTIME: i32 = -1;

/// The port could not be bound.
pub const ERR_BIND: i32 = -2;

/// The listener is open already.
pub const ERR_ALREADY_OPEN: i32 = -3;

/// The listener is not open.
pub const ERR_NOT_OPEN: i32 = -4;

/// A place for one value, which is set once until it is taken.
pub struct OnceCell<T> {
    value: Option<T>,
}

impl<T> OnceCell<T> {
    /// What the cell holds.
    pub closed spec fn held(&self) -> Option<T> {
        self.value
    }

    /// An empty cell.
    pub fn new() -> (r: Self)
        ensures
            r.held() is None,
    {
        OnceCell { value: None }
    }

    /// Puts `v` into an empty cell; `false`, and no change, where the cell holds a value.
    pub fn set(&mut self, v: T) -> (r: bool)
        ensures
            r == (old(self).held() is None),
            r ==> final(self).held() == Some(v),
            !r ==> final(self).held() == old(self).held(),
    {
        if self.value.is_some() {
            return false;
        }
        self.value = Some(v);
        true
    }

    /// Takes the value out.
    pub fn take(&mut self) -> (r: Option<T>)
        ensures
            r == old(self).held(),
            final(self).held() is None,
    {
        self.value.take()
    }
}

/// What the bridge remembers.
pub struct DaemonInspector {
    next_session_id: i32,
    sessions: IdMap,
    bound_port: u16,
}

/// What the bridge remembers, over sequences.
#[verifier::ext_equal]
pub struct InspectorView {
    pub next_session: i32,
    pub sessions: Map<i64, i128>,
    /// The port that is listened on; zero where none is.
    pub port: u16,
}

impl View for DaemonInspector {
    type V = InspectorView;

    closed spec fn view(&self) -> InspectorView {
        InspectorView {
            next_session: self.next_session_id,
            sessions: self.sessions@,
            port: self.bound_port,
        }
    }
}

impl InspectorView {
    /// Whether what is recorded are sessions.
    pub open spec fn wf(self) -> bool {
        forall|id: i64| #[trigger]
            self.sessions.contains_key(id) ==> i32::MIN <= id <= i32::MAX
    }

    /// The bridge with one more session.
    pub open spec fn opened(self) -> InspectorView {
        InspectorView {
            next_session: next_after(self.next_session),
            sessions: self.sessions.insert(self.next_session as i64, 1),
            ..self
        }
    }

    /// The bridge without session `id`.
    pub open spec fn left(self, id: i32) -> InspectorView {
        InspectorView { sessions: self.sessions.remove(id as i64), ..self }
    }
}

impl DaemonInspector {
    /// A bridge that does not listen.
    pub fn new() -> (r: Self)
        ensures
            r@.wf(),
            r@ == (InspectorView { next_session: 1, sessions: no_numbers(), port: 0 }),
    {
        DaemonInspector { next_session_id: 1, sessions: IdMap::new(), bound_port: 0 }
    }

    /// The port that is listened on; zero where none is.
    pub fn bound_port(&self) -> (r: u16)
        ensures
            r == self@.port,
    {
        self.bound_port
    }

    /// Decides on opening the listener: the code that refuses it, or `None` where a port is to be
    /// bound.
    pub fn open(&self) -> (r: Option<i32>)
        ensures
            r == (if self@.port != 0 {
                Some(ERR_ALREADY_OPEN)
            } else {
                None
            }),
    {
        if self.bound_port != 0 {
            Some(ERR_ALREADY_OPEN)
        } else {
            None
        }
    }

    /// Completes opening the listener: the port that was bound, or `None` where none was. The
    /// answer is the port, or the code for a failed bind.
    pub fn finish_open(&mut self, bound: Option<u16>) -> (r: i32)
        ensures
            match bound {
                Some(port) => r == port && final(self)@ == (InspectorView { port, ..old(self)@ }),
                None => r == ERR_BIND && final(self)@ == old(self)@,
            },
    {
        match bound {
            Some(port) => {
                self.bound_port = port;
                port as i32
            },
            None => ERR_BIND,
        }
    }

    /// Closes the listener and ends every session: zero, or the code where it is not open.
    pub fn close(&mut self) -> (r: i32)
        requires
            old(self)@.wf(),
        ensures
            final(self)@.wf(),
            old(self)@.port == 0 ==> r == ERR_NOT_OPEN && final(self)@ == old(self)@,
            old(self)@.port != 0 ==> r == 0 && final(self)@ == (InspectorView {
                sessions: no_numbers(),
                port: 0,
                ..old(self)@
            }),
    {
        if self.bound_port == 0 {
            return ERR_NOT_OPEN;
        }
        let ids = self.sessions.keys();
        let ghost all = self.sessions@;
        let mut i: usize = 0;
        while i < ids.len()
            invariant
                i <= ids@.len(),
                ids@.to_set() == all.dom(),
                self.next_session_id == old(self).next_session_id,
                self.bound_port == old(self).bound_port,
                forall|k: i64| #[trigger]
                    self.sessions@.contains_key(k) ==> all.contains_key(k) && exists|j: int|
                        i <= j < ids@.len() && #[trigger] ids@[j] == k,
            decreases ids@.len() - i,
        {
            let id: i64 = ids[i];
            let ghost before = self.sessions@;
            self.sessions.remove(id);
            assert forall|k: i64| #[trigger] self.sessions@.contains_key(k) implies all.contains_key(
                k,
            ) && exists|j: int| i + 1 <= j < ids@.len() && #[trigger] ids@[j] == k by {
                assert(before.contains_key(k));
                let j = choose|j: int| i <= j < ids@.len() && #[trigger] ids@[j] == k;
                assert(ids@[j] == k);
                assert(j != i);
            }
            i += 1;
        }
        self.bound_port = 0;
        assert(self@.sessions =~= no_numbers());
        0
    }

    /// Takes up a session: its id, and the event for the script.
    pub fn open_session(&mut self) -> (r: InspectorEvent)
        requires
            old(self)@.wf(),
        ensures
            final(self)@.wf(),
            final(self)@ == old(self)@.opened(),
            r.session_id == old(self)@.next_session,
            r.kind is SessionOpened,
    {
        let session_id: i32 = self.next_session_id;
        self.next_session_id = next_id(session_id);
        self.sessions.insert(session_id as i64, 1);
        assert forall|k: i64| #[trigger] self@.sessions.contains_key(k) implies i32::MIN <= k
            <= i32::MAX by {
            if k != session_id as i64 {
                assert(old(self)@.sessions.contains_key(k));
            }
        }
        InspectorEvent { session_id, kind: InspectorEventKind::SessionOpened }
    }

    /// Ends session `session_id`: the event for the script.
    pub fn close_session(&mut self, session_id: SessionId) -> (r: InspectorEvent)
        requires
            old(self)@.wf(),
        ensures
            final(self)@.wf(),
            final(self)@ == old(self)@.left(session_id),
            r.session_id == session_id,
            r.kind is SessionClosed,
    {
        self.sessions.remove(session_id as i64);
        assert forall|k: i64| #[trigger] self@.sessions.contains_key(k) implies i32::MIN <= k
            <= i32::MAX by {
            assert(old(self)@.sessions.contains_key(k));
        }
        InspectorEvent { session_id, kind: InspectorEventKind::SessionClosed }
    }

    /// The sessions that get a frame for `session_id`: every session where that is zero, and
    /// otherwise the one, if there is one. In which order all of them come is left open.
    pub fn send(&self, session_id: SessionId) -> (r: Vec<i64>)
        ensures
            r@.no_duplicates(),
            session_id == 0 ==> r@.to_set() == self@.sessions.dom(),
            session_id != 0 ==> r@ == (if self@.sessions.contains_key(session_id as i64) {
                seq![session_id as i64]
            } else {
                Seq::empty()
            }),
    {
        if session_id == 0 {
            return self.sessions.keys();
        }
        let mut out: Vec<i64> = Vec::new();
        if self.sessions.get(session_id as i64).is_some() {
            out.push(session_id as i64);
            assert(out@ =~= seq![session_id as i64]);
        }
        out
    }
}

/// A frame as it comes from a debugger.
pub enum Frame {
    Text(String),
    Binary(Vec<u8>),
    /// A probe that wants no answer from the script.
    Control,
    Closed,
}

/// What to do with a frame.
pub enum FrameStep {
    /// Hand this event to the script.
    Forward(InspectorEvent),
    /// Nothing.
    Skip,
    /// End the session.
    Stop,
}

/// Decides on a frame of session `session_id`. Binary frames are text too, where they are UTF-8.
pub fn frame_step(session_id: SessionId, frame: Frame) -> (r: FrameStep)
    ensures
        match frame {
            Frame::Text(t) => r matches FrameStep::Forward(e) && e.session_id == session_id && e.kind
                == InspectorEventKind::Message(t),
            Frame::Binary(b) => if vstd::utf8::valid_utf8(b@) {
                r matches FrameStep::Forward(e) && e.session_id == session_id && (e.kind matches
                    InspectorEventKind::Message(t) && t@ == vstd::utf8::decode_utf8(b@))
            } else {
                r is Skip
            },
            Frame::Control => r is Skip,
            Frame::Closed => r is Stop,
        },
{
    match frame {
        Frame::Text(t) => FrameStep::Forward(
            InspectorEvent { session_id, kind: InspectorEventKind::Message(t) },
        ),
        Frame::Binary(b) => match crate::bytes::text_from_utf8(&b) {
            Ok(t) => FrameStep::Forward(
                InspectorEvent { session_id, kind: InspectorEventKind::Message(t) },
            ),
            Err(_) => FrameStep::Skip,
        },
        Frame::Control => FrameStep::Skip,
        Frame::Closed => FrameStep::Stop,
    }
}

/// Where the web socket of a bridge on `port` is found, behind the scheme.
pub open spec fn socket_place(port: u16) -> Seq<char> {
    "127.0.0.1:"@ + decimal(port as int) + "/devtools/page/burn-"@ + decimal(port as int)
}

fn push_socket_place(out: &mut String, port: u16)
    ensures
        final(out)@ == old(out)@ + socket_place(port),
{
    out.append("127.0.0.1:");
    push_u64(out, port as u64);
    out.append("/devtools/page/burn-");
    push_u64(out, port as u64);
    assert(out@ =~= old(out)@ + socket_place(port));
}

/// What a bridge on `port` says of itself.
pub open spec fn version_members(port: u16) -> Seq<(Seq<char>, JsonView)> {
    seq![
        ("Browser"@, JsonView::Text("burn/1.0"@)),
        ("Protocol-Version"@, JsonView::Text("1.3"@)),
        ("User-Agent"@, JsonView::Text("burn-cdp/1.0"@)),
        ("V8-Version"@, JsonView::Text("QuickJS-via-Javy"@)),
        ("WebKit-Version"@, JsonView::Text("0.0"@)),
        ("webSocketDebuggerUrl"@, JsonView::Text("ws://"@ + socket_place(port))),
    ]
}

/// What a bridge on `port` says of itself.
pub fn json_version(port: u16) -> (r: Json)
    ensures
        r@ == JsonView::Object(version_members(port)),
{
    let mut url = "ws://".to_owned();
    push_socket_place(&mut url, port);
    let mut o = object_with_text("Browser", "burn/1.0");
    put(&mut o, "Protocol-Version", json_text("1.3"));
    put(&mut o, "User-Agent", json_text("burn-cdp/1.0"));
    put(&mut o, "V8-Version", json_text("QuickJS-via-Javy"));
    put(&mut o, "WebKit-Version", json_text("0.0"));
    put(&mut o, "webSocketDebuggerUrl", Json::Text(url));
    assert(members(o@) =~= version_members(port));
    json_object(o)
}

/// A protocol domain.
pub open spec fn domain(name: Seq<char>) -> JsonView {
    JsonView::Object(seq![("domain"@, JsonView::Text(name))])
}

/// The protocol that a bridge speaks.
pub open spec fn protocol_members() -> Seq<(Seq<char>, JsonView)> {
    seq![
        (
            "version"@,
            JsonView::Object(
                seq![("major"@, JsonView::Text("1"@)), ("minor"@, JsonView::Text("3"@))],
            ),
        ),
        (
            "domains"@,
            JsonView::List(
                seq![
                    domain("Runtime"@),
                    domain("Debugger"@),
                    domain("HeapProfiler"@),
                    domain("Profiler"@),
                    domain("Inspector"@),
                ],
            ),
        ),
    ]
}

fn domain_json(name: &str) -> (r: Json)
    ensures
        r@ == domain(name@),
{
    let o = object_with_text("domain", name);
    json_object(o)
}

/// The protocol that a bridge speaks.
pub fn json_protocol() -> (r: Json)
    ensures
        r@ == JsonView::Object(protocol_members()),
{
    let mut version = object_with_text("major", "1");
    put(&mut version, "minor", json_text("3"));
    assert(members(version@) =~= seq![
        ("major"@, JsonView::Text("1"@)),
        ("minor"@, JsonView::Text("3"@)),
    ]);
    let mut domains: Vec<Json> = Vec::new();
    domains.push(domain_json("Runtime"));
    domains.push(domain_json("Debugger"));
    domains.push(domain_json("HeapProfiler"));
    domains.push(domain_json("Profiler"));
    domains.push(domain_json("Inspector"));
    assert(elements(domains@) =~= seq![
        domain("Runtime"@),
        domain("Debugger"@),
        domain("HeapProfiler"@),
        domain("Profiler"@),
        domain("Inspector"@),
    ]);
    let mut o: Vec<(String, Json)> = Vec::new();
    put(&mut o, "version", json_object(version));
    put(&mut o, "domains", json_list(domains));
    assert(members(o@) =~= protocol_members());
    json_object(o)
}

/// The one target of a bridge on `port`.
pub open spec fn target_members(port: u16) -> Seq<(Seq<char>, JsonView)> {
    seq![
        ("description"@, JsonView::Text("burn instance"@)),
        (
            "devtoolsFrontendUrl"@,
            JsonView::Text(
                "devtools://devtools/bundled/inspector.html?ws="@ + socket_place(port),
            ),
        ),
        ("id"@, JsonView::Text("burn-"@ + decimal(port as int))),
        ("title"@, JsonView::Text("burn"@)),
        ("type"@, JsonView::Text("node"@)),
        ("url"@, JsonView::Text("burn://main"@)),
        ("webSocketDebuggerUrl"@, JsonView::Text("ws://"@ + socket_place(port))),
    ]
}

/// The targets of a bridge on `port`.
pub fn json_targets(port: u16) -> (r: Json)
    ensures
        r@ == JsonView::List(seq![JsonView::Object(target_members(port))]),
{
    let mut frontend = "devtools://devtools/bundled/inspector.html?ws=".to_owned();
    push_socket_place(&mut frontend, port);
    let mut id = "burn-".to_owned();
    push_u64(&mut id, port as u64);
    let mut url = "ws://".to_owned();
    push_socket_place(&mut url, port);
    let mut o = object_with_text("description", "burn instance");
    put(&mut o, "devtoolsFrontendUrl", Json::Text(frontend));
    put(&mut o, "id", Json::Text(id));
    put(&mut o, "title", json_text("burn"));
    put(&mut o, "type", json_text("node"));
    put(&mut o, "url", json_text("burn://main"));
    put(&mut o, "webSocketDebuggerUrl", Json::Text(url));
    assert(members(o@) =~= target_members(port));
    let mut v: Vec<Json> = Vec::new();
    v.push(json_object(o));
    assert(elements(v@) =~= seq![JsonView::Object(target_members(port))]);
    json_list(v)
}

/// A session that has left gets no more frames; the others still do.
pub proof fn left_session_is_gone(v: InspectorView, id: i32, other: i32)
    ensures
        !v.left(id).sessions.contains_key(id as i64),
        id != other ==> v.left(id).sessions.contains_key(other as i64) == v.sessions.contains_key(
            other as i64,
        ),
        v.left(id).left(id) == v.left(id),
{
    assert(v.left(id).left(id).sessions =~= v.left(id).sessions);
}

/// A session that is opened is there under the next id, and every other is as it was; ids go up one by
/// one.
pub proof fn sessions_are_opened(v: InspectorView, other: i32)
    requires
        other != v.next_session,
    ensures
        v.opened().sessions.contains_key(v.next_session as i64),
        v.opened().sessions.contains_key(other as i64) == v.sessions.contains_key(other as i64),
        v.next_session < i32::MAX ==> v.opened().next_session == v.next_session + 1,
        v.opened().port == v.port,
        v.left(other).port == v.port,
        v.left(other).sessions.contains_key(v.next_session as i64) == v.sessions.contains_key(
            v.next_session as i64,
        ),
{
}

/// A debugger finds the inspector on the own machine, at the port where it is bound.
pub proof fn debugger_finds_the_inspector(port: u16)
    ensures
        socket_place(port) == "127.0.0.1:"@ + decimal(port as int) + "/devtools/page/burn-"@
            + decimal(port as int),
        version_members(port).last() == (
            "webSocketDebuggerUrl"@,
            JsonView::Text("ws://"@ + socket_place(port)),
        ),
        target_members(port).last() == (
            "webSocketDebuggerUrl"@,
            JsonView::Text("ws://"@ + socket_place(port)),
        ),
        target_members(port)[2] == ("id"@, JsonView::Text("burn-"@ + decimal(port as int))),
        ERR_NO_RUNTIME == -1,
        ERR_BIND == -2,
        ERR_ALREADY_OPEN == -3,
        ERR_NOT_OPEN == -4,
{
}

} // verus!
