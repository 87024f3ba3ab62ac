//! HTTP coordinator of a daemon: server ids, ports and requests that wait for a reply.
//!
//! A script that listens gets a server id, under which its handler is found again. An incoming
//! request gets a request id, under which the script's reply finds the connection that waits for
//! it. Sockets themselves are the caller's: it binds and serves where this coordinator tells it to.
use vstd::prelude::*;
use vstd::utf8::encode_utf8;

use crate::bytes::bytes_of;
use crate::registry::{next_positive, no_numbers, positive_after, IdMap};
use crate::text::{digits, push_u64};

verus! {

pub type ServerId = i32;

pub type ReqId = i64;

/// What is known of a listener.
#[derive(Debug, Clone)]
pub struct ListenerSlot {
    pub port: u16,
}

/// A script's reply to a request.
#[derive(Debug, Clone)]
pub struct ReplyEnvelope {
    pub status: u16,
    pub headers: Vec<(String, String)>,
    pub body: Vec<u8>,
}

/// A request on its way to the script.
#[derive(Debug, Clone)]
pub struct DaemonEvent {
    pub server_id: ServerId,
    pub req_id: ReqId,
    pub method: String,
    pub url: String,
    pub headers: Vec<(String, String)>,
    pub body: Vec<u8>,
}

/// No daemon runs.
pub const LISTEN_ERR_NO_DAEMON: i32 = -1;

/// The port is taken.
pub const LISTEN_ERR_ADDR_IN_USE: i32 = -2;

/// The socket could not be set up.
pub const LISTEN_ERR_IO: i32 = -3;

/// Bytes that the body of a request may have.
pub const MAX_BODY: usize = 16_777_216;

/// How a claim on a port ended.
#[derive(Debug, Clone, Copy, PartialEq, Eq, Structural)]
pub enum PortClaim {
    /// Won: the caller binds the socket.
    Owner(ServerId),
    /// Held by another shard under this id, which this one joins.
    Follower(ServerId),
    /// Held, and listeners are not shared.
    Busy,
}

/// What to do next for a script that asked to listen.
#[derive(Debug, Clone, Copy, PartialEq, Eq, Structural)]
pub enum BindStep {
    /// Nothing; this is the answer.
    Answer(i32),
    /// Bind the port, and report how that went under this id.
    Bind(ServerId),
}

/// How binding a port went.
#[derive(Debug, Clone, Copy, PartialEq, Eq, Structural)]
pub enum BindOutcome {
    Bound,
    AddrInUse,
    Failed,
}

/// What to do with an incoming request.
pub enum Admission {
    /// Answer it with this.
    Refuse(ReplyEnvelope),
    /// Hand it to the script, and wait for the reply under its request id.
    Dispatch(DaemonEvent),
}

/// What a coordinator holds.
#[verifier::ext_equal]
pub struct HttpView {
    pub next_server: i32,
    pub next_req: i64,
    /// Server id to port.
    pub listeners: Map<i64, i128>,
    /// Port to server id.
    pub ports: Map<i64, i128>,
    /// Port to id, for datagram listeners.
    pub h3_ports: Map<i64, i128>,
    /// Requests that wait for a reply.
    pub pending: Map<i64, i128>,
    pub shared: bool,
    pub serving: bool,
}

/// The HTTP coordinator.
pub struct DaemonHttp {
    next_server_id: i32,
    next_req_id: i64,
    listeners: IdMap,
    ports_in_use: IdMap,
    h3_ports_in_use: IdMap,
    pending: IdMap,
    shared_listeners: bool,
    serving: bool,
}

impl View for DaemonHttp {
    type V = HttpView;

    closed spec fn view(&self) -> HttpView {
        HttpView {
            next_server: self.next_server_id,
            next_req: self.next_req_id,
            listeners: self.listeners@,
            ports: self.ports_in_use@,
            h3_ports: self.h3_ports_in_use@,
            pending: self.pending@,
            shared: self.shared_listeners,
            serving: self.serving,
        }
    }
}

impl HttpView {
    /// Whether ids are positive, the tables hold ids and ports, and every listener holds its port.
    pub open spec fn wf(self) -> bool {
        &&& self.next_server >= 1
        &&& self.listeners.dom().finite()
        &&& forall|id: i64| #[trigger]
            self.listeners.contains_key(id) ==> {
                &&& 1 <= id <= i32::MAX
                &&& 0 <= self.listeners[id] <= u16::MAX
                &&& self.ports.contains_key(self.listeners[id] as i64)
                &&& self.ports[self.listeners[id] as i64] == id
            }
        &&& forall|port: i64| #[trigger]
            self.ports.contains_key(port) ==> 1 <= self.ports[port] <= i32::MAX
        &&& forall|port: i64| #[trigger]
            self.h3_ports.contains_key(port) ==> 1 <= self.h3_ports[port] <= i32::MAX
    }

    /// The coordinator after it gave out a server id.
    pub open spec fn id_taken(self) -> HttpView {
        HttpView { next_server: positive_after(self.next_server), ..self }
    }

    /// Whether nobody but the next id holds `port`.
    pub open spec fn port_free(self, port: u16) -> bool {
        !self.ports.contains_key(port as i64) || self.ports[port as i64] == self.next_server
    }

    /// The coordinator after the next id took `port`.
    pub open spec fn port_taken(self, port: u16) -> HttpView {
        HttpView { ports: self.ports.insert(port as i64, self.next_server as i128), ..self.id_taken()
        }
    }

    /// The coordinator with `id` listening on `port`.
    pub open spec fn listening(self, id: i32, port: u16) -> HttpView {
        HttpView { listeners: self.listeners.insert(id as i64, port as i128), ..self }
    }

    /// What claiming `port` does, and how the claim ends.
    pub open spec fn claim(self, port: u16) -> (HttpView, PortClaim) {
        if self.port_free(port) {
            (
                self.port_taken(port).listening(self.next_server, port),
                PortClaim::Owner(self.next_server),
            )
        } else if self.shared {
            (self.id_taken(), PortClaim::Follower(self.ports[port as i64] as i32))
        } else {
            (self.id_taken(), PortClaim::Busy)
        }
    }

    /// What claiming `port` for datagrams does, and how the claim ends.
    pub open spec fn claim_h3(self, port: u16) -> (HttpView, PortClaim) {
        let held = self.h3_ports.contains_key(port as i64);
        if !held || self.h3_ports[port as i64] == self.next_server {
            (
                HttpView {
                    h3_ports: self.h3_ports.insert(port as i64, self.next_server as i128),
                    ..self.id_taken()
                },
                PortClaim::Owner(self.next_server),
            )
        } else if self.shared {
            (self.id_taken(), PortClaim::Follower(self.h3_ports[port as i64] as i32))
        } else {
            (self.id_taken(), PortClaim::Busy)
        }
    }

    /// The coordinator after listener `id` was closed.
    pub open spec fn closed(self, id: i32) -> HttpView {
        if self.listeners.contains_key(id as i64) {
            HttpView {
                listeners: self.listeners.remove(id as i64),
                ports: self.ports.remove(self.listeners[id as i64] as i64),
                ..self
            }
        } else {
            self
        }
    }

    /// The coordinator after the claim on `port` was given up.
    pub open spec fn released(self, port: u16) -> HttpView {
        if self.ports.contains_key(port as i64) {
            HttpView {
                listeners: self.listeners.remove(self.ports[port as i64] as i64),
                ports: self.ports.remove(port as i64),
                ..self
            }
        } else {
            self
        }
    }

    /// The coordinator after request `id` got its reply.
    pub open spec fn replied(self, id: i64) -> HttpView {
        HttpView { pending: self.pending.remove(id), ..self }
    }

    /// The coordinator after it gave out a request id.
    pub open spec fn awaiting(self) -> HttpView {
        HttpView {
            pending: self.pending.insert(self.next_req, 1),
            next_req: if self.next_req == i64::MAX {
                i64::MIN
            } else {
                (self.next_req + 1) as i64
            },
            ..self
        }
    }
}

proof fn lemma_closed_wf(v: HttpView, id: i32)
    requires
        v.wf(),
    ensures
        v.closed(id).wf(),
{
    let w = v.closed(id);
    assert forall|k: i64| #[trigger] w.listeners.contains_key(k) implies {
        &&& 1 <= k <= i32::MAX
        &&& 0 <= w.listeners[k] <= u16::MAX
        &&& w.ports.contains_key(w.listeners[k] as i64)
        &&& w.ports[w.listeners[k] as i64] == k
    } by {
        assert(v.listeners.contains_key(k));
        if v.listeners.contains_key(id as i64) {
            assert(v.ports[v.listeners[id as i64] as i64] == id as i64);
        }
    }
    assert forall|port: i64| #[trigger] w.ports.contains_key(port) implies 1 <= w.ports[port]
        <= i32::MAX by {
        assert(v.ports.contains_key(port));
    }
}

proof fn lemma_bind_wf(v: HttpView, port: u16, id: i32)
    requires
        v.wf(),
        v.ports.contains_key(port as i64),
        v.ports[port as i64] == id,
        !v.listeners.contains_key(id as i64),
    ensures
        v.listening(id, port).wf(),
        (HttpView { ports: v.ports.remove(port as i64), ..v }).wf(),
{
    let w = HttpView { ports: v.ports.remove(port as i64), ..v };
    assert forall|k: i64| #[trigger] w.listeners.contains_key(k) implies {
        &&& 1 <= k <= i32::MAX
        &&& 0 <= w.listeners[k] <= u16::MAX
        &&& w.ports.contains_key(w.listeners[k] as i64)
        &&& w.ports[w.listeners[k] as i64] == k
    } by {
        assert(v.listeners.contains_key(k));
    }
    assert forall|p: i64| #[trigger] w.ports.contains_key(p) implies 1 <= w.ports[p]
        <= i32::MAX by {
        assert(v.ports.contains_key(p));
    }
    let u = v.listening(id, port);
    assert forall|k: i64| #[trigger] u.listeners.contains_key(k) implies {
        &&& 1 <= k <= i32::MAX
        &&& 0 <= u.listeners[k] <= u16::MAX
        &&& u.ports.contains_key(u.listeners[k] as i64)
        &&& u.ports[u.listeners[k] as i64] == k
    } by {
        if k != id as i64 {
            assert(v.listeners.contains_key(k));
        }
    }
}

proof fn lemma_released_wf(v: HttpView, port: u16)
    requires
        v.wf(),
    ensures
        v.released(port).wf(),
{
    let w = v.released(port);
    assert forall|k: i64| #[trigger] w.listeners.contains_key(k) implies {
        &&& 1 <= k <= i32::MAX
        &&& 0 <= w.listeners[k] <= u16::MAX
        &&& w.ports.contains_key(w.listeners[k] as i64)
        &&& w.ports[w.listeners[k] as i64] == k
    } by {
        assert(v.listeners.contains_key(k));
    }
    assert forall|p: i64| #[trigger] w.ports.contains_key(p) implies 1 <= w.ports[p]
        <= i32::MAX by {
        assert(v.ports.contains_key(p));
    }
}

/// The answer that a claim comes down to: an id, or the code for a taken port.
pub open spec fn claim_answer(c: PortClaim) -> i32 {
    match c {
        PortClaim::Owner(id) => id,
        PortClaim::Follower(id) => id,
        PortClaim::Busy => LISTEN_ERR_ADDR_IN_USE,
    }
}

/// What a refused request is told of its body.
pub open spec fn body_too_large_text() -> Seq<char> {
    "burn: request body exceeds "@ + digits(MAX_BODY as nat) + " bytes"@
}

impl DaemonHttp {
    /// A coordinator that binds no sockets: listening only gives out ids.
    pub fn new() -> (r: Self)
        ensures
            r@.wf(),
            r@ == (HttpView {
                next_server: 1,
                next_req: 1,
                listeners: no_numbers(),
                ports: no_numbers(),
                h3_ports: no_numbers(),
                pending: no_numbers(),
                shared: false,
                serving: false,
            }),
    {
        DaemonHttp {
            next_server_id: 1,
            next_req_id: 1,
            listeners: IdMap::new(),
            ports_in_use: IdMap::new(),
            h3_ports_in_use: IdMap::new(),
            pending: IdMap::new(),
            shared_listeners: false,
            serving: false,
        }
    }

    /// A coordinator whose ports are bound and served.
    pub fn with_runtime() -> (r: Self)
        ensures
            r@.wf(),
            r@ == (HttpView {
                next_server: 1,
                next_req: 1,
                listeners: no_numbers(),
                ports: no_numbers(),
                h3_ports: no_numbers(),
                pending: no_numbers(),
                shared: false,
                serving: true,
            }),
    {
        let mut r = Self::new();
        r.serving = true;
        r
    }

    /// Lets shards share listeners: a port that another shard holds is joined instead of refused.
    pub fn enable_shared_listeners(&mut self)
        ensures
            final(self)@ == (HttpView { shared: true, ..old(self)@ }),
    {
        self.shared_listeners = true;
    }

    /// Whether shards share listeners.
    pub fn is_shared_listeners(&self) -> (r: bool)
        ensures
            r == self@.shared,
    {
        self.shared_listeners
    }

    /// How many listeners there are.
    pub fn listener_count(&self) -> (r: usize)
        ensures
            r == self@.listeners.dom().len(),
    {
        let ids: Vec<i64> = self.listeners.keys();
        proof {
            ids@.unique_seq_to_set();
        }
        ids.len()
    }

    fn take_id(&mut self) -> (r: i32)
        ensures
            r == old(self)@.next_server,
            final(self)@ == old(self)@.id_taken(),
    {
        let id: i32 = self.next_server_id;
        self.next_server_id = next_positive(id);
        id
    }

    /// Claims `port` under a new id, and listens under that id where the claim is won.
    pub fn try_claim_port_for(&mut self, port: u16) -> (r: PortClaim)
        requires
            old(self)@.wf(),
        ensures
            final(self)@.wf(),
            (final(self)@, r) == old(self)@.claim(port),
    {
        let new_id: i32 = self.take_id();
        let claimed: i128 = self.ports_in_use.get_or_insert(port as i64, new_id as i128);
        if claimed != new_id as i128 {
            if self.shared_listeners {
                return PortClaim::Follower(claimed as i32);
            }
            return PortClaim::Busy;
        }
        self.listeners.insert(new_id as i64, port as i128);
        proof {
            let target = old(self)@.claim(port).0;
            assert(self@.ports =~= target.ports);
            assert(self@.listeners =~= target.listeners);
        }
        PortClaim::Owner(new_id)
    }

    /// [`Self::try_claim_port_for`] as one number.
    pub fn allocate_server_id_for(&mut self, port: u16) -> (r: ServerId)
        requires
            old(self)@.wf(),
        ensures
            final(self)@.wf(),
            final(self)@ == old(self)@.claim(port).0,
            r == claim_answer(old(self)@.claim(port).1),
    {
        match self.try_claim_port_for(port) {
            PortClaim::Owner(id) => id,
            PortClaim::Follower(id) => id,
            PortClaim::Busy => LISTEN_ERR_ADDR_IN_USE,
        }
    }

    /// Listens on `port` without binding it: the new id, or that of the shard that is joined, or
    /// the code for a taken port.
    pub fn register_listener(&mut self, port: u16) -> (r: ServerId)
        requires
            old(self)@.wf(),
        ensures
            final(self)@.wf(),
            final(self)@ == old(self)@.claim(port).0,
            r == claim_answer(old(self)@.claim(port).1),
    {
        self.allocate_server_id_for(port)
    }

    /// Stops listener `id` and frees its port. `false` where there is no such listener.
    pub fn close_listener(&mut self, id: ServerId) -> (r: bool)
        requires
            old(self)@.wf(),
        ensures
            final(self)@.wf(),
            final(self)@ == old(self)@.closed(id),
            r == old(self)@.listeners.contains_key(id as i64),
    {
        proof {
            lemma_closed_wf(self@, id);
        }
        match self.listeners.remove(id as i64) {
            Some(port) => {
                self.ports_in_use.remove(port as i64);
                true
            },
            None => {
                assert(self@.listeners =~= old(self)@.listeners);
                false
            },
        }
    }

    /// Takes a request out of those that wait for a reply; whether it was there.
    pub fn take_reply(&mut self, req_id: ReqId) -> (r: bool)
        ensures
            final(self)@ == old(self)@.replied(req_id),
            r == old(self)@.pending.contains_key(req_id),
    {
        self.pending.remove(req_id).is_some()
    }

    /// Gives out the id under which a request waits for its reply.
    pub fn register_pending(&mut self) -> (r: ReqId)
        ensures
            r == old(self)@.next_req,
            final(self)@ == old(self)@.awaiting(),
    {
        let id: i64 = self.next_req_id;
        self.next_req_id = if id == i64::MAX {
            i64::MIN
        } else {
            id + 1
        };
        self.pending.insert(id, 1);
        id
    }

    /// Takes the reply for a request: what to hand to the connection that waits for it, or
    /// nothing where none does.
    pub fn deliver_reply(&mut self, req_id: ReqId, reply: ReplyEnvelope) -> (r: Option<
        ReplyEnvelope,
    >)
        ensures
            final(self)@ == old(self)@.replied(req_id),
            r == (if old(self)@.pending.contains_key(req_id) {
                Some(reply)
            } else {
                None
            }),
    {
        if self.take_reply(req_id) {
            Some(reply)
        } else {
            None
        }
    }

    /// Gives up the claim on `port` and stops the listener that held it.
    pub fn release_port(&mut self, port: u16)
        requires
            old(self)@.wf(),
        ensures
            final(self)@.wf(),
            final(self)@ == old(self)@.released(port),
    {
        proof {
            lemma_released_wf(self@, port);
            if self@.ports.contains_key(port as i64) {
                assert(1 <= self@.ports[port as i64] <= i32::MAX);
            }
        }
        match self.ports_in_use.remove(port as i64) {
            Some(id) => {
                self.listeners.remove(id as i64);
            },
            None => {
                assert(self@.ports =~= old(self)@.ports);
            },
        }
    }

    /// Claims `port` for datagrams, apart from the claims on stream ports.
    pub fn try_claim_h3_port(&mut self, port: u16) -> (r: PortClaim)
        requires
            old(self)@.wf(),
        ensures
            final(self)@.wf(),
            (final(self)@, r) == old(self)@.claim_h3(port),
    {
        let new_id: i32 = self.take_id();
        let claimed: i128 = self.h3_ports_in_use.get_or_insert(port as i64, new_id as i128);
        if claimed != new_id as i128 {
            if self.shared_listeners {
                return PortClaim::Follower(claimed as i32);
            }
            return PortClaim::Busy;
        }
        assert(self@.h3_ports =~= old(self)@.claim_h3(port).0.h3_ports);
        PortClaim::Owner(new_id)
    }

    /// Gives up the claim on `port` for datagrams.
    pub fn release_h3_port(&mut self, port: u16)
        requires
            old(self)@.wf(),
        ensures
            final(self)@.wf(),
            final(self)@ == (HttpView {
                h3_ports: old(self)@.h3_ports.remove(port as i64),
                ..old(self)@
            }),
    {
        self.h3_ports_in_use.remove(port as i64);
        assert(self@.listeners == old(self)@.listeners && self@.ports == old(self)@.ports);
        assert forall|p: i64| #[trigger] self@.h3_ports.contains_key(p) implies 1
            <= self@.h3_ports[p] <= i32::MAX by {
            assert(old(self)@.h3_ports.contains_key(p));
        }
    }

    /// Starts listening on `port`: an answer, or an id to bind the port under.
    ///
    /// Where the answer is an id to bind under, [`Self::finish_bind`] completes the call.
    pub fn bind_listener(&mut self, port: u16) -> (r: BindStep)
        requires
            old(self)@.wf(),
        ensures
            final(self)@.wf(),
            !old(self)@.serving ==> final(self)@ == old(self)@.claim(port).0 && r
                == BindStep::Answer(claim_answer(old(self)@.claim(port).1)),
            old(self)@.serving && old(self)@.port_free(port) ==> final(self)@ == old(
                self,
            )@.port_taken(port) && r == BindStep::Bind(old(self)@.next_server),
            old(self)@.serving && !old(self)@.port_free(port) ==> final(self)@ == old(
                self,
            )@.id_taken() && r == BindStep::Answer(claim_answer(old(self)@.claim(port).1)),
    {
        if !self.serving {
            return BindStep::Answer(self.register_listener(port));
        }
        let new_id: i32 = self.take_id();
        let claimed: i128 = self.ports_in_use.get_or_insert(port as i64, new_id as i128);
        if claimed != new_id as i128 {
            if self.shared_listeners {
                return BindStep::Answer(claimed as i32);
            }
            return BindStep::Answer(LISTEN_ERR_ADDR_IN_USE);
        }
        assert(self@.ports =~= old(self)@.port_taken(port).ports);
        BindStep::Bind(new_id)
    }

    /// Completes a bind of `port` under `id`: listens where it is bound, and otherwise gives the
    /// port up and answers with the code for the failure.
    pub fn finish_bind(&mut self, port: u16, id: ServerId, outcome: BindOutcome) -> (r: i32)
        requires
            old(self)@.wf(),
            old(self)@.ports.contains_key(port as i64),
            old(self)@.ports[port as i64] == id,
            !old(self)@.listeners.contains_key(id as i64),
        ensures
            final(self)@.wf(),
            match outcome {
                BindOutcome::Bound => r == id && final(self)@ == old(self)@.listening(id, port),
                BindOutcome::AddrInUse => r == LISTEN_ERR_ADDR_IN_USE && final(self)@ == (HttpView {
                    ports: old(self)@.ports.remove(port as i64),
                    ..old(self)@
                }),
                BindOutcome::Failed => r == LISTEN_ERR_IO && final(self)@ == (HttpView {
                    ports: old(self)@.ports.remove(port as i64),
                    ..old(self)@
                }),
            },
    {
        proof {
            lemma_bind_wf(self@, port, id);
        }
        match outcome {
            BindOutcome::Bound => {
                self.listeners.insert(id as i64, port as i128);
                id
            },
            BindOutcome::AddrInUse => {
                self.ports_in_use.remove(port as i64);
                LISTEN_ERR_ADDR_IN_USE
            },
            BindOutcome::Failed => {
                self.ports_in_use.remove(port as i64);
                LISTEN_ERR_IO
            },
        }
    }
}

/// A plain-text answer.
fn text_reply(status: u16, text: &str) -> (r: ReplyEnvelope)
    ensures
        r.status == status,
        r.headers@.len() == 0,
        r.body@ == encode_utf8(text@),
{
    ReplyEnvelope { status, headers: Vec::new(), body: bytes_of(text) }
}

/// The answer to a request whose body broke off; `problem` says how.
pub fn broken_body_reply(problem: &str) -> (r: ReplyEnvelope)
    ensures
        r.status == 413,
        r.headers@.len() == 0,
        r.body@ == encode_utf8("burn: request body: "@ + problem@),
{
    let mut m = "burn: request body: ".to_owned();
    m.append(problem);
    text_reply(413, &m)
}

/// The answer where a reply cannot be made into a response.
pub fn broken_reply_reply() -> (r: ReplyEnvelope)
    ensures
        r.status == 500,
        r.headers@.len() == 0,
        r.body@ == encode_utf8("burn: response build failed"@),
{
    text_reply(500, "burn: response build failed")
}

impl DaemonHttp {
    /// Decides on an incoming request: a body over the limit is refused; otherwise the request
    /// gets an id to wait under, and goes to the script where the daemon serves.
    pub fn admit_request(
        &mut self,
        server_id: ServerId,
        method: String,
        target: Option<String>,
        headers: Vec<(String, String)>,
        body: Vec<u8>,
    ) -> (r: Admission)
        ensures
            body@.len() > MAX_BODY ==> {
                &&& final(self)@ == old(self)@
                &&& r matches Admission::Refuse(reply) && reply.status == 413
                    && reply.headers@.len() == 0 && reply.body@ == encode_utf8(
                    body_too_large_text(),
                )
            },
            body@.len() <= MAX_BODY ==> final(self)@ == old(self)@.awaiting(),
            body@.len() <= MAX_BODY && !old(self)@.serving ==> (r matches Admission::Refuse(reply)
                && reply.status == 500 && reply.headers@.len() == 0 && reply.body@
                == encode_utf8("burn: daemon not running\n"@)),
            body@.len() <= MAX_BODY && old(self)@.serving ==> (r matches Admission::Dispatch(e)
                && e.server_id == server_id && e.req_id == old(self)@.next_req && e.method
                == method && e.headers == headers && e.body == body && e.url@ == (match target {
                Some(t) => t@,
                None => seq!['/'],
            })),
    {
        if body.len() > MAX_BODY {
            let mut m = "burn: request body exceeds ".to_owned();
            push_u64(&mut m, MAX_BODY as u64);
            m.append(" bytes");
            return Admission::Refuse(text_reply(413, &m));
        }
        let req_id: i64 = self.register_pending();
        if !self.serving {
            return Admission::Refuse(text_reply(500, "burn: daemon not running\n"));
        }
        let url = match target {
            Some(t) => t,
            None => {
                let mut root = String::new();
                root.push('/');
                assert(root@ =~= seq!['/']);
                root
            },
        };
        Admission::Dispatch(DaemonEvent { server_id, req_id, method, url, headers, body })
    }
}

/// Closing a listener frees its port: the next claim on it is won, under a positive id.
pub proof fn closed_port_is_free(v: HttpView, id: i32)
    requires
        v.wf(),
        v.listeners.contains_key(id as i64),
    ensures
        v.closed(id).claim(v.listeners[id as i64] as u16).1 == PortClaim::Owner(v.next_server),
        claim_answer(v.closed(id).claim(v.listeners[id as i64] as u16).1) >= 1,
{
}

/// Closing a listener takes one off the number of listeners and cannot be done twice. Closing an id
/// that is not listening changes nothing.
pub proof fn listener_is_closed_once(v: HttpView, id: i32)
    requires
        v.wf(),
    ensures
        v.closed(id).wf(),
        v.listeners.contains_key(id as i64) ==> v.closed(id).listeners.dom().len()
            == v.listeners.dom().len() - 1,
        !v.closed(id).listeners.contains_key(id as i64),
        v.closed(id).closed(id) == v.closed(id),
        !v.listeners.contains_key(id as i64) ==> v.closed(id) == v,
{
    lemma_closed_wf(v, id);
    if v.listeners.contains_key(id as i64) {
        assert(v.closed(id).listeners.dom() =~= v.listeners.dom().remove(id as i64));
    }
}

/// Of two claims on a free port the first wins. The second joins it where listeners are shared,
/// and is turned away where they are not.
pub proof fn second_claim_joins_or_is_refused(v: HttpView, port: u16)
    requires
        v.wf(),
        !v.ports.contains_key(port as i64),
    ensures
        v.claim(port).1 == PortClaim::Owner(v.next_server),
        v.claim(port).0.claim(port).1 == (if v.shared {
            PortClaim::Follower(v.next_server)
        } else {
            PortClaim::Busy
        }),
        v.claim(port).0.claim(port).0.ports == v.claim(port).0.ports,
{
}

/// A port can be held for streams and for datagrams at the same time: neither claim sees the
/// other.
pub proof fn stream_and_datagram_claims_are_independent(v: HttpView, port: u16, other: u16)
    requires
        v.wf(),
    ensures
        v.claim(port).0.h3_ports == v.h3_ports,
        v.claim_h3(port).0.ports == v.ports,
        v.claim_h3(port).0.listeners == v.listeners,
        !v.ports.contains_key(other as i64) ==> v.claim_h3(port).0.claim(other).1 is Owner,
{
}

/// A failed bind leaves nothing behind: releasing a port that was just claimed restores ports and
/// listeners.
pub proof fn release_undoes_claim(v: HttpView, port: u16)
    requires
        v.wf(),
        !v.ports.contains_key(port as i64),
        !v.listeners.contains_key(v.next_server as i64),
    ensures
        v.claim(port).0.released(port).ports == v.ports,
        v.claim(port).0.released(port).listeners == v.listeners,
{
    assert(v.claim(port).0.released(port).ports =~= v.ports);
    assert(v.claim(port).0.released(port).listeners =~= v.listeners);
}

/// A request is replied to at most once: after its reply was taken nobody waits for it.
pub proof fn reply_is_taken_once(v: HttpView, id: i64)
    ensures
        !v.replied(id).pending.contains_key(id),
        v.replied(id).replied(id) == v.replied(id),
{
    assert(v.replied(id).replied(id).pending =~= v.replied(id).pending);
}

/// Taking one reply leaves every other request waiting.
pub proof fn replies_are_independent(v: HttpView, id: i64, other: i64)
    requires
        id != other,
    ensures
        v.replied(id).pending.contains_key(other) == v.pending.contains_key(other),
{
}

/// A claim on a port that nobody holds is won under the next id, which then listens on that port; one
/// on a port that another holds is joined under the holder's id where listeners are shared, and is
/// otherwise refused. Every other port and listener is as it was, and ids go up one by one.
pub proof fn claims_are_settled(v: HttpView, port: u16, other: u16, id: i32)
    requires
        v.wf(),
        port != other,
        id != v.next_server,
    ensures
        ({
            let (w, c) = v.claim(port);
            let taken = v.ports.contains_key(port as i64) && v.ports[port as i64] != v.next_server;
            &&& !taken ==> {
                &&& c == PortClaim::Owner(v.next_server)
                &&& w.listeners.contains_key(v.next_server as i64)
                &&& w.listeners[v.next_server as i64] == port
                &&& w.ports.contains_key(port as i64)
                &&& w.ports[port as i64] == v.next_server
            }
            &&& taken && v.shared ==> c == PortClaim::Follower(v.ports[port as i64] as i32)
            &&& taken && !v.shared ==> c == PortClaim::Busy
            &&& taken ==> w.listeners == v.listeners && w.ports == v.ports
            &&& w.ports.contains_key(other as i64) == v.ports.contains_key(other as i64)
            &&& v.ports.contains_key(other as i64) ==> w.ports[other as i64] == v.ports[other as i64]
            &&& w.listeners.contains_key(id as i64) == v.listeners.contains_key(id as i64)
            &&& v.next_server < i32::MAX ==> w.next_server == v.next_server + 1
            &&& w.pending == v.pending && w.h3_ports == v.h3_ports
        }),
{
}

/// A claim comes down to the id that it was won or joined under, and to minus two where the port is
/// taken.
pub proof fn claims_have_their_answers(id: i32)
    ensures
        claim_answer(PortClaim::Owner(id)) == id,
        claim_answer(PortClaim::Follower(id)) == id,
        claim_answer(PortClaim::Busy) == -2,
        LISTEN_ERR_NO_DAEMON == -1,
        LISTEN_ERR_IO == -3,
        MAX_BODY == 16777216,
{
}

/// Closing a listener frees its own port and takes it out alone; giving up a port does the same for
/// whoever holds it.
pub proof fn closing_touches_one_listener(v: HttpView, id: i32, other: i32, port: u16)
    requires
        v.wf(),
        v.listeners.contains_key(id as i64),
        id != other,
    ensures
        !v.closed(id).listeners.contains_key(id as i64),
        !v.closed(id).ports.contains_key(v.listeners[id as i64] as i64),
        v.closed(id).listeners.contains_key(other as i64) == v.listeners.contains_key(other as i64),
        v.listeners.contains_key(other as i64) ==> v.closed(id).listeners[other as i64]
            == v.listeners[other as i64] && v.closed(id).ports.contains_key(
            v.listeners[other as i64] as i64,
        ),
        v.closed(id).pending == v.pending,
        v.closed(id).next_server == v.next_server,
        !v.released(port).ports.contains_key(port as i64),
        v.released(port).pending == v.pending,
{
    if v.listeners.contains_key(other as i64) {
        assert(v.ports[v.listeners[other as i64] as i64] == other as i64);
        assert(v.ports[v.listeners[id as i64] as i64] == id as i64);
    }
}

/// A request waits under the next id, and all others go on waiting; ids go up one by one. A reply that
/// is taken ends the wait of its own request alone.
pub proof fn requests_wait_for_their_replies(v: HttpView, id: i64)
    requires
        id != v.next_req,
    ensures
        v.awaiting().pending.contains_key(v.next_req),
        v.awaiting().pending.contains_key(id) == v.pending.contains_key(id),
        v.next_req < i64::MAX ==> v.awaiting().next_req == v.next_req + 1,
        v.awaiting().listeners == v.listeners && v.awaiting().ports == v.ports,
        !v.replied(id).pending.contains_key(id),
        v.replied(id).pending.contains_key(v.next_req) == v.pending.contains_key(v.next_req),
        v.replied(id).listeners == v.listeners && v.replied(id).next_req == v.next_req,
{
}

/// Ports for datagrams are claimed as those for streams are.
pub proof fn datagram_claims_are_settled(v: HttpView, port: u16, other: u16)
    requires
        v.wf(),
        port != other,
    ensures
        ({
            let (w, c) = v.claim_h3(port);
            let taken = v.h3_ports.contains_key(port as i64) && v.h3_ports[port as i64]
                != v.next_server;
            &&& !taken ==> c == PortClaim::Owner(v.next_server) && w.h3_ports.contains_key(
                port as i64,
            ) && w.h3_ports[port as i64] == v.next_server
            &&& taken && v.shared ==> c == PortClaim::Follower(v.h3_ports[port as i64] as i32)
            &&& taken && !v.shared ==> c == PortClaim::Busy
            &&& w.h3_ports.contains_key(other as i64) == v.h3_ports.contains_key(other as i64)
            &&& w.listeners == v.listeners && w.ports == v.ports
        }),
{
}

/// A body may hold sixteen mebibytes, and the refusal of a larger one says so.
pub proof fn bodies_have_a_limit()
    ensures
        MAX_BODY == 16 * 1024 * 1024,
        body_too_large_text() == "burn: request body exceeds "@ + digits(16777216) + " bytes"@,
{
}

} // verus!
