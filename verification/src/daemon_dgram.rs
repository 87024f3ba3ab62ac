//! Datagram coordinator of a daemon.
//!
//! Scripts know sockets by ids. This coordinator gives the ids out, remembers where each socket is
//! bound, and decides which requests are in order. Binding, sending and receiving are the caller's.
//! Where shards share port claims, the shard that claims a port first binds it; the others join, and
//! their sockets receive nothing.
use vstd::prelude::*;

use crate::codec::{base64_encode, base64_of};
use crate::daemon_net::{
    bind_address, host_and_port, AddrInfo, AddrView, IoKind, E_BAD_HOST, E_BAD_ID, E_BAD_PORT,
    E_OTHER, E_PERMISSION,
};
use crate::daemon_port_claims::{claim_step, ClaimResult, SharedPortClaims};
use crate::manifold::{udp_allowed, Manifold};
use crate::registry::{
    lemma_ids_between, lemma_some_id, next_after, next_positive, no_labels, no_numbers, number_at,
    positive_after, IdMap, TextMap,
};
use crate::text::{decimal, push_i64};

verus! {

pub type SocketId = i32;

/// Bytes that are received at a time; what is longer is cut off.
pub const MAX_DATAGRAM: usize = 66560;

/// What happened on a socket.
#[derive(Debug, Clone)]
pub enum DgramEvent {
    Listening { socket_id: SocketId, port: u16 },
    Message { socket_id: SocketId, from: AddrInfo, payload_b64: String },
    Error { socket_id: SocketId, message: String, code: String },
    Close { socket_id: SocketId },
}

/// [`DgramEvent`] with its texts as characters.
pub enum DgramEventView {
    Listening { socket_id: SocketId, port: u16 },
    Message { socket_id: SocketId, from: AddrView, payload_b64: Seq<char> },
    Error { socket_id: SocketId, message: Seq<char>, code: Seq<char> },
    Close { socket_id: SocketId },
}

impl View for DgramEvent {
    type V = DgramEventView;

    open spec fn view(&self) -> DgramEventView {
        match self {
            DgramEvent::Listening { socket_id, port } => DgramEventView::Listening {
                socket_id: *socket_id,
                port: *port,
            },
            DgramEvent::Message { socket_id, from, payload_b64 } => DgramEventView::Message {
                socket_id: *socket_id,
                from: from@,
                payload_b64: payload_b64@,
            },
            DgramEvent::Error { socket_id, message, code } => DgramEventView::Error {
                socket_id: *socket_id,
                message: message@,
                code: code@,
            },
            DgramEvent::Close { socket_id } => DgramEventView::Close { socket_id: *socket_id },
        }
    }
}

/// The code that a script sees for a system error on a datagram socket.
pub open spec fn code_of(kind: IoKind) -> Seq<char> {
    match kind {
        IoKind::AddrInUse => "EADDRINUSE"@,
        IoKind::AddrNotAvailable => "EADDRNOTAVAIL"@,
        IoKind::ConnectionRefused => "ECONNREFUSED"@,
        IoKind::TimedOut => "ETIMEDOUT"@,
        IoKind::WouldBlock => "EAGAIN"@,
        IoKind::Interrupted => "EINTR"@,
        IoKind::PermissionDenied => "EACCES"@,
        _ => "EOTHER"@,
    }
}

/// The code that a script sees for a system error on a datagram socket.
pub fn io_error_code(kind: IoKind) -> (r: &'static str)
    ensures
        r@ == code_of(kind),
{
    match kind {
        IoKind::AddrInUse => "EADDRINUSE",
        IoKind::AddrNotAvailable => "EADDRNOTAVAIL",
        IoKind::ConnectionRefused => "ECONNREFUSED",
        IoKind::TimedOut => "ETIMEDOUT",
        IoKind::WouldBlock => "EAGAIN",
        IoKind::Interrupted => "EINTR",
        IoKind::PermissionDenied => "EACCES",
        _ => "EOTHER",
    }
}

/// What a coordinator holds.
#[verifier::ext_equal]
pub struct DgramView {
    pub next_socket: i32,
    /// Socket to the port that it is bound to.
    pub ports: Map<i64, i128>,
    /// Socket to the address that it is bound to.
    pub hosts: Map<i64, Seq<char>>,
    /// How many sockets are bound here.
    pub alive: u64,
    /// Sockets that joined another shard's.
    pub joined: Map<i64, i128>,
    /// Socket to the port that it holds among the shards.
    pub claimed: Map<i64, i128>,
}

/// The datagram coordinator.
pub struct DaemonDgram {
    manifold: Manifold,
    next_socket_id: i32,
    ports: IdMap,
    hosts: TextMap,
    alive: u64,
    joined: IdMap,
    claimed: IdMap,
}

impl View for DaemonDgram {
    type V = DgramView;

    closed spec fn view(&self) -> DgramView {
        DgramView {
            next_socket: self.next_socket_id,
            ports: self.ports@,
            hosts: self.hosts@,
            alive: self.alive,
            joined: self.joined@,
            claimed: self.claimed@,
        }
    }
}

impl DgramView {
    /// Whether the tables belong together, the next id is positive, and as many sockets are open as
    /// are counted.
    pub open spec fn wf(self) -> bool {
        &&& self.next_socket >= 1
        &&& self.ports.dom() == self.hosts.dom()
        &&& forall|id: i64| #[trigger]
            self.ports.contains_key(id) ==> i32::MIN <= id <= i32::MAX && 0 <= self.ports[id]
                <= u16::MAX
        &&& self.ports.dom().finite()
        &&& self.alive == self.ports.dom().len()
        &&& self.joined.dom().finite()
        &&& forall|id: i64| #[trigger]
            self.claimed.contains_key(id) ==> 0 <= self.claimed[id] <= u16::MAX
    }

    /// Whether a socket is open.
    pub open spec fn any_open(self) -> bool {
        ||| exists|id: i64| #[trigger] self.ports.contains_key(id)
        ||| exists|id: i64| #[trigger] self.joined.contains_key(id)
    }

    /// Whether anything is counted as open.
    pub open spec fn counts_any(self) -> bool {
        self.alive > 0 || self.joined.dom().len() > 0
    }

    /// Whether `id` is a socket that is bound here.
    pub open spec fn is_open(self, id: i32) -> bool {
        self.ports.contains_key(id as i64)
    }

    /// Whether `id` is a socket that joined another shard's.
    pub open spec fn is_joined(self, id: i32) -> bool {
        self.joined.contains_key(id as i64)
    }

    /// The coordinator after the next id joined another shard's socket.
    pub open spec fn joined_next(self) -> DgramView {
        DgramView { joined: self.joined.insert(self.next_socket as i64, 1), ..self.id_taken() }
    }

    /// The coordinator after the next id claimed `port`.
    pub open spec fn claimed_next(self, port: u16) -> DgramView {
        DgramView {
            claimed: self.claimed.insert(self.next_socket as i64, port as i128),
            ..self.id_taken()
        }
    }

    /// The coordinator where socket `id` holds no port among the shards.
    pub open spec fn unclaimed(self, id: i32) -> DgramView {
        DgramView { claimed: self.claimed.remove(id as i64), ..self }
    }

    /// The coordinator after it gave out an id.
    pub open spec fn id_taken(self) -> DgramView {
        DgramView { next_socket: positive_after(self.next_socket), ..self }
    }

    /// The coordinator with socket `id` bound to `host` and `port`. An id that comes round again is
    /// taken over from the socket that had it.
    pub open spec fn opened(self, id: i32, host: Seq<char>, port: u16) -> DgramView {
        DgramView {
            ports: self.ports.insert(id as i64, port as i128),
            hosts: self.hosts.insert(id as i64, host),
            alive: if self.is_open(id) {
                self.alive
            } else {
                (self.alive + 1) as u64
            },
            ..self
        }
    }

    /// The coordinator without socket `id`.
    pub open spec fn closed(self, id: i32) -> DgramView {
        DgramView {
            ports: self.ports.remove(id as i64),
            hosts: self.hosts.remove(id as i64),
            alive: if self.is_open(id) {
                (self.alive - 1) as u64
            } else {
                self.alive
            },
            joined: self.joined.remove(id as i64),
            ..self
        }
    }
}

/// The owners of ports after socket `id` gave up the port that it holds, if any.
pub open spec fn owners_without(v: DgramView, owners: Map<u16, i32>, id: i32) -> Map<u16, i32> {
    match number_at(v.claimed, id as i64) {
        Some(port) => owners.remove(port as u16),
        None => owners,
    }
}

/// What a script that asked to bind a socket gets.
#[derive(Debug, Clone)]
pub enum DgramBind {
    /// A failure, by its code.
    Failed(i32),
    /// An id with nothing to bind, since another shard holds the port; and the event that tells the
    /// script.
    Joined(SocketId, DgramEvent),
    /// An id, and the address to bind under it, as host, colon and port.
    Bind(SocketId, String),
}

proof fn lemma_opened_wf(v: DgramView, id: i32, host: Seq<char>, port: u16)
    requires
        v.wf(),
    ensures
        v.opened(id, host, port).wf(),
        v.alive < u64::MAX,
{
    let w = v.opened(id, host, port);
    assert(w.ports.dom() =~= w.hosts.dom());
    assert(w.ports.dom() =~= v.ports.dom().insert(id as i64));
    assert forall|k: i64| #[trigger] v.ports.dom().contains(k) implies i32::MIN <= k
        <= i32::MAX by {
        assert(v.ports.contains_key(k));
    }
    lemma_ids_between(v.ports.dom(), i32::MIN as int, i32::MAX as int);
    assert forall|k: i64| #[trigger] w.ports.contains_key(k) implies i32::MIN <= k <= i32::MAX && 0
        <= w.ports[k] <= u16::MAX by {
        if k != id as i64 {
            assert(v.ports.contains_key(k));
        }
    }
}

proof fn lemma_closed_wf(v: DgramView, id: i32)
    requires
        v.wf(),
    ensures
        v.closed(id).wf(),
        v.is_open(id) ==> v.alive > 0,
{
    let w = v.closed(id);
    assert(w.ports.dom() =~= w.hosts.dom());
    assert(w.ports.dom() =~= v.ports.dom().remove(id as i64));
    assert(w.joined.dom() =~= v.joined.dom().remove(id as i64));
    if v.is_open(id) {
        assert(v.ports.dom().contains(id as i64));
    }
    assert forall|k: i64| #[trigger] w.ports.contains_key(k) implies i32::MIN <= k <= i32::MAX && 0
        <= w.ports[k] <= u16::MAX by {
        assert(v.ports.contains_key(k));
    }
}

impl DaemonDgram {
    /// What the coordinator may reach.
    pub closed spec fn profile(&self) -> Manifold {
        self.manifold
    }

    /// A coordinator with no socket.
    pub fn new(manifold: Manifold) -> (r: Self)
        ensures
            r@.wf(),
            r.profile() == manifold,
            r@ == (DgramView {
                next_socket: 1,
                ports: no_numbers(),
                hosts: no_labels(),
                alive: 0,
                joined: no_numbers(),
                claimed: no_numbers(),
            }),
    {
        let r = DaemonDgram {
            manifold,
            next_socket_id: 1,
            ports: IdMap::new(),
            hosts: TextMap::new(),
            alive: 0,
            joined: IdMap::new(),
            claimed: IdMap::new(),
        };
        assert(r@.ports.dom() =~= r@.hosts.dom());
        r
    }

    /// Whether a socket keeps the daemon alive.
    pub fn has_refs(&self) -> (r: bool)
        ensures
            r == self@.counts_any(),
            self@.wf() ==> r == self@.any_open(),
    {
        let others: Vec<i64> = self.joined.keys();
        proof {
            others@.unique_seq_to_set();
            if self@.wf() {
                any_open_is_counted(self@);
            }
        }
        self.alive > 0 || others.len() > 0
    }

    /// Starts to bind a socket to `host` and `port`: the id and the address to bind. Fails where
    /// the manifold does not permit datagrams and where the host is empty.
    pub fn bind(&mut self, host: &str, port: u16, last_error: &mut String) -> (r: Result<
        (SocketId, String),
        i32,
    >)
        requires
            old(self)@.wf(),
        ensures
            final(self)@.wf(),
            final(self).profile() == old(self).profile(),
            if !(old(self).profile().net is OutboundFull) {
                &&& r matches Err(code) && code == E_PERMISSION
                &&& final(last_error)@ == "dgram.bind: not granted by manifold"@
                &&& final(self)@ == old(self)@
            } else if host@.len() == 0 {
                &&& r matches Err(code) && code == E_BAD_HOST
                &&& final(last_error)@ == "dgram.bind: empty host"@
                &&& final(self)@ == old(self)@
            } else {
                &&& r matches Ok((id, bind)) && id == old(self)@.next_socket && bind@
                    == host_and_port(host@, port)
                &&& *final(last_error) == *old(last_error)
                &&& final(self)@ == old(self)@.id_taken()
            },
    {
        if !udp_allowed(&self.manifold) {
            *last_error = "dgram.bind: not granted by manifold".to_owned();
            return Err(E_PERMISSION);
        }
        if host.is_empty() {
            *last_error = "dgram.bind: empty host".to_owned();
            return Err(E_BAD_HOST);
        }
        let id: i32 = self.next_socket_id;
        self.next_socket_id = next_positive(id);
        assert(self@.ports == old(self)@.ports && self@.claimed == old(self)@.claimed);
        Ok((id, bind_address(host, port)))
    }

    /// Starts to bind a socket to `host` and `port`, on a daemon whose shards share `claims`: the
    /// shard that claims the port first binds it, and the others join. Port zero stands for any port
    /// that is free, so it is bound without a claim.
    pub fn bind_with_claims(
        &mut self,
        claims: &mut SharedPortClaims,
        host: &str,
        port: u16,
        last_error: &mut String,
    ) -> (r: DgramBind)
        requires
            old(self)@.wf(),
            old(claims).wf(),
        ensures
            final(self)@.wf(),
            final(claims).wf(),
            final(self).profile() == old(self).profile(),
            if !(old(self).profile().net is OutboundFull) {
                &&& r == DgramBind::Failed(E_PERMISSION)
                &&& final(last_error)@ == "dgram.bind: not granted by manifold"@
                &&& final(self)@ == old(self)@
                &&& *final(claims) == *old(claims)
            } else if host@.len() == 0 {
                &&& r == DgramBind::Failed(E_BAD_HOST)
                &&& final(last_error)@ == "dgram.bind: empty host"@
                &&& final(self)@ == old(self)@
                &&& *final(claims) == *old(claims)
            } else if port == 0 {
                &&& r matches DgramBind::Bind(id, bind) && id == old(self)@.next_socket && bind@
                    == host_and_port(host@, port)
                &&& *final(last_error) == *old(last_error)
                &&& final(self)@ == old(self)@.id_taken()
                &&& *final(claims) == *old(claims)
            } else {
                let claim = claim_step(old(claims).owners(), old(claims).upcoming(), port);
                &&& *final(last_error) == *old(last_error)
                &&& final(claims).owners() == claim.0
                &&& final(claims).upcoming() == next_after(old(claims).upcoming())
                &&& match claim.1 {
                    ClaimResult::Owner(_) => {
                        &&& r matches DgramBind::Bind(id, bind) && id == old(self)@.next_socket
                            && bind@ == host_and_port(host@, port)
                        &&& final(self)@ == old(self)@.claimed_next(port)
                    },
                    ClaimResult::Follower(_) => {
                        &&& r matches DgramBind::Joined(id, e) && id == old(self)@.next_socket
                            && e@ == (DgramEventView::Listening { socket_id: id, port })
                        &&& final(self)@ == old(self)@.joined_next()
                    },
                }
            },
    {
        let (id, at) = match self.bind(host, port, last_error) {
            Ok(asked) => asked,
            Err(code) => return DgramBind::Failed(code),
        };
        if port == 0 {
            return DgramBind::Bind(id, at);
        }
        let ghost before = self@;
        match claims.try_claim(port) {
            ClaimResult::Owner(_) => {
                self.claimed.insert(id as i64, port as i128);
                assert forall|k: i64| #[trigger] self@.claimed.contains_key(k) implies 0
                    <= self@.claimed[k] <= u16::MAX by {
                    if k != id as i64 {
                        assert(before.claimed.contains_key(k));
                    }
                }
                DgramBind::Bind(id, at)
            },
            ClaimResult::Follower(_) => {
                self.joined.insert(id as i64, 1);
                assert(self@.joined.dom() =~= before.joined.dom().insert(id as i64));
                DgramBind::Joined(id, DgramEvent::Listening { socket_id: id, port })
            },
        }
    }

    /// Gives up the port that socket `id` holds among the shards, if any, so that it can be bound
    /// again: after the socket could not be bound, or was closed.
    pub fn give_up_port(&mut self, claims: &mut SharedPortClaims, id: SocketId)
        requires
            old(self)@.wf(),
            old(claims).wf(),
        ensures
            final(self)@.wf(),
            final(claims).wf(),
            final(self).profile() == old(self).profile(),
            final(self)@ == old(self)@.unclaimed(id),
            final(claims).upcoming() == old(claims).upcoming(),
            final(claims).owners() == owners_without(old(self)@, old(claims).owners(), id),
    {
        proof {
            if self@.claimed.contains_key(id as i64) {
                assert(0 <= self@.claimed[id as i64] <= u16::MAX);
            }
        }
        match self.claimed.remove(id as i64) {
            Some(port) => {
                claims.release(port as u16);
            },
            None => {},
        }
        assert forall|k: i64| #[trigger] self@.claimed.contains_key(k) implies 0 <= self@.claimed[k]
            <= u16::MAX by {
            assert(old(self)@.claimed.contains_key(k));
        }
    }

    /// Completes a bind under `id`: the socket is bound to `at_host` and `at_port`. The event tells
    /// the script.
    pub fn bound(&mut self, id: SocketId, at_host: String, at_port: u16) -> (r: DgramEvent)
        requires
            old(self)@.wf(),
        ensures
            final(self)@.wf(),
            final(self).profile() == old(self).profile(),
            final(self)@ == old(self)@.opened(id, at_host@, at_port),
            r@ == (DgramEventView::Listening { socket_id: id, port: at_port }),
    {
        proof {
            lemma_opened_wf(self@, id, at_host@, at_port);
        }
        let before = self.ports.insert(id as i64, at_port as i128);
        self.hosts.insert(id as i64, at_host);
        if before.is_none() {
            self.alive = self.alive + 1;
        }
        DgramEvent::Listening { socket_id: id, port: at_port }
    }

    /// Decides on a datagram from socket `socket_id` to `host` and `port`: the address to send to.
    /// Fails where the manifold does not permit datagrams, where there is no such socket, where
    /// the host is empty and where the port is zero, in that order.
    pub fn send(&self, socket_id: SocketId, host: &str, port: u16, last_error: &mut String) -> (r:
        Result<String, i32>)
        ensures
            if !(self.profile().net is OutboundFull) {
                &&& r matches Err(code) && code == E_PERMISSION
                &&& final(last_error)@ == "dgram.send: not granted by manifold"@
            } else if !self@.is_open(socket_id) {
                &&& r matches Err(code) && code == E_BAD_ID
                &&& final(last_error)@ == "dgram.send: unknown socket id "@ + decimal(
                    socket_id as int,
                )
            } else if host@.len() == 0 {
                &&& r matches Err(code) && code == E_BAD_HOST
                &&& final(last_error)@ == "dgram.send: empty host"@
            } else if port == 0 {
                &&& r matches Err(code) && code == E_BAD_PORT
                &&& final(last_error)@ == "dgram.send: port must be > 0"@
            } else {
                &&& r matches Ok(to) && to@ == host_and_port(host@, port)
                &&& *final(last_error) == *old(last_error)
            },
    {
        if !udp_allowed(&self.manifold) {
            *last_error = "dgram.send: not granted by manifold".to_owned();
            return Err(E_PERMISSION);
        }
        if self.ports.get(socket_id as i64).is_none() {
            let mut m = "dgram.send: unknown socket id ".to_owned();
            push_i64(&mut m, socket_id as i64);
            *last_error = m;
            return Err(E_BAD_ID);
        }
        if host.is_empty() {
            *last_error = "dgram.send: empty host".to_owned();
            return Err(E_BAD_HOST);
        }
        if port == 0 {
            *last_error = "dgram.send: port must be > 0".to_owned();
            return Err(E_BAD_PORT);
        }
        Ok(bind_address(host, port))
    }

    /// Where socket `socket_id` is bound, as address and port; `None` where there is none.
    pub fn address(&self, socket_id: SocketId) -> (r: Option<(String, u16)>)
        requires
            self@.wf(),
        ensures
            match r {
                Some((host, port)) => self@.is_open(socket_id) && host@
                    == self@.hosts[socket_id as i64] && port == self@.ports[socket_id as i64],
                None => !self@.is_open(socket_id),
            },
    {
        assert(self@.ports.dom().contains(socket_id as i64) == self@.hosts.dom().contains(
            socket_id as i64,
        ));
        match (self.hosts.get(socket_id as i64), self.ports.get(socket_id as i64)) {
            (Some(host), Some(port)) => {
                assert(self@.ports.contains_key(socket_id as i64));
                Some((host, port as u16))
            },
            _ => None,
        }
    }

    /// Where socket `socket_id` is bound, or a code.
    pub fn bound_address(&self, socket_id: SocketId, last_error: &mut String) -> (r: Result<
        (String, u16),
        i32,
    >)
        requires
            self@.wf(),
        ensures
            match r {
                Ok((host, port)) => self@.is_open(socket_id) && host@
                    == self@.hosts[socket_id as i64] && port == self@.ports[socket_id as i64]
                    && *final(last_error) == *old(last_error),
                Err(code) => !self@.is_open(socket_id) && code == E_BAD_ID && final(last_error)@
                    == "dgram.address: unknown id "@ + decimal(socket_id as int),
            },
    {
        match self.address(socket_id) {
            Some(at) => Ok(at),
            None => {
                let mut m = "dgram.address: unknown id ".to_owned();
                push_i64(&mut m, socket_id as i64);
                *last_error = m;
                Err(E_BAD_ID)
            },
        }
    }

    /// Closes socket `socket_id`: the event for the script. Nothing happens where there is no such
    /// socket.
    pub fn close(&mut self, socket_id: SocketId) -> (r: Option<DgramEvent>)
        requires
            old(self)@.wf(),
        ensures
            final(self)@.wf(),
            final(self).profile() == old(self).profile(),
            final(self)@ == old(self)@.closed(socket_id),
            match r {
                Some(e) => (old(self)@.is_open(socket_id) || old(self)@.is_joined(socket_id)) && e@
                    == (DgramEventView::Close { socket_id }),
                None => !old(self)@.is_open(socket_id) && !old(self)@.is_joined(socket_id)
                    && final(self)@ == old(self)@,
            },
    {
        proof {
            lemma_closed_wf(self@, socket_id);
        }
        let was_joined = self.joined.remove(socket_id as i64).is_some();
        let was_open = self.ports.remove(socket_id as i64).is_some();
        self.hosts.remove(socket_id as i64);
        if was_open {
            self.alive = self.alive - 1;
        }
        if was_open || was_joined {
            Some(DgramEvent::Close { socket_id })
        } else {
            proof {
                assert(old(self)@.ports.dom().contains(socket_id as i64) == old(
                    self,
                )@.hosts.dom().contains(socket_id as i64));
                assert(self@.ports =~= old(self)@.ports);
                assert(self@.hosts =~= old(self)@.hosts);
                assert(self@.joined =~= old(self)@.joined);
            }
            None
        }
    }

    /// Closes socket `socket_id` as [`Self::close`] does, on a daemon whose shards share `claims`. A
    /// socket that holds a port gives it up.
    pub fn close_with_claims(
        &mut self,
        claims: &mut SharedPortClaims,
        socket_id: SocketId,
    ) -> (r: Option<DgramEvent>)
        requires
            old(self)@.wf(),
            old(claims).wf(),
        ensures
            final(self)@.wf(),
            final(claims).wf(),
            final(self).profile() == old(self).profile(),
            final(claims).upcoming() == old(claims).upcoming(),
            match r {
                Some(e) => {
                    &&& old(self)@.is_open(socket_id) || old(self)@.is_joined(socket_id)
                    &&& e@ == (DgramEventView::Close { socket_id })
                    &&& final(self)@ == old(self)@.closed(socket_id).unclaimed(socket_id)
                    &&& final(claims).owners() == owners_without(
                        old(self)@,
                        old(claims).owners(),
                        socket_id,
                    )
                },
                None => {
                    &&& !old(self)@.is_open(socket_id) && !old(self)@.is_joined(socket_id)
                    &&& final(self)@ == old(self)@
                    &&& final(claims).owners() == old(claims).owners()
                },
            },
    {
        match self.close(socket_id) {
            Some(e) => {
                self.give_up_port(claims, socket_id);
                Some(e)
            },
            None => None,
        }
    }
}

/// Tells what a failed call `what` on `host` and `port` came to, and gives its code.
fn failed_call(what: &str, host: &str, port: u16, problem: &str, last_error: &mut String) -> (r:
    i32)
    ensures
        r == E_OTHER,
        final(last_error)@ == what@ + "("@ + host_and_port(host@, port) + "): "@ + problem@,
{
    let mut m = what.to_owned();
    m.append("(");
    m.append(&bind_address(host, port));
    m.append("): ");
    m.append(problem);
    *last_error = m;
    E_OTHER
}

/// The answer to a script whose socket could not be bound.
pub fn bind_failed(host: &str, port: u16, problem: &str, last_error: &mut String) -> (r: i32)
    ensures
        r == E_OTHER,
        final(last_error)@ == "dgram.bind"@ + "("@ + host_and_port(host@, port) + "): "@ + problem@,
{
    failed_call("dgram.bind", host, port, problem, last_error)
}

/// The answer to a script whose socket was bound, to an address that cannot be told.
pub fn local_address_failed(problem: &str, last_error: &mut String) -> (r: i32)
    ensures
        r == E_OTHER,
        final(last_error)@ == "dgram.bind: local_addr: "@ + problem@,
{
    let mut m = "dgram.bind: local_addr: ".to_owned();
    m.append(problem);
    *last_error = m;
    E_OTHER
}

/// The answer to a script whose datagram could not be sent.
pub fn send_failed(host: &str, port: u16, problem: &str, last_error: &mut String) -> (r: i32)
    ensures
        r == E_OTHER,
        final(last_error)@ == "dgram.send"@ + "("@ + host_and_port(host@, port) + "): "@ + problem@,
{
    failed_call("dgram.send", host, port, problem, last_error)
}

/// The event for a datagram that came in.
pub fn received(socket_id: SocketId, from: AddrInfo, payload: &[u8]) -> (r: DgramEvent)
    ensures
        r@ == (DgramEventView::Message {
            socket_id,
            from: from@,
            payload_b64: base64_of(payload@),
        }),
{
    DgramEvent::Message { socket_id, from, payload_b64: base64_encode(payload) }
}

/// The event for a socket that can receive no more.
pub fn receive_failed(socket_id: SocketId, problem: &str, kind: IoKind) -> (r: DgramEvent)
    ensures
        r@ == (DgramEventView::Error {
            socket_id,
            message: "dgram.recv: "@ + problem@,
            code: code_of(kind),
        }),
{
    let mut message = "dgram.recv: ".to_owned();
    message.append(problem);
    DgramEvent::Error { socket_id, message, code: io_error_code(kind).to_owned() }
}

/// What is counted is what is open: the count is zero exactly where no socket is open.
pub proof fn any_open_is_counted(v: DgramView)
    requires
        v.wf(),
    ensures
        v.counts_any() <==> v.any_open(),
{
    lemma_some_id(v.ports.dom());
    lemma_some_id(v.joined.dom());
    assert(forall|id: i64| #[trigger] v.joined.contains_key(id) == v.joined.dom().contains(id));
    assert(forall|id: i64| #[trigger] v.joined.dom().contains(id) ==> v.joined.contains_key(id));
    assert(forall|id: i64| #[trigger] v.ports.contains_key(id) == v.ports.dom().contains(id));
    assert(forall|id: i64| #[trigger] v.ports.dom().contains(id) ==> v.ports.contains_key(id));
}

/// Opening and then closing a socket leaves the tables and the count as they were.
pub proof fn closing_undoes_opening(v: DgramView, id: i32, host: Seq<char>, port: u16)
    requires
        v.wf(),
        !v.is_open(id),
        !v.is_joined(id),
    ensures
        v.opened(id, host, port).is_open(id),
        v.opened(id, host, port).closed(id) == v,
{
    lemma_opened_wf(v, id, host, port);
    assert(!v.hosts.dom().contains(id as i64));
    assert(v.opened(id, host, port).closed(id).ports =~= v.ports);
    assert(v.opened(id, host, port).closed(id).hosts =~= v.hosts);
    assert(v.opened(id, host, port).closed(id).joined =~= v.joined);
}

/// Closing a socket twice is the same as closing it once.
pub proof fn closing_is_idempotent(v: DgramView, id: i32)
    ensures
        v.closed(id).closed(id) == v.closed(id),
{
    let w = v.closed(id);
    assert(w.closed(id).ports =~= w.ports);
    assert(w.closed(id).hosts =~= w.hosts);
    assert(w.closed(id).joined =~= w.joined);
}

/// Of the shards that bind a port only the first binds a socket. When that is closed, the port can
/// be bound again.
pub proof fn one_shard_binds_the_port(
    owner: DgramView,
    owners: Map<u16, i32>,
    first: i32,
    second: i32,
    port: u16,
)
    requires
        !owners.contains_key(port),
        first != second,
    ensures
        claim_step(owners, first, port).1 == ClaimResult::Owner(first),
        claim_step(claim_step(owners, first, port).0, second, port).1 == ClaimResult::Follower(
            first,
        ),
        !owners_without(
            owner.claimed_next(port),
            claim_step(owners, first, port).0,
            owner.next_socket,
        ).contains_key(port),
{
}

/// A socket that is bound is open at the address where it was bound, and counts; closing it takes it
/// out again, and one off the count. Every other socket is as it was.
pub proof fn sockets_come_and_go(v: DgramView, id: i32, other: i32, host: Seq<char>, port: u16)
    requires
        v.wf(),
        !v.is_open(id),
        !v.is_joined(id),
        id != other,
    ensures
        v.opened(id, host, port).is_open(id),
        v.opened(id, host, port).ports[id as i64] == port,
        v.opened(id, host, port).hosts[id as i64] == host,
        v.opened(id, host, port).alive == v.alive + 1,
        v.opened(id, host, port).is_open(other) == v.is_open(other),
        v.is_open(other) ==> v.opened(id, host, port).ports[other as i64] == v.ports[other as i64]
            && v.opened(id, host, port).hosts[other as i64] == v.hosts[other as i64],
        !v.opened(id, host, port).closed(id).is_open(id),
        v.opened(id, host, port).closed(id).alive == v.alive,
        v.opened(id, host, port).closed(id).is_open(other) == v.is_open(other),
        v.closed(other).is_joined(id) == v.is_joined(id),
{
    lemma_opened_wf(v, id, host, port);
    assert(v.hosts.dom().contains(other as i64) == v.ports.dom().contains(other as i64));
}

/// Ids go up one by one, and a socket that joins or claims a port is recorded under the id that it
/// gets.
pub proof fn joined_and_claimed_sockets_are_recorded(v: DgramView, port: u16, other: i32)
    requires
        v.wf(),
    ensures
        v.next_socket < i32::MAX ==> v.id_taken().next_socket == v.next_socket + 1,
        v.joined_next().is_joined(v.next_socket),
        other != v.next_socket ==> v.joined_next().is_joined(other) == v.is_joined(other),
        v.joined_next().ports == v.ports,
        v.joined_next().claimed == v.claimed,
        v.claimed_next(port).claimed[v.next_socket as i64] == port,
        v.claimed_next(port).ports == v.ports,
        v.claimed_next(port).joined == v.joined,
        !v.unclaimed(other).claimed.contains_key(other as i64),
        !v.closed(other).is_joined(other),
{
}

/// A socket gives up the port that it holds and no other.
pub proof fn only_the_own_port_is_given_up(v: DgramView, owners: Map<u16, i32>, id: i32, port: u16)
    requires
        v.wf(),
        owners.contains_key(port),
    ensures
        v.claimed.contains_key(id as i64) && v.claimed[id as i64] == port ==> !owners_without(
            v,
            owners,
            id,
        ).contains_key(port),
        !(v.claimed.contains_key(id as i64) && v.claimed[id as i64] == port) ==> owners_without(
            v,
            owners,
            id,
        ).contains_key(port) && owners_without(v, owners, id)[port] == owners[port],
{
    if v.claimed.contains_key(id as i64) {
        assert(0 <= v.claimed[id as i64] <= u16::MAX);
    }
}

/// Every system error has its code, and the others `EOTHER`.
pub proof fn datagram_errors_have_their_codes(kind: IoKind)
    ensures
        kind == IoKind::AddrInUse ==> code_of(kind) == "EADDRINUSE"@,
        kind == IoKind::AddrNotAvailable ==> code_of(kind) == "EADDRNOTAVAIL"@,
        kind == IoKind::ConnectionRefused ==> code_of(kind) == "ECONNREFUSED"@,
        kind == IoKind::TimedOut ==> code_of(kind) == "ETIMEDOUT"@,
        kind == IoKind::WouldBlock ==> code_of(kind) == "EAGAIN"@,
        kind == IoKind::Interrupted ==> code_of(kind) == "EINTR"@,
        kind == IoKind::PermissionDenied ==> code_of(kind) == "EACCES"@,
        kind == IoKind::ConnectionAborted || kind == IoKind::ConnectionReset || kind
            == IoKind::NotConnected || kind == IoKind::BrokenPipe || kind == IoKind::UnexpectedEof
            || kind == IoKind::Other ==> code_of(kind) == "EOTHER"@,
{
}

} // verus!
