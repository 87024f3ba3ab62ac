//! Raw TCP coordinator of a daemon.
//!
//! Scripts know connections and servers by ids. This coordinator gives the ids out, keeps what is
//! pending on each connection, decides which requests are in order, and says what the task that
//! owns the socket has to do. A connection counts as alive until the script has been told that it
//! is closed.
use vstd::prelude::*;

use crate::codec::{
    base64_bytes, base64_decode, base64_encode, base64_error_text, base64_of, base64_round_trip,
};
use crate::daemon_port_claims::{claim_step, ClaimResult, SharedPortClaims};
use crate::manifold::{net_outbound_allowed, raw_connection_permitted, Manifold};
use crate::registry::{
    lemma_ids_between, lemma_some_id, next_after, next_positive, no_numbers, number_at,
    positive_after, IdMap,
};
use crate::text::{decimal, push_i64};

verus! {

pub type ConnId = i32;

pub type ServerId = i32;

/// Pending bytes at which a script is asked to stop writing until the connection has drained.
pub const WRITE_HWM: usize = 65536;

/// Bytes that are read from a connection at a time.
pub const READ_CHUNK: usize = 65536;

/// No daemon runs.
pub const E_NO_DAEMON: i32 = -1;

/// The manifold does not permit it.
pub const E_PERMISSION: i32 = -2;

/// No connection or server has the id.
pub const E_BAD_ID: i32 = -3;

/// The host is empty.
pub const E_BAD_HOST: i32 = -4;

/// The port is out of range.
pub const E_BAD_PORT: i32 = -5;

/// The payload is no base64.
pub const E_BAD_PAYLOAD: i32 = -6;

/// Anything else.
pub const E_OTHER: i32 = -7;

/// An end of a connection.
#[derive(Debug, Clone)]
pub struct AddrInfo {
    /// The address as text.
    pub address: String,
    /// Whether it is an IPv4 address; otherwise it is an IPv6 address.
    pub ipv4: bool,
    pub port: u16,
}

/// What happened on a connection or a server.
#[derive(Debug, Clone)]
pub enum NetEvent {
    Connect { conn_id: ConnId, local: Option<AddrInfo>, remote: Option<AddrInfo> },
    Connection {
        server_id: ServerId,
        conn_id: ConnId,
        local: Option<AddrInfo>,
        remote: Option<AddrInfo>,
    },
    Data { conn_id: ConnId, payload_b64: String },
    End { conn_id: ConnId },
    Drain { conn_id: ConnId },
    Close { conn_id: ConnId, had_error: bool },
    Error { conn_id: ConnId, message: String, code: String },
    Listening { server_id: ServerId, port: u16 },
    ServerError { server_id: ServerId, message: String },
}

/// What the task that owns a connection is told to do.
pub enum WriteCmd {
    Bytes(Vec<u8>),
    End,
    SetNoDelay(bool),
    SetKeepAlive { enable: bool, delay_ms: i32 },
}

/// What a script that asked to listen gets.
#[derive(Debug, Clone)]
pub enum ListenStep {
    /// A failure, by its code.
    Failed(i32),
    /// An id, with nothing to bind: another shard holds the port.
    Joined(ServerId),
    /// An id, and the address to bind under it, as host, colon and port.
    Bind(ServerId, String),
}

/// Kinds of system errors that scripts can tell apart.
#[derive(Debug, Clone, Copy, PartialEq, Eq, Structural)]
pub enum IoKind {
    ConnectionRefused,
    ConnectionAborted,
    ConnectionReset,
    TimedOut,
    AddrInUse,
    AddrNotAvailable,
    NotConnected,
    BrokenPipe,
    Interrupted,
    WouldBlock,
    UnexpectedEof,
    PermissionDenied,
    Other,
}

/// The code that a script sees for a system error on a connection; empty where it has none.
pub open spec fn code_of(kind: IoKind) -> Seq<char> {
    match kind {
        IoKind::ConnectionRefused => "ECONNREFUSED"@,
        IoKind::ConnectionAborted => "ECONNABORTED"@,
        IoKind::ConnectionReset => "ECONNRESET"@,
        IoKind::TimedOut => "ETIMEDOUT"@,
        IoKind::AddrInUse => "EADDRINUSE"@,
        IoKind::AddrNotAvailable => "EADDRNOTAVAIL"@,
        IoKind::NotConnected => "ENOTCONN"@,
        IoKind::BrokenPipe => "EPIPE"@,
        IoKind::Interrupted => "EINTR"@,
        IoKind::WouldBlock => "EAGAIN"@,
        IoKind::UnexpectedEof => "EUNEXPECTEDEOF"@,
        IoKind::PermissionDenied => ""@,
        IoKind::Other => ""@,
    }
}

/// The code that a script sees for a system error on a connection.
pub fn io_error_code(kind: IoKind) -> (r: String)
    ensures
        r@ == code_of(kind),
{
    match kind {
        IoKind::ConnectionRefused => "ECONNREFUSED".to_owned(),
        IoKind::ConnectionAborted => "ECONNABORTED".to_owned(),
        IoKind::ConnectionReset => "ECONNRESET".to_owned(),
        IoKind::TimedOut => "ETIMEDOUT".to_owned(),
        IoKind::AddrInUse => "EADDRINUSE".to_owned(),
        IoKind::AddrNotAvailable => "EADDRNOTAVAIL".to_owned(),
        IoKind::NotConnected => "ENOTCONN".to_owned(),
        IoKind::BrokenPipe => "EPIPE".to_owned(),
        IoKind::Interrupted => "EINTR".to_owned(),
        IoKind::WouldBlock => "EAGAIN".to_owned(),
        IoKind::UnexpectedEof => "EUNEXPECTEDEOF".to_owned(),
        IoKind::PermissionDenied => "".to_owned(),
        IoKind::Other => "".to_owned(),
    }
}

/// The bytes of a base64 payload. Where it is none, `last_error` says so.
pub fn decode_payload(b64: &str, last_error: &mut String) -> (r: Option<Vec<u8>>)
    ensures
        match r {
            Some(b) => base64_bytes(b64@) == Some(b@) && *final(last_error) == *old(last_error),
            None => base64_bytes(b64@) is None && final(last_error)@ == "net: payload base64: "@
                + base64_error_text(vstd::utf8::encode_utf8(b64@)),
        },
{
    match base64_decode(b64) {
        Ok(v) => Some(v),
        Err(e) => {
            let mut m = "net: payload base64: ".to_owned();
            m.append(&e);
            *last_error = m;
            None
        },
    }
}

/// `host` and `port` with a colon between them.
pub open spec fn host_and_port(host: Seq<char>, port: u16) -> Seq<char> {
    host + ":"@ + decimal(port as int)
}

/// `host` and `port` with a colon between them.
pub fn bind_address(host: &str, port: u16) -> (r: String)
    ensures
        r@ == host_and_port(host@, port),
{
    let mut m = host.to_owned();
    m.append(":");
    push_i64(&mut m, port as i64);
    m
}

/// What a coordinator holds.
#[verifier::ext_equal]
pub struct NetView {
    pub next_conn: i32,
    pub next_server: i32,
    /// Connection to bytes that were written and not yet sent.
    pub pending: Map<i64, i128>,
    /// Connection to one where the script has ended it, and otherwise to zero.
    pub ended: Map<i64, i128>,
    /// Server to one where it is bound here, and to zero where it joined another shard's.
    pub servers: Map<i64, i128>,
    /// Server to the port that it holds among the shards.
    pub owned_ports: Map<i64, i128>,
    pub alive_conns: usize,
    pub alive_servers: usize,
}

/// The TCP coordinator.
pub struct DaemonNet {
    manifold: Manifold,
    next_conn_id: i32,
    next_server_id: i32,
    pending: IdMap,
    ended: IdMap,
    servers: IdMap,
    owned_listener_ports: IdMap,
    alive_conns: usize,
    alive_servers: usize,
}

impl View for DaemonNet {
    type V = NetView;

    closed spec fn view(&self) -> NetView {
        NetView {
            next_conn: self.next_conn_id,
            next_server: self.next_server_id,
            pending: self.pending@,
            ended: self.ended@,
            servers: self.servers@,
            owned_ports: self.owned_listener_ports@,
            alive_conns: self.alive_conns,
            alive_servers: self.alive_servers,
        }
    }
}

impl NetView {
    /// Whether the tables belong together: ids that are positive, the same connections in both
    /// tables, byte counts that are byte counts, ports that are ports, and as many connections and
    /// servers as are counted.
    pub open spec fn wf(self) -> bool {
        &&& self.next_conn >= 1
        &&& self.next_server >= 1
        &&& self.pending.dom() == self.ended.dom()
        &&& forall|id: i64| #[trigger]
            self.pending.contains_key(id) ==> 1 <= id <= i32::MAX && 0 <= self.pending[id]
                <= usize::MAX
        &&& forall|id: i64| #[trigger] self.servers.contains_key(id) ==> 1 <= id <= i32::MAX
        &&& forall|id: i64| #[trigger]
            self.owned_ports.contains_key(id) ==> 0 <= self.owned_ports[id] <= u16::MAX
        &&& self.pending.dom().finite()
        &&& self.alive_conns == self.pending.dom().len()
        &&& self.servers.dom().finite()
        &&& self.alive_servers == self.servers.dom().len()
    }

    /// Whether a connection or a server is open.
    pub open spec fn any_open(self) -> bool {
        ||| exists|id: i64| #[trigger] self.pending.contains_key(id)
        ||| exists|id: i64| #[trigger] self.servers.contains_key(id)
    }

    /// Whether server `id` is bound here.
    pub open spec fn is_bound(self, id: i32) -> bool {
        self.servers.contains_key(id as i64) && self.servers[id as i64] != 0
    }

    /// Whether `id` is a connection.
    pub open spec fn is_conn(self, id: i32) -> bool {
        self.pending.contains_key(id as i64)
    }

    /// Whether the script has ended connection `id`.
    pub open spec fn is_ended(self, id: i32) -> bool {
        self.ended[id as i64] != 0
    }

    /// The coordinator with a new connection. An id that comes round again is taken over from the
    /// connection that had it.
    pub open spec fn connected(self) -> NetView {
        NetView {
            next_conn: positive_after(self.next_conn),
            pending: self.pending.insert(self.next_conn as i64, 0),
            ended: self.ended.insert(self.next_conn as i64, 0),
            alive_conns: if self.is_conn(self.next_conn) {
                self.alive_conns
            } else {
                (self.alive_conns + 1) as usize
            },
            ..self
        }
    }

    /// The coordinator with `n` bytes more pending on connection `id`.
    pub open spec fn written(self, id: i32, n: usize) -> NetView {
        NetView {
            pending: self.pending.insert(
                id as i64,
                if self.pending[id as i64] + n > usize::MAX {
                    (self.pending[id as i64] + n - usize::MAX - 1) as i128
                } else {
                    (self.pending[id as i64] + n) as i128
                },
            ),
            ..self
        }
    }

    /// The coordinator with `n` bytes fewer pending on connection `id`.
    pub open spec fn flushed(self, id: i32, n: usize) -> NetView {
        NetView {
            pending: self.pending.insert(
                id as i64,
                if self.pending[id as i64] >= n {
                    (self.pending[id as i64] - n) as i128
                } else {
                    0
                },
            ),
            ..self
        }
    }

    /// The coordinator with connection `id` ended.
    pub open spec fn half_closed(self, id: i32) -> NetView {
        NetView { ended: self.ended.insert(id as i64, 1), ..self }
    }

    /// The coordinator without connection `id`.
    pub open spec fn gone(self, id: i32) -> NetView {
        if self.is_conn(id) {
            NetView {
                pending: self.pending.remove(id as i64),
                ended: self.ended.remove(id as i64),
                alive_conns: (self.alive_conns - 1) as usize,
                ..self
            }
        } else {
            self
        }
    }

    /// The coordinator with one more server. An id that comes round again is taken over from the
    /// server that had it.
    pub open spec fn served(self, here: i128) -> NetView {
        NetView {
            next_server: positive_after(self.next_server),
            servers: self.servers.insert(self.next_server as i64, here),
            alive_servers: if self.servers.contains_key(self.next_server as i64) {
                self.alive_servers
            } else {
                (self.alive_servers + 1) as usize
            },
            ..self
        }
    }

    /// The coordinator with one more server, which binds nothing.
    pub open spec fn joined(self) -> NetView {
        self.served(0)
    }

    /// The coordinator with one more server, which is bound here.
    pub open spec fn bound(self) -> NetView {
        self.served(1)
    }

    /// The coordinator with one more server, which is bound here and holds `port` among the
    /// shards.
    pub open spec fn bound_for_shards(self, port: u16) -> NetView {
        NetView {
            owned_ports: self.owned_ports.insert(self.next_server as i64, port as i128),
            ..self.bound()
        }
    }

    /// The coordinator without server `id`.
    pub open spec fn server_gone(self, id: i32) -> NetView {
        if self.servers.contains_key(id as i64) {
            NetView {
                servers: self.servers.remove(id as i64),
                alive_servers: (self.alive_servers - 1) as usize,
                ..self
            }
        } else {
            self
        }
    }
}

proof fn lemma_gone_wf(v: NetView, id: i32)
    requires
        v.wf(),
    ensures
        v.gone(id).wf(),
        v.is_conn(id) ==> v.alive_conns > 0,
{
    let w = v.gone(id);
    assert(w.pending.dom() =~= w.ended.dom());
    if v.is_conn(id) {
        assert(w.pending.dom() =~= v.pending.dom().remove(id as i64));
        assert(v.pending.dom().contains(id as i64));
    }
    assert forall|k: i64| #[trigger] w.pending.contains_key(k) implies 1 <= k <= i32::MAX && 0
        <= w.pending[k] <= usize::MAX by {
        assert(v.pending.contains_key(k));
    }
}

proof fn lemma_server_gone_wf(v: NetView, id: i32)
    requires
        v.wf(),
    ensures
        v.server_gone(id).wf(),
        v.servers.contains_key(id as i64) ==> v.alive_servers > 0,
{
    let w = v.server_gone(id);
    if v.servers.contains_key(id as i64) {
        assert(w.servers.dom() =~= v.servers.dom().remove(id as i64));
        assert(v.servers.dom().contains(id as i64));
    }
    assert forall|k: i64| #[trigger] w.servers.contains_key(k) implies 1 <= k <= i32::MAX by {
        assert(v.servers.contains_key(k));
    }
}

proof fn lemma_served_wf(v: NetView, here: i128)
    requires
        v.wf(),
    ensures
        v.served(here).wf(),
        v.alive_servers < usize::MAX,
{
    let w = v.served(here);
    let id = v.next_server as i64;
    assert(w.servers.dom() =~= v.servers.dom().insert(id));
    assert forall|k: i64| #[trigger] v.servers.dom().contains(k) implies 1 <= k <= i32::MAX by {
        assert(v.servers.contains_key(k));
    }
    lemma_ids_between(v.servers.dom(), 1, i32::MAX as int);
    assert forall|k: i64| #[trigger] w.servers.contains_key(k) implies 1 <= k <= i32::MAX by {
        if k != id {
            assert(v.servers.contains_key(k));
        }
    }
}

proof fn lemma_connected_wf(v: NetView)
    requires
        v.wf(),
    ensures
        v.connected().wf(),
        v.alive_conns < usize::MAX,
{
    let w = v.connected();
    let id = v.next_conn as i64;
    assert(w.pending.dom() =~= v.pending.dom().insert(id));
    assert(w.pending.dom() =~= w.ended.dom());
    assert forall|k: i64| #[trigger] v.pending.dom().contains(k) implies 1 <= k <= i32::MAX by {
        assert(v.pending.contains_key(k));
    }
    lemma_ids_between(v.pending.dom(), 1, i32::MAX as int);
    assert forall|k: i64| #[trigger] w.pending.contains_key(k) implies 1 <= k <= i32::MAX && 0
        <= w.pending[k] <= usize::MAX by {
        if k != id {
            assert(v.pending.contains_key(k));
        }
    }
}

proof fn lemma_conn_update_wf(v: NetView, id: i32, bytes: i128, flag: i128)
    requires
        v.wf(),
        v.is_conn(id),
        0 <= bytes <= usize::MAX,
    ensures
        (NetView { pending: v.pending.insert(id as i64, bytes), ..v }).wf(),
        (NetView { ended: v.ended.insert(id as i64, flag), ..v }).wf(),
{
    let p = v.pending.insert(id as i64, bytes);
    let e = v.ended.insert(id as i64, flag);
    assert(v.ended.dom().contains(id as i64));
    assert(p.dom() =~= v.pending.dom());
    assert(e.dom() =~= v.ended.dom());
    assert forall|k: i64| #[trigger] p.contains_key(k) implies 1 <= k <= i32::MAX && 0 <= p[k]
        <= usize::MAX by {
        assert(v.pending.contains_key(k));
    }
}

impl DaemonNet {
    /// What the coordinator may reach.
    pub closed spec fn profile(&self) -> Manifold {
        self.manifold
    }

    /// A coordinator with no connection and no server.
    pub fn new(manifold: Manifold) -> (r: Self)
        ensures
            r@.wf(),
            r.profile() == manifold,
            r@ == (NetView {
                next_conn: 1,
                next_server: 1,
                pending: no_numbers(),
                ended: no_numbers(),
                servers: no_numbers(),
                owned_ports: no_numbers(),
                alive_conns: 0,
                alive_servers: 0,
            }),
    {
        DaemonNet {
            manifold,
            next_conn_id: 1,
            next_server_id: 1,
            pending: IdMap::new(),
            ended: IdMap::new(),
            servers: IdMap::new(),
            owned_listener_ports: IdMap::new(),
            alive_conns: 0,
            alive_servers: 0,
        }
    }

    /// Whether a connection or a server keeps the daemon alive.
    pub fn has_refs(&self) -> (r: bool)
        ensures
            r == (self@.alive_conns > 0 || self@.alive_servers > 0),
            self@.wf() ==> r == self@.any_open(),
    {
        proof {
            if self@.wf() {
                any_open_is_counted(self@);
            }
        }
        self.alive_conns > 0 || self.alive_servers > 0
    }

    /// Bytes that wait on connection `conn_id`; zero where there is none.
    pub fn pending_bytes(&self, conn_id: ConnId) -> (r: i32)
        ensures
            r == (if self@.is_conn(conn_id) {
                self@.pending[conn_id as i64] as i32
            } else {
                0
            }),
    {
        match self.pending.get(conn_id as i64) {
            Some(n) => n as i32,
            None => 0,
        }
    }

    fn add_conn(&mut self) -> (r: ConnId)
        requires
            old(self)@.wf(),
        ensures
            final(self)@.wf(),
            final(self).profile() == old(self).profile(),
            final(self)@ == old(self)@.connected(),
            r == old(self)@.next_conn,
    {
        let id: i32 = self.next_conn_id;
        proof {
            lemma_connected_wf(self@);
        }
        self.next_conn_id = next_positive(id);
        let before = self.pending.insert(id as i64, 0);
        self.ended.insert(id as i64, 0);
        if before.is_none() {
            self.alive_conns = self.alive_conns + 1;
        }
        id
    }

    /// Starts a connection to `host` and `port`: the id to connect under. Fails where the manifold
    /// does not permit the host, where the host is empty and where the port is zero, in that
    /// order; `last_error` then says why.
    pub fn connect(&mut self, host: &str, port: u16, last_error: &mut String) -> (r: Result<
        ConnId,
        i32,
    >)
        requires
            old(self)@.wf(),
        ensures
            final(self)@.wf(),
            final(self).profile() == old(self).profile(),
            if !raw_connection_permitted(old(self).profile().net, host@) {
                &&& r == Err::<ConnId, i32>(E_PERMISSION)
                &&& final(last_error)@ == "net.connect: not granted by manifold (host "@ + host@
                    + ")"@
                &&& final(self)@ == old(self)@
            } else if host@.len() == 0 {
                &&& r == Err::<ConnId, i32>(E_BAD_HOST)
                &&& final(last_error)@ == "net.connect: empty host"@
                &&& final(self)@ == old(self)@
            } else if port == 0 {
                &&& r == Err::<ConnId, i32>(E_BAD_PORT)
                &&& final(last_error)@ == "net.connect: port must be > 0"@
                &&& final(self)@ == old(self)@
            } else {
                &&& r == Ok::<ConnId, i32>(old(self)@.next_conn)
                &&& *final(last_error) == *old(last_error)
                &&& final(self)@ == old(self)@.connected()
            },
    {
        if !net_outbound_allowed(&self.manifold, host) {
            let mut m = "net.connect: not granted by manifold (host ".to_owned();
            m.append(host);
            m.append(")");
            *last_error = m;
            return Err(E_PERMISSION);
        }
        if host.is_empty() {
            *last_error = "net.connect: empty host".to_owned();
            return Err(E_BAD_HOST);
        }
        if port == 0 {
            *last_error = "net.connect: port must be > 0".to_owned();
            return Err(E_BAD_PORT);
        }
        Ok(self.add_conn())
    }

    /// Takes up a connection that a server accepted: its id.
    pub fn register_accepted(&mut self) -> (r: ConnId)
        requires
            old(self)@.wf(),
        ensures
            final(self)@.wf(),
            final(self).profile() == old(self).profile(),
            final(self)@ == old(self)@.connected(),
            r == old(self)@.next_conn,
    {
        self.add_conn()
    }

    /// Writes `data` to connection `conn_id`: what its task has to do. Fails where there is no
    /// such connection and where the script has ended it.
    pub fn write(&mut self, conn_id: ConnId, data: Vec<u8>, last_error: &mut String) -> (r: Result<
        WriteCmd,
        i32,
    >)
        requires
            old(self)@.wf(),
        ensures
            final(self)@.wf(),
            final(self).profile() == old(self).profile(),
            if !old(self)@.is_conn(conn_id) {
                &&& r == Err::<WriteCmd, i32>(E_BAD_ID)
                &&& final(last_error)@ == "net.write: unknown conn id "@ + decimal(conn_id as int)
                &&& final(self)@ == old(self)@
            } else if old(self)@.is_ended(conn_id) {
                &&& r == Err::<WriteCmd, i32>(E_BAD_ID)
                &&& final(last_error)@ == "net.write: conn "@ + decimal(conn_id as int)
                    + " already half-closed"@
                &&& final(self)@ == old(self)@
            } else {
                &&& r == Ok::<WriteCmd, i32>(WriteCmd::Bytes(data))
                &&& *final(last_error) == *old(last_error)
                &&& final(self)@ == old(self)@.written(conn_id, data@.len() as usize)
            },
    {
        let waiting = match self.pending.get(conn_id as i64) {
            Some(n) => n,
            None => {
                let mut m = "net.write: unknown conn id ".to_owned();
                push_i64(&mut m, conn_id as i64);
                *last_error = m;
                return Err(E_BAD_ID);
            },
        };
        assert(self@.ended.dom().contains(conn_id as i64));
        let ended = match self.ended.get(conn_id as i64) {
            Some(f) => f != 0,
            None => false,
        };
        if ended {
            let mut m = "net.write: conn ".to_owned();
            push_i64(&mut m, conn_id as i64);
            m.append(" already half-closed");
            *last_error = m;
            return Err(E_BAD_ID);
        }
        assert(0 <= waiting <= usize::MAX) by {
            assert(self@.pending.contains_key(conn_id as i64));
        }
        let sum: i128 = waiting + data.len() as i128;
        let total: i128 = if sum > usize::MAX as i128 {
            sum - usize::MAX as i128 - 1
        } else {
            sum
        };
        proof {
            lemma_conn_update_wf(self@, conn_id, total, 0);
        }
        self.pending.insert(conn_id as i64, total);
        Ok(WriteCmd::Bytes(data))
    }
}

impl DaemonNet {
    /// Takes a payload that a script writes to connection `conn_id`, in base64: what goes to the
    /// connection's task, or a code.
    pub fn write_payload(&mut self, conn_id: ConnId, payload: &str, last_error: &mut String) -> (r:
        Result<WriteCmd, i32>)
        requires
            old(self)@.wf(),
        ensures
            final(self)@.wf(),
            final(self).profile() == old(self).profile(),
            match base64_bytes(payload@) {
                None => {
                    &&& r == Err::<WriteCmd, i32>(E_BAD_PAYLOAD)
                    &&& final(last_error)@ == "net: payload base64: "@ + base64_error_text(
                        vstd::utf8::encode_utf8(payload@),
                    )
                    &&& final(self)@ == old(self)@
                },
                Some(data) => if !old(self)@.is_conn(conn_id) {
                    &&& r == Err::<WriteCmd, i32>(E_BAD_ID)
                    &&& final(last_error)@ == "net.write: unknown conn id "@ + decimal(
                        conn_id as int,
                    )
                    &&& final(self)@ == old(self)@
                } else if old(self)@.is_ended(conn_id) {
                    &&& r == Err::<WriteCmd, i32>(E_BAD_ID)
                    &&& final(last_error)@ == "net.write: conn "@ + decimal(conn_id as int)
                        + " already half-closed"@
                    &&& final(self)@ == old(self)@
                } else {
                    &&& r matches Ok(WriteCmd::Bytes(bytes)) && bytes@ == data
                    &&& *final(last_error) == *old(last_error)
                    &&& final(self)@ == old(self)@.written(conn_id, data.len() as usize)
                },
            },
    {
        match decode_payload(payload, last_error) {
            Some(data) => self.write(conn_id, data, last_error),
            None => Err(E_BAD_PAYLOAD),
        }
    }

    /// Takes note that the task of connection `conn_id` has sent `n` bytes: how many were pending
    /// before that, and how many still are. `None` where there is no such connection.
    pub fn note_flushed(&mut self, conn_id: ConnId, n: usize) -> (r: Option<(usize, usize)>)
        requires
            old(self)@.wf(),
        ensures
            final(self)@.wf(),
            final(self).profile() == old(self).profile(),
            match r {
                Some((before, left)) => old(self)@.is_conn(conn_id) && final(self)@ == old(
                    self,
                )@.flushed(conn_id, n) && before == old(self)@.pending[conn_id as i64] && left
                    == final(self)@.pending[conn_id as i64],
                None => !old(self)@.is_conn(conn_id) && final(self)@ == old(self)@,
            },
    {
        match self.pending.get(conn_id as i64) {
            Some(waiting) => {
                assert(0 <= waiting <= usize::MAX) by {
                    assert(self@.pending.contains_key(conn_id as i64));
                }
                let left: i128 = if waiting >= n as i128 {
                    waiting - n as i128
                } else {
                    0
                };
                proof {
                    lemma_conn_update_wf(self@, conn_id, left, 0);
                }
                self.pending.insert(conn_id as i64, left);
                Some((waiting as usize, left as usize))
            },
            None => None,
        }
    }

    /// Ends the writing side of connection `conn_id`. The first call gives what its task has to
    /// do; any further one has no effect. Fails where there is no such connection.
    pub fn end(&mut self, conn_id: ConnId, last_error: &mut String) -> (r: Result<
        Option<WriteCmd>,
        i32,
    >)
        requires
            old(self)@.wf(),
        ensures
            final(self)@.wf(),
            final(self).profile() == old(self).profile(),
            if !old(self)@.is_conn(conn_id) {
                &&& r == Err::<Option<WriteCmd>, i32>(E_BAD_ID)
                &&& final(last_error)@ == "net.end: unknown conn id "@ + decimal(conn_id as int)
                &&& final(self)@ == old(self)@
            } else if old(self)@.is_ended(conn_id) {
                &&& r == Ok::<Option<WriteCmd>, i32>(None)
                &&& *final(last_error) == *old(last_error)
                &&& final(self)@ == old(self)@
            } else {
                &&& r == Ok::<Option<WriteCmd>, i32>(Some(WriteCmd::End))
                &&& *final(last_error) == *old(last_error)
                &&& final(self)@ == old(self)@.half_closed(conn_id)
            },
    {
        assert(self@.pending.dom().contains(conn_id as i64) == self@.ended.dom().contains(
            conn_id as i64,
        ));
        match self.ended.get(conn_id as i64) {
            Some(flag) => {
                if flag != 0 {
                    return Ok(None);
                }
                proof {
                    lemma_conn_update_wf(self@, conn_id, 0, 1);
                }
                self.ended.insert(conn_id as i64, 1);
                Ok(Some(WriteCmd::End))
            },
            None => {
                let mut m = "net.end: unknown conn id ".to_owned();
                push_i64(&mut m, conn_id as i64);
                *last_error = m;
                Err(E_BAD_ID)
            },
        }
    }

    /// Tears connection `conn_id` down: the event to tell the script. The connection stays known,
    /// and alive, until the script has been told. Nothing to do where there is no such connection.
    pub fn destroy(&self, conn_id: ConnId) -> (r: Option<NetEvent>)
        ensures
            r == (if self@.is_conn(conn_id) {
                Some(NetEvent::Close { conn_id, had_error: false })
            } else {
                None
            }),
    {
        match self.pending.get(conn_id as i64) {
            Some(_) => Some(NetEvent::Close { conn_id, had_error: false }),
            None => None,
        }
    }

    /// Sets or clears immediate sending on connection `conn_id`: what its task has to do.
    pub fn set_no_delay(&self, conn_id: ConnId, enable: bool) -> (r: Result<WriteCmd, i32>)
        ensures
            r == (if self@.is_conn(conn_id) {
                Ok::<WriteCmd, i32>(WriteCmd::SetNoDelay(enable))
            } else {
                Err::<WriteCmd, i32>(E_BAD_ID)
            }),
    {
        match self.pending.get(conn_id as i64) {
            Some(_) => Ok(WriteCmd::SetNoDelay(enable)),
            None => Err(E_BAD_ID),
        }
    }

    /// Sets or clears keep-alive probes on connection `conn_id`: what its task has to do.
    pub fn set_keep_alive(&self, conn_id: ConnId, enable: bool, delay_ms: i32) -> (r: Result<
        WriteCmd,
        i32,
    >)
        ensures
            r == (if self@.is_conn(conn_id) {
                Ok::<WriteCmd, i32>(WriteCmd::SetKeepAlive { enable, delay_ms })
            } else {
                Err::<WriteCmd, i32>(E_BAD_ID)
            }),
    {
        match self.pending.get(conn_id as i64) {
            Some(_) => Ok(WriteCmd::SetKeepAlive { enable, delay_ms }),
            None => Err(E_BAD_ID),
        }
    }

    /// Forgets connection `conn_id`, after the script was told that it is closed.
    pub fn mark_closed(&mut self, conn_id: ConnId)
        requires
            old(self)@.wf(),
        ensures
            final(self)@.wf(),
            final(self).profile() == old(self).profile(),
            final(self)@ == old(self)@.gone(conn_id),
    {
        proof {
            lemma_gone_wf(self@, conn_id);
        }
        match self.pending.remove(conn_id as i64) {
            Some(_) => {
                self.ended.remove(conn_id as i64);
                self.alive_conns = self.alive_conns - 1;
            },
            None => {
                assert(self@.pending =~= old(self)@.pending);
            },
        }
    }

    /// Starts a server on `host` and `port`, on a daemon of one shard.
    pub fn listen(&mut self, host: &str, port: u16, last_error: &mut String) -> (r: ListenStep)
        requires
            old(self)@.wf(),
        ensures
            final(self)@.wf(),
            final(self).profile() == old(self).profile(),
            if host@.len() == 0 {
                &&& r == ListenStep::Failed(E_BAD_HOST)
                &&& final(last_error)@ == "net.listen: empty host"@
                &&& final(self)@ == old(self)@
            } else {
                &&& r matches ListenStep::Bind(id, bind) && id == old(self)@.next_server && bind@
                    == host_and_port(host@, port)
                &&& *final(last_error) == *old(last_error)
                &&& final(self)@ == old(self)@.bound()
            },
    {
        if host.is_empty() {
            *last_error = "net.listen: empty host".to_owned();
            return ListenStep::Failed(E_BAD_HOST);
        }
        ListenStep::Bind(self.add_server(true), bind_address(host, port))
    }

    fn add_server(&mut self, here: bool) -> (r: ServerId)
        requires
            old(self)@.wf(),
        ensures
            final(self)@.wf(),
            final(self).profile() == old(self).profile(),
            here ==> final(self)@ == old(self)@.bound(),
            !here ==> final(self)@ == old(self)@.joined(),
            r == old(self)@.next_server,
    {
        let mark: i128 = if here {
            1
        } else {
            0
        };
        proof {
            lemma_served_wf(self@, mark);
        }
        let id: i32 = self.next_server_id;
        self.next_server_id = next_positive(id);
        let before = self.servers.insert(id as i64, mark);
        if before.is_none() {
            self.alive_servers = self.alive_servers + 1;
        }
        id
    }

    /// Starts a server on `host` and `port`, on a daemon whose shards share `claims`: the shard
    /// that claims the port first binds it, and the others join.
    pub fn listen_with_claims(
        &mut self,
        claims: &mut SharedPortClaims,
        host: &str,
        port: u16,
        last_error: &mut String,
    ) -> (r: ListenStep)
        requires
            old(self)@.wf(),
            old(claims).wf(),
        ensures
            final(self)@.wf(),
            final(claims).wf(),
            final(self).profile() == old(self).profile(),
            host@.len() == 0 ==> {
                &&& r == ListenStep::Failed(E_BAD_HOST)
                &&& final(last_error)@ == "net.listen: empty host"@
                &&& final(self)@ == old(self)@
                &&& *final(claims) == *old(claims)
            },
            host@.len() > 0 ==> {
                let claimed = claim_step(old(claims).owners(), old(claims).upcoming(), port);
                &&& *final(last_error) == *old(last_error)
                &&& final(claims).owners() == claimed.0
                &&& final(claims).upcoming() == next_after(old(claims).upcoming())
                &&& match claimed.1 {
                    ClaimResult::Owner(_) => (r matches ListenStep::Bind(id, bind) && id == old(
                        self,
                    )@.next_server && bind@ == host_and_port(host@, port)) && final(self)@ == old(self)@.bound_for_shards(port),
                    ClaimResult::Follower(_) => r == ListenStep::Joined(old(self)@.next_server)
                        && final(self)@ == old(self)@.joined(),
                }
            },
    {
        if host.is_empty() {
            *last_error = "net.listen: empty host".to_owned();
            return ListenStep::Failed(E_BAD_HOST);
        }
        match claims.try_claim(port) {
            ClaimResult::Owner(_) => {
                let id: i32 = self.add_server(true);
                let ghost before = self@;
                self.owned_listener_ports.insert(id as i64, port as i128);
                assert forall|k: i64| #[trigger] self@.owned_ports.contains_key(k) implies 0
                    <= self@.owned_ports[k] <= u16::MAX by {
                    if k != id as i64 {
                        assert(before.owned_ports.contains_key(k));
                    }
                }
                ListenStep::Bind(id, bind_address(host, port))
            },
            ClaimResult::Follower(_) => ListenStep::Joined(self.add_server(false)),
        }
    }

    fn remove_server(&mut self, server_id: ServerId)
        requires
            old(self)@.wf(),
        ensures
            final(self)@.wf(),
            final(self).profile() == old(self).profile(),
            final(self)@ == old(self)@.server_gone(server_id),
    {
        proof {
            lemma_server_gone_wf(self@, server_id);
        }
        match self.servers.remove(server_id as i64) {
            Some(_) => {
                self.alive_servers = self.alive_servers - 1;
            },
            None => {
                assert(self@.servers =~= old(self)@.servers);
            },
        }
    }

    /// Stops server `server_id`, on a daemon of one shard; whether it was bound here.
    pub fn close_server(&mut self, server_id: ServerId) -> (r: bool)
        requires
            old(self)@.wf(),
        ensures
            final(self)@.wf(),
            final(self).profile() == old(self).profile(),
            r == old(self)@.is_bound(server_id),
            r ==> final(self)@ == old(self)@.server_gone(server_id),
            !r ==> final(self)@ == old(self)@,
    {
        match self.servers.get(server_id as i64) {
            Some(here) => if here != 0 {
                self.remove_server(server_id);
                true
            } else {
                false
            },
            None => false,
        }
    }

    /// Stops server `server_id`, on a daemon whose shards share `claims`; whether it was bound
    /// here. A server that was gives its port up. One that had joined only stops counting. Nothing
    /// happens where there is no such server.
    pub fn close_server_with_claims(
        &mut self,
        claims: &mut SharedPortClaims,
        server_id: ServerId,
    ) -> (r: bool)
        requires
            old(self)@.wf(),
            old(claims).wf(),
        ensures
            final(self)@.wf(),
            final(claims).wf(),
            final(self).profile() == old(self).profile(),
            final(claims).upcoming() == old(claims).upcoming(),
            r == old(self)@.is_bound(server_id),
            r ==> final(self)@ == (NetView {
                owned_ports: old(self)@.owned_ports.remove(server_id as i64),
                ..old(self)@.server_gone(server_id)
            }),
            r ==> final(claims).owners() == (match number_at(
                old(self)@.owned_ports,
                server_id as i64,
            ) {
                Some(port) => old(claims).owners().remove(port as u16),
                None => old(claims).owners(),
            }),
            !r ==> final(claims).owners() == old(claims).owners(),
            !r ==> final(self)@ == old(self)@.server_gone(server_id),
    {
        if self.close_server(server_id) {
            proof {
                if self@.owned_ports.contains_key(server_id as i64) {
                    assert(0 <= self@.owned_ports[server_id as i64] <= u16::MAX);
                }
            }
            let ghost before = self@;
            match self.owned_listener_ports.remove(server_id as i64) {
                Some(port) => {
                    claims.release(port as u16);
                },
                None => {},
            }
            assert forall|k: i64| #[trigger] self@.owned_ports.contains_key(k) implies 0
                <= self@.owned_ports[k] <= u16::MAX by {
                assert(before.owned_ports.contains_key(k));
            }
            return true;
        }
        self.remove_server(server_id);
        false
    }
}

/// [`AddrInfo`] with its text as characters.
pub struct AddrView {
    pub address: Seq<char>,
    pub ipv4: bool,
    pub port: u16,
}

impl View for AddrInfo {
    type V = AddrView;

    open spec fn view(&self) -> AddrView {
        AddrView { address: self.address@, ipv4: self.ipv4, port: self.port }
    }
}

/// An optional address with its text as characters.
pub open spec fn addr_view(a: Option<AddrInfo>) -> Option<AddrView> {
    match a {
        Some(a) => Some(a@),
        None => None,
    }
}

/// [`NetEvent`] with its texts as characters.
pub enum NetEventView {
    Connect { conn_id: ConnId, local: Option<AddrView>, remote: Option<AddrView> },
    Connection {
        server_id: ServerId,
        conn_id: ConnId,
        local: Option<AddrView>,
        remote: Option<AddrView>,
    },
    Data { conn_id: ConnId, payload_b64: Seq<char> },
    End { conn_id: ConnId },
    Drain { conn_id: ConnId },
    Close { conn_id: ConnId, had_error: bool },
    Error { conn_id: ConnId, message: Seq<char>, code: Seq<char> },
    Listening { server_id: ServerId, port: u16 },
    ServerError { server_id: ServerId, message: Seq<char> },
}

impl View for NetEvent {
    type V = NetEventView;

    open spec fn view(&self) -> NetEventView {
        match self {
            NetEvent::Connect { conn_id, local, remote } => NetEventView::Connect {
                conn_id: *conn_id,
                local: addr_view(*local),
                remote: addr_view(*remote),
            },
            NetEvent::Connection { server_id, conn_id, local, remote } => NetEventView::Connection {
                server_id: *server_id,
                conn_id: *conn_id,
                local: addr_view(*local),
                remote: addr_view(*remote),
            },
            NetEvent::Data { conn_id, payload_b64 } => NetEventView::Data {
                conn_id: *conn_id,
                payload_b64: payload_b64@,
            },
            NetEvent::End { conn_id } => NetEventView::End { conn_id: *conn_id },
            NetEvent::Drain { conn_id } => NetEventView::Drain { conn_id: *conn_id },
            NetEvent::Close { conn_id, had_error } => NetEventView::Close {
                conn_id: *conn_id,
                had_error: *had_error,
            },
            NetEvent::Error { conn_id, message, code } => NetEventView::Error {
                conn_id: *conn_id,
                message: message@,
                code: code@,
            },
            NetEvent::Listening { server_id, port } => NetEventView::Listening {
                server_id: *server_id,
                port: *port,
            },
            NetEvent::ServerError { server_id, message } => NetEventView::ServerError {
                server_id: *server_id,
                message: message@,
            },
        }
    }
}

/// Events with their texts as characters.
pub open spec fn event_views(v: Seq<NetEvent>) -> Seq<NetEventView> {
    Seq::new(v.len(), |i: int| v[i]@)
}

/// A failed system call: what the system says, and of what kind the failure is.
pub struct IoFailure {
    pub message: String,
    pub kind: IoKind,
}

/// What happened to the task that owns a socket.
pub enum SocketInput {
    /// The connection that a script asked for stands.
    Connected { local: Option<AddrInfo>, remote: Option<AddrInfo> },
    /// The connection that a script asked for was not made.
    ConnectFailed(IoFailure),
    /// A write went out; so many bytes were pending before, and so many still are.
    Sent { before: usize, left: usize },
    /// A write failed.
    SendFailed(IoFailure),
    /// The writing side was shut.
    Shut,
    /// Immediate sending could not be set or cleared.
    NoDelayFailed { enable: bool, failure: IoFailure },
    /// Keep-alive probes could not be set or cleared.
    KeepAliveFailed { enable: bool, delay_ms: i32, failure: IoFailure },
    /// These bytes came in; none where the peer has ended the connection.
    Received(Vec<u8>),
    /// Reading failed.
    ReceiveFailed(IoFailure),
}

/// What the task that owns a socket remembers.
pub struct SocketDriver {
    conn_id: ConnId,
    writer_open: bool,
}

/// The words for a truth value.
pub open spec fn bool_text(b: bool) -> Seq<char> {
    if b {
        "true"@
    } else {
        "false"@
    }
}

/// The error event for `message` and `kind`.
pub open spec fn error_event(conn_id: ConnId, message: Seq<char>, kind: IoKind) -> NetEventView {
    NetEventView::Error { conn_id, message, code: code_of(kind) }
}

/// What happens to a task: whether it may write, the events for the script, and whether the task
/// ends. A task that ends says so with a close event, which comes last. A drain event comes where a
/// write takes the pending bytes from the mark or above to below it.
pub open spec fn socket_step(
    conn_id: ConnId,
    writer_open: bool,
    input: SocketInput,
) -> (bool, Seq<NetEventView>, bool) {
    match input {
        SocketInput::Connected { local, remote } => (
            writer_open,
            seq![
                NetEventView::Connect {
                    conn_id,
                    local: addr_view(local),
                    remote: addr_view(remote),
                },
            ],
            false,
        ),
        SocketInput::Sent { before, left } => (
            writer_open,
            if before >= WRITE_HWM && left < WRITE_HWM {
                seq![NetEventView::Drain { conn_id }]
            } else {
                Seq::empty()
            },
            false,
        ),
        SocketInput::Shut => (false, Seq::empty(), false),
        SocketInput::NoDelayFailed { enable, failure } => (
            writer_open,
            seq![
                error_event(
                    conn_id,
                    "set_nodelay("@ + bool_text(enable) + "): "@ + failure.message@,
                    failure.kind,
                ),
            ],
            false,
        ),
        SocketInput::KeepAliveFailed { enable, delay_ms, failure } => (
            writer_open,
            seq![
                error_event(
                    conn_id,
                    "set_keepalive("@ + bool_text(enable) + ", "@ + decimal(delay_ms as int)
                        + "): "@ + failure.message@,
                    failure.kind,
                ),
            ],
            false,
        ),
        SocketInput::Received(bytes) => if bytes@.len() == 0 {
            (
                writer_open,
                seq![
                    NetEventView::End { conn_id },
                    NetEventView::Close { conn_id, had_error: false },
                ],
                true,
            )
        } else {
            (
                writer_open,
                seq![NetEventView::Data { conn_id, payload_b64: base64_of(bytes@) }],
                false,
            )
        },
        SocketInput::ConnectFailed(failure)
        | SocketInput::SendFailed(failure)
        | SocketInput::ReceiveFailed(failure) => (
            writer_open,
            seq![
                error_event(conn_id, failure.message@, failure.kind),
                NetEventView::Close { conn_id, had_error: true },
            ],
            true,
        ),
    }
}

fn one_event(e: NetEvent) -> (r: Vec<NetEvent>)
    ensures
        event_views(r@) == seq![e@],
{
    let mut v: Vec<NetEvent> = Vec::new();
    v.push(e);
    assert(event_views(v@) =~= seq![e@]);
    v
}

fn two_events(a: NetEvent, b: NetEvent) -> (r: Vec<NetEvent>)
    ensures
        event_views(r@) == seq![a@, b@],
{
    let mut v: Vec<NetEvent> = Vec::new();
    v.push(a);
    v.push(b);
    assert(event_views(v@) =~= seq![a@, b@]);
    v
}

fn bool_word(b: bool) -> (r: &'static str)
    ensures
        r@ == bool_text(b),
{
    if b {
        "true"
    } else {
        "false"
    }
}

impl SocketDriver {
    pub closed spec fn conn(&self) -> ConnId {
        self.conn_id
    }

    pub closed spec fn may_write(&self) -> bool {
        self.writer_open
    }

    /// The task of a new connection.
    pub fn new(conn_id: ConnId) -> (r: Self)
        ensures
            r.conn() == conn_id,
            r.may_write(),
    {
        SocketDriver { conn_id, writer_open: true }
    }

    fn failed(&self, failure: IoFailure) -> (r: Vec<NetEvent>)
        ensures
            event_views(r@) == seq![
                error_event(self.conn(), failure.message@, failure.kind),
                NetEventView::Close { conn_id: self.conn(), had_error: true },
            ],
    {
        two_events(
            NetEvent::Error {
                conn_id: self.conn_id,
                message: failure.message,
                code: io_error_code(failure.kind),
            },
            NetEvent::Close { conn_id: self.conn_id, had_error: true },
        )
    }

    /// Takes note of `input`: the events for the script, and whether the task ends.
    pub fn step(&mut self, input: SocketInput) -> (r: (Vec<NetEvent>, bool))
        ensures
            final(self).conn() == old(self).conn(),
            (final(self).may_write(), event_views(r.0@), r.1) == socket_step(
                old(self).conn(),
                old(self).may_write(),
                input,
            ),
    {
        let conn_id: i32 = self.conn_id;
        match input {
            SocketInput::Connected { local, remote } => {
                (one_event(NetEvent::Connect { conn_id, local, remote }), false)
            },
            SocketInput::Sent { before, left } => {
                if before >= WRITE_HWM && left < WRITE_HWM {
                    (one_event(NetEvent::Drain { conn_id }), false)
                } else {
                    let none: Vec<NetEvent> = Vec::new();
                    assert(event_views(none@) =~= Seq::empty());
                    (none, false)
                }
            },
            SocketInput::Shut => {
                self.writer_open = false;
                let none: Vec<NetEvent> = Vec::new();
                assert(event_views(none@) =~= Seq::empty());
                (none, false)
            },
            SocketInput::NoDelayFailed { enable, failure } => {
                let mut message = "set_nodelay(".to_owned();
                message.append(bool_word(enable));
                message.append("): ");
                message.append(&failure.message);
                let code = io_error_code(failure.kind);
                (one_event(NetEvent::Error { conn_id, message, code }), false)
            },
            SocketInput::KeepAliveFailed { enable, delay_ms, failure } => {
                let mut message = "set_keepalive(".to_owned();
                message.append(bool_word(enable));
                message.append(", ");
                push_i64(&mut message, delay_ms as i64);
                message.append("): ");
                message.append(&failure.message);
                let code = io_error_code(failure.kind);
                (one_event(NetEvent::Error { conn_id, message, code }), false)
            },
            SocketInput::Received(bytes) => {
                if bytes.len() == 0 {
                    (
                        two_events(
                            NetEvent::End { conn_id },
                            NetEvent::Close { conn_id, had_error: false },
                        ),
                        true,
                    )
                } else {
                    let payload_b64 = base64_encode(&bytes);
                    (one_event(NetEvent::Data { conn_id, payload_b64 }), false)
                }
            },
            SocketInput::ConnectFailed(failure) => (self.failed(failure), true),
            SocketInput::SendFailed(failure) => (self.failed(failure), true),
            SocketInput::ReceiveFailed(failure) => (self.failed(failure), true),
        }
    }
}

/// Milliseconds before the first keep-alive probe, where the script set them.
pub fn keep_alive_idle(delay_ms: i32) -> (r: Option<u64>)
    ensures
        r == (if delay_ms > 0 {
            Some(delay_ms as u64)
        } else {
            None
        }),
{
    if delay_ms > 0 {
        Some(delay_ms as u64)
    } else {
        None
    }
}

/// The event for a server that could not bind `bind`.
pub fn bind_failed(server_id: ServerId, bind: &str, problem: &str) -> (r: NetEvent)
    ensures
        r@ == (NetEventView::ServerError {
            server_id,
            message: "bind "@ + bind@ + ": "@ + problem@,
        }),
{
    let mut message = "bind ".to_owned();
    message.append(bind);
    message.append(": ");
    message.append(problem);
    NetEvent::ServerError { server_id, message }
}

/// The event for a server that can accept no more connections.
pub fn accept_failed(server_id: ServerId, problem: &str) -> (r: NetEvent)
    ensures
        r@ == (NetEventView::ServerError { server_id, message: "accept: "@ + problem@ }),
{
    let mut message = "accept: ".to_owned();
    message.append(problem);
    NetEvent::ServerError { server_id, message }
}

/// What is counted is what is open: the counts of connections and servers are both zero exactly
/// where no connection and no server is open.
pub proof fn any_open_is_counted(v: NetView)
    requires
        v.wf(),
    ensures
        v.alive_conns > 0 || v.alive_servers > 0 <==> v.any_open(),
{
    lemma_some_id(v.pending.dom());
    lemma_some_id(v.servers.dom());
    assert(forall|id: i64| #[trigger]
        v.pending.contains_key(id) == v.pending.dom().contains(id));
    assert(forall|id: i64| #[trigger]
        v.servers.contains_key(id) == v.servers.dom().contains(id));
    assert(forall|id: i64| #[trigger]
        v.pending.dom().contains(id) ==> v.pending.contains_key(id));
    assert(forall|id: i64| #[trigger]
        v.servers.dom().contains(id) ==> v.servers.contains_key(id));
}

/// Closing a server, or an id that is none, leaves every other server open.
pub proof fn closing_leaves_other_servers(v: NetView, id: i32, other: i32)
    requires
        v.wf(),
        id != other,
    ensures
        v.server_gone(id).servers.contains_key(other as i64) == v.servers.contains_key(
            other as i64,
        ),
        v.servers.contains_key(other as i64) ==> v.server_gone(id).alive_servers > 0,
        v.server_gone(id).server_gone(id) == v.server_gone(id),
{
    lemma_server_gone_wf(v, id);
    if v.servers.contains_key(other as i64) {
        assert(v.server_gone(id).servers.dom().contains(other as i64));
    }
}

/// Opening a connection and then forgetting it leaves the tables and the count as they were.
pub proof fn forgetting_undoes_connecting(v: NetView)
    requires
        v.wf(),
        !v.is_conn(v.next_conn),
    ensures
        v.connected().is_conn(v.next_conn),
        v.connected().gone(v.next_conn).pending == v.pending,
        v.connected().gone(v.next_conn).ended == v.ended,
        v.connected().gone(v.next_conn).alive_conns == v.alive_conns,
{
    let w = v.connected().gone(v.next_conn);
    lemma_connected_wf(v);
    assert(!v.ended.dom().contains(v.next_conn as i64));
    assert(w.pending =~= v.pending);
    assert(w.ended =~= v.ended);
}

/// Forgetting a connection twice is the same as forgetting it once.
pub proof fn forgetting_is_idempotent(v: NetView, id: i32)
    ensures
        v.gone(id).gone(id) == v.gone(id),
{
}

/// After a script has ended a connection it stays ended, whatever is written or sent on others or
/// on itself, until it is forgotten.
pub proof fn ended_stays_ended(v: NetView, id: i32, other: i32, n: usize)
    requires
        v.wf(),
        v.is_conn(id),
    ensures
        v.half_closed(id).is_ended(id),
        v.half_closed(id).half_closed(id) == v.half_closed(id),
        v.half_closed(id).written(other, n).is_ended(id),
        v.half_closed(id).flushed(other, n).is_ended(id),
{
    assert(v.half_closed(id).half_closed(id).ended =~= v.half_closed(id).ended);
}

/// Bytes that are written and then sent leave the pending count as it was.
pub proof fn sending_undoes_writing(v: NetView, id: i32, n: usize)
    requires
        v.wf(),
        v.is_conn(id),
        v.pending[id as i64] + n <= usize::MAX,
    ensures
        v.written(id, n).flushed(id, n) == v,
{
    assert(0 <= v.pending[id as i64]) by {
        assert(v.pending.contains_key(id as i64));
    }
    assert(v.written(id, n).flushed(id, n).pending =~= v.pending);
}

/// A drain is announced exactly when a write takes the pending bytes from the mark or above to below
/// it, and nothing else is announced of a write that went out.
pub proof fn drain_is_announced_on_the_way_down(
    conn_id: ConnId,
    open: bool,
    before: usize,
    left: usize,
)
    ensures
        socket_step(conn_id, open, SocketInput::Sent { before, left }) == (
            open,
            if before >= WRITE_HWM && left < WRITE_HWM {
                seq![NetEventView::Drain { conn_id }]
            } else {
                Seq::empty()
            },
            false,
        ),
{
}

/// The events while writes of these sizes go out, from so many pending bytes on.
pub open spec fn sending_events(conn_id: ConnId, open: bool, before: nat, sizes: Seq<nat>) -> Seq<
    NetEventView,
>
    decreases sizes.len(),
{
    if sizes.len() == 0 {
        Seq::empty()
    } else {
        let left = if before >= sizes[0] {
            (before - sizes[0]) as nat
        } else {
            0
        };
        socket_step(
            conn_id,
            open,
            SocketInput::Sent { before: before as usize, left: left as usize },
        ).1 + sending_events(conn_id, open, left, sizes.skip(1))
    }
}

/// The sum of these sizes.
pub open spec fn total(sizes: Seq<nat>) -> nat
    decreases sizes.len(),
{
    if sizes.len() == 0 {
        0
    } else {
        sizes[0] + total(sizes.skip(1))
    }
}

/// However the pending bytes are split into writes, once all of them went out a drain was announced
/// exactly once where the mark had been reached, and never where it had not.
pub proof fn each_crossing_drains_once(conn_id: ConnId, open: bool, before: nat, sizes: Seq<nat>)
    requires
        before <= usize::MAX,
        total(sizes) == before,
    ensures
        sending_events(conn_id, open, before, sizes) == (if before >= WRITE_HWM {
            seq![NetEventView::Drain { conn_id }]
        } else {
            Seq::empty()
        }),
    decreases sizes.len(),
{
    if sizes.len() > 0 {
        let left = (before - sizes[0]) as nat;
        each_crossing_drains_once(conn_id, open, left, sizes.skip(1));
        assert(sending_events(conn_id, open, before, sizes) =~= if before >= WRITE_HWM {
            seq![NetEventView::Drain { conn_id }]
        } else {
            Seq::empty()
        });
    }
}

/// A task that ends announces a close, as its last event, and only then.
pub proof fn close_comes_last(conn_id: ConnId, open: bool, input: SocketInput)
    ensures
        ({
            let (w, events, ends) = socket_step(conn_id, open, input);
            &&& ends ==> events.len() > 0 && events.last() is Close
            &&& forall|i: int|
                0 <= i < events.len() && #[trigger] events[i] is Close ==> ends && i
                    == events.len() - 1
        }),
{
}

/// A new connection has nothing pending and is not ended; it counts, and every other connection and
/// every server is as it was. Ids go up one by one.
pub proof fn new_connection_is_empty(v: NetView, other: i32)
    requires
        v.wf(),
        !v.is_conn(v.next_conn),
    ensures
        v.connected().is_conn(v.next_conn),
        v.connected().pending[v.next_conn as i64] == 0,
        !v.connected().is_ended(v.next_conn),
        v.connected().alive_conns == v.alive_conns + 1,
        other != v.next_conn ==> v.connected().is_conn(other) == v.is_conn(other),
        other != v.next_conn && v.is_conn(other) ==> v.connected().pending[other as i64]
            == v.pending[other as i64] && v.connected().is_ended(other) == v.is_ended(other),
        v.connected().servers == v.servers,
        v.connected().owned_ports == v.owned_ports,
        v.connected().alive_servers == v.alive_servers,
        v.next_conn < i32::MAX ==> v.connected().next_conn == v.next_conn + 1,
{
    lemma_connected_wf(v);
}

/// Writing adds exactly the bytes that were written to what is pending on that connection, sending
/// takes exactly those that were sent off again, and neither touches anything else.
pub proof fn pending_bytes_are_counted(v: NetView, id: i32, other: i32, n: usize)
    requires
        v.wf(),
        v.is_conn(id),
    ensures
        v.pending[id as i64] + n <= usize::MAX ==> v.written(id, n).pending[id as i64]
            == v.pending[id as i64] + n,
        n <= v.pending[id as i64] ==> v.flushed(id, n).pending[id as i64] == v.pending[id as i64]
            - n,
        n > v.pending[id as i64] ==> v.flushed(id, n).pending[id as i64] == 0,
        other != id ==> v.written(id, n).pending[other as i64] == v.pending[other as i64],
        other != id ==> v.flushed(id, n).pending[other as i64] == v.pending[other as i64],
        v.written(id, n).ended == v.ended && v.flushed(id, n).ended == v.ended,
        v.written(id, n).servers == v.servers && v.flushed(id, n).servers == v.servers,
        v.written(id, n).alive_conns == v.alive_conns,
        v.flushed(id, n).alive_conns == v.alive_conns,
{
}

/// Ending a connection ends that one alone, and leaves what is pending.
pub proof fn ending_touches_one_connection(v: NetView, id: i32, other: i32)
    requires
        v.wf(),
        v.is_conn(id),
    ensures
        v.half_closed(id).is_ended(id),
        other != id ==> v.half_closed(id).is_ended(other) == v.is_ended(other),
        v.half_closed(id).pending == v.pending,
        v.half_closed(id).servers == v.servers,
        v.half_closed(id).alive_conns == v.alive_conns,
{
}

/// Forgetting a connection takes that one out, and one off the count; every other stays as it was.
pub proof fn forgetting_touches_one_connection(v: NetView, id: i32, other: i32)
    requires
        v.wf(),
        v.is_conn(id),
    ensures
        !v.gone(id).is_conn(id),
        v.gone(id).alive_conns == v.alive_conns - 1,
        other != id ==> v.gone(id).is_conn(other) == v.is_conn(other),
        other != id && v.is_conn(other) ==> v.gone(id).pending[other as i64] == v.pending[other
            as i64] && v.gone(id).is_ended(other) == v.is_ended(other),
        v.gone(id).servers == v.servers,
        v.gone(id).alive_servers == v.alive_servers,
{
    lemma_gone_wf(v, id);
}

/// A new server counts, and is bound here unless it joined another shard's; closing it takes it out
/// again. Connections and other servers are as they were.
pub proof fn servers_come_and_go(v: NetView, port: u16, other: i32)
    requires
        v.wf(),
        !v.servers.contains_key(v.next_server as i64),
    ensures
        v.bound().is_bound(v.next_server),
        v.bound().alive_servers == v.alive_servers + 1,
        v.joined().servers.contains_key(v.next_server as i64),
        !v.joined().is_bound(v.next_server),
        v.joined().alive_servers == v.alive_servers + 1,
        v.bound_for_shards(port).is_bound(v.next_server),
        v.bound_for_shards(port).owned_ports[v.next_server as i64] == port,
        other != v.next_server ==> v.bound().is_bound(other) == v.is_bound(other)
            && v.joined().is_bound(other) == v.is_bound(other),
        v.bound().pending == v.pending && v.joined().pending == v.pending,
        v.bound().server_gone(v.next_server).servers == v.servers,
        v.bound().server_gone(v.next_server).alive_servers == v.alive_servers,
        v.next_server < i32::MAX ==> v.bound().next_server == v.next_server + 1
            && v.joined().next_server == v.next_server + 1,
{
    lemma_served_wf(v, 1);
    assert(v.bound().server_gone(v.next_server).servers =~= v.servers);
}

/// A write that went out announces a drain exactly where it takes the pending bytes from 65536 or more
/// to fewer.
pub proof fn drain_comes_below_the_mark(conn_id: ConnId, open: bool, before: usize, left: usize)
    ensures
        before >= 65536 && left < 65536 ==> socket_step(
            conn_id,
            open,
            SocketInput::Sent { before, left },
        ).1 == seq![NetEventView::Drain { conn_id }],
        before < 65536 || left >= 65536 ==> socket_step(
            conn_id,
            open,
            SocketInput::Sent { before, left },
        ).1.len() == 0,
        !socket_step(conn_id, open, SocketInput::Sent { before, left }).2,
{
}

/// What comes in is told in base64, from which it can be read; the end of what comes in ends the
/// connection without an error.
pub proof fn received_bytes_are_told(conn_id: ConnId, open: bool, bytes: Vec<u8>)
    ensures
        bytes@.len() > 0 ==> socket_step(conn_id, open, SocketInput::Received(bytes)).1 == seq![
            NetEventView::Data { conn_id, payload_b64: base64_of(bytes@) },
        ] && base64_bytes(base64_of(bytes@)) == Some(bytes@) && !socket_step(
            conn_id,
            open,
            SocketInput::Received(bytes),
        ).2,
        bytes@.len() == 0 ==> socket_step(conn_id, open, SocketInput::Received(bytes)).1 == seq![
            NetEventView::End { conn_id },
            NetEventView::Close { conn_id, had_error: false },
        ] && socket_step(conn_id, open, SocketInput::Received(bytes)).2,
{
    base64_round_trip(bytes@);
}

/// A failed connect, write or read is told in the system's words and ends the connection with an
/// error; an option that cannot be set is told and ends nothing.
pub proof fn failures_of_sockets_are_told(conn_id: ConnId, open: bool, f: IoFailure, on: bool, ms: i32)
    ensures
        forall|input: SocketInput|
            input == SocketInput::ConnectFailed(f) || input == SocketInput::SendFailed(f) || input
                == SocketInput::ReceiveFailed(f) ==> (#[trigger] socket_step(conn_id, open, input)).1
                == seq![
                NetEventView::Error { conn_id, message: f.message@, code: code_of(f.kind) },
                NetEventView::Close { conn_id, had_error: true },
            ] && socket_step(conn_id, open, input).2,
        ({
            let step = socket_step(
                conn_id,
                open,
                SocketInput::NoDelayFailed { enable: on, failure: f },
            );
            step.1.len() == 1 && step.1[0] is Error && !step.2 && step.0 == open
        }),
        ({
            let step = socket_step(
                conn_id,
                open,
                SocketInput::KeepAliveFailed { enable: on, delay_ms: ms, failure: f },
            );
            step.1.len() == 1 && step.1[0] is Error && !step.2 && step.0 == open
        }),
        !socket_step(conn_id, open, SocketInput::Shut).0,
        socket_step(conn_id, open, SocketInput::Shut).1.len() == 0,
{
}

/// A connection that was made is told with both its ends, and goes on.
pub proof fn made_connection_is_told(
    conn_id: ConnId,
    open: bool,
    local: Option<AddrInfo>,
    remote: Option<AddrInfo>,
)
    ensures
        socket_step(conn_id, open, SocketInput::Connected { local, remote }) == (
            open,
            seq![
                NetEventView::Connect {
                    conn_id,
                    local: addr_view(local),
                    remote: addr_view(remote),
                },
            ],
            false,
        ),
        local matches Some(a) ==> (addr_view(local) matches Some(w) && w.address == a.address@
            && w.ipv4 == a.ipv4 && w.port == a.port),
        local is None ==> addr_view(local) is None,
{
}

/// Every system error that scripts can tell apart has the code that the system's own constants have.
pub proof fn system_errors_have_their_codes(kind: IoKind)
    ensures
        kind == IoKind::ConnectionRefused ==> code_of(kind) == "ECONNREFUSED"@,
        kind == IoKind::ConnectionAborted ==> code_of(kind) == "ECONNABORTED"@,
        kind == IoKind::ConnectionReset ==> code_of(kind) == "ECONNRESET"@,
        kind == IoKind::TimedOut ==> code_of(kind) == "ETIMEDOUT"@,
        kind == IoKind::AddrInUse ==> code_of(kind) == "EADDRINUSE"@,
        kind == IoKind::AddrNotAvailable ==> code_of(kind) == "EADDRNOTAVAIL"@,
        kind == IoKind::NotConnected ==> code_of(kind) == "ENOTCONN"@,
        kind == IoKind::BrokenPipe ==> code_of(kind) == "EPIPE"@,
        kind == IoKind::Interrupted ==> code_of(kind) == "EINTR"@,
        kind == IoKind::WouldBlock ==> code_of(kind) == "EAGAIN"@,
        kind == IoKind::UnexpectedEof ==> code_of(kind) == "EUNEXPECTEDEOF"@,
        kind == IoKind::PermissionDenied || kind == IoKind::Other ==> code_of(kind).len() == 0,
{
    reveal_strlit("");
}

/// An address to bind is the host, a colon and the port's digits.
pub proof fn addresses_to_bind(host: Seq<char>, port: u16)
    ensures
        host_and_port(host, port) == host + seq![':'] + decimal(port as int),
{
    reveal_strlit(":");
    assert(":"@ =~= seq![':']);
}

/// The codes that scripts know are minus one to minus seven.
pub proof fn codes_are_fixed()
    ensures
        E_NO_DAEMON == -1,
        E_PERMISSION == -2,
        E_BAD_ID == -3,
        E_BAD_HOST == -4,
        E_BAD_PORT == -5,
        E_BAD_PAYLOAD == -6,
        E_OTHER == -7,
        WRITE_HWM == 65536,
        READ_CHUNK == 65536,
{
}

} // verus!
