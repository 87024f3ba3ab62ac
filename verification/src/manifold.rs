//! Capability profile of a script.
//!
//! A manifold says which parts of the outside world a script may reach. Everything starts sealed.
use vstd::prelude::*;

use crate::text::{chars_end_in, ends_in, lower, lower_chars, same_chars, texts};

verus! {

/// What a script may do with files.
#[derive(Debug, Clone)]
pub enum FsAccess {
    Denied,
    /// Read below these roots; everywhere where there is none.
    ReadOnly(Vec<String>),
    /// Read and write below these roots; everywhere where there is none.
    ReadWrite(Vec<String>),
}

/// What a script may do with the network.
#[derive(Debug, Clone)]
pub enum NetAccess {
    Denied,
    /// HTTP requests, to these hosts where a list is given.
    OutboundHttp(Option<Vec<String>>),
    /// Any connection, to these hosts where a list is given.
    OutboundFull(Option<Vec<String>>),
}

/// Which environment variables a script may read.
#[derive(Debug, Clone)]
pub enum EnvAccess {
    Denied,
    Full,
    AllowList(Vec<String>),
}

/// What a script may do.
#[derive(Debug, Clone)]
pub struct Manifold {
    pub fs: FsAccess,
    pub net: NetAccess,
    pub env: EnvAccess,
    /// Whether cryptography is permitted.
    pub crypto: bool,
    /// Whether other programs may be started.
    pub child_process: bool,
    /// Whether the script may end the process that it runs in.
    pub allow_exit: bool,
    /// The milliseconds that an HTTP request may take, where a limit is set.
    pub http_timeout_ms: Option<u64>,
}

impl Manifold {
    /// The profile that permits nothing.
    pub fn sealed() -> (r: Self)
        ensures
            r.fs is Denied,
            r.net is Denied,
            r.env is Denied,
            !r.crypto,
            !r.child_process,
            !r.allow_exit,
            r.http_timeout_ms is None,
    {
        Manifold {
            fs: FsAccess::Denied,
            net: NetAccess::Denied,
            env: EnvAccess::Denied,
            crypto: false,
            child_process: false,
            allow_exit: false,
            http_timeout_ms: None,
        }
    }

    /// The profile that permits everything.
    pub fn open() -> (r: Self)
        ensures
            open_shaped(r),
    {
        Manifold {
            fs: FsAccess::ReadWrite(Vec::new()),
            net: NetAccess::OutboundFull(None),
            env: EnvAccess::Full,
            crypto: true,
            child_process: true,
            allow_exit: true,
            http_timeout_ms: None,
        }
    }
}

/// Whether everything is permitted without restriction.
pub open spec fn open_shaped(m: Manifold) -> bool {
    &&& m.fs matches FsAccess::ReadWrite(roots) && roots@.len() == 0
    &&& m.net matches NetAccess::OutboundFull(hosts) && hosts is None
    &&& m.env is Full
    &&& m.crypto
    &&& m.child_process
    &&& m.allow_exit
    &&& m.http_timeout_ms is None
}

/// Whether the list entry `pattern` admits `host`. Letter case does not matter. `*` admits every
/// host and `*.suffix` every host below `suffix`, but not `suffix` itself.
pub open spec fn pattern_admits(pattern: Seq<char>, host: Seq<char>) -> bool {
    let p = lower(pattern);
    let h = lower(host);
    if p == seq!['*'] {
        true
    } else if p.len() >= 2 && p[0] == '*' && p[1] == '.' {
        ends_in(h, p.skip(1))
    } else {
        p == h
    }
}

/// Whether a host list admits `host`. The empty list admits every host.
pub open spec fn list_admits(allow: Seq<Seq<char>>, host: Seq<char>) -> bool {
    allow.len() == 0 || exists|i: int|
        0 <= i < allow.len() && pattern_admits(#[trigger] allow[i], host)
}

/// Whether `net` permits a raw connection to `host`.
pub open spec fn raw_connection_permitted(net: NetAccess, host: Seq<char>) -> bool {
    match net {
        NetAccess::OutboundFull(Some(allow)) => list_admits(texts(allow@), host),
        NetAccess::OutboundFull(None) => true,
        _ => false,
    }
}

fn pattern_allows(pattern: &str, host_lower: &Vec<char>, Ghost(host): Ghost<Seq<char>>) -> (r: bool)
    requires
        host_lower@ == lower(host),
    ensures
        r == pattern_admits(pattern@, host),
{
    let p = lower_chars(pattern);
    if p.len() == 1 && p[0] == '*' {
        assert(p@ =~= seq!['*']);
        return true;
    }
    assert(p@.len() == 1 && p@[0] == '*' <==> p@ =~= seq!['*']);
    if p.len() >= 2 && p[0] == '*' && p[1] == '.' {
        let mut tail: Vec<char> = Vec::new();
        let mut i: usize = 1;
        while i < p.len()
            invariant
                1 <= i <= p@.len(),
                tail@ == p@.subrange(1, i as int),
            decreases p@.len() - i,
        {
            tail.push(p[i]);
            assert(p@.subrange(1, i + 1) =~= p@.subrange(1, i as int).push(p@[i as int]));
            i += 1;
        }
        assert(tail@ =~= p@.skip(1));
        return chars_end_in(host_lower, &tail);
    }
    same_chars(&p, host_lower)
}

/// Whether `allow` admits `host`.
pub fn host_allowed(host: &str, allow: &Vec<String>) -> (r: bool)
    ensures
        r == list_admits(texts(allow@), host@),
{
    if allow.len() == 0 {
        return true;
    }
    let host_lower = lower_chars(host);
    let ghost all = texts(allow@);
    let mut i: usize = 0;
    while i < allow.len()
        invariant
            i <= allow@.len(),
            all == texts(allow@),
            host_lower@ == lower(host@),
            forall|j: int| 0 <= j < i ==> !pattern_admits(#[trigger] all[j], host@),
        decreases allow@.len() - i,
    {
        if pattern_allows(&allow[i], &host_lower, Ghost(host@)) {
            assert(all[i as int] == allow@[i as int]@);
            return true;
        }
        assert(all[i as int] == allow@[i as int]@);
        i += 1;
    }
    false
}

/// Whether `m` permits a raw connection to `host`.
pub fn net_outbound_allowed(m: &Manifold, host: &str) -> (r: bool)
    ensures
        r == raw_connection_permitted(m.net, host@),
{
    match &m.net {
        NetAccess::Denied => false,
        NetAccess::OutboundHttp(_) => false,
        NetAccess::OutboundFull(None) => true,
        NetAccess::OutboundFull(Some(allow)) => host_allowed(host, allow),
    }
}

/// Whether `m` permits datagram sockets.
pub fn udp_allowed(m: &Manifold) -> (r: bool)
    ensures
        r == (m.net is OutboundFull),
{
    matches!(m.net, NetAccess::OutboundFull(_))
}

/// Letter case of ASCII letters never decides whether a host is admitted.
pub proof fn admission_ignores_case(allow: Seq<Seq<char>>, a: Seq<char>, b: Seq<char>)
    requires
        lower(a) == lower(b),
    ensures
        list_admits(allow, a) == list_admits(allow, b),
{
    assert(forall|i: int|
        0 <= i < allow.len() ==> pattern_admits(#[trigger] allow[i], a) == pattern_admits(
            allow[i],
            b,
        ));
}

/// A `*.suffix` entry admits hosts below the suffix and not the suffix itself.
pub proof fn wildcard_excludes_apex(suffix: Seq<char>, label: Seq<char>)
    ensures
        !pattern_admits(seq!['*', '.'] + suffix, suffix),
        pattern_admits(seq!['*', '.'] + suffix, label + seq!['.'] + suffix),
{
    let p = lower(seq!['*', '.'] + suffix);
    assert(p =~= seq!['*', '.'] + lower(suffix));
    assert(p != seq!['*']) by {
        assert(p.len() >= 2);
    }
    let h = lower(label + seq!['.'] + suffix);
    assert(h =~= lower(label) + seq!['.'] + lower(suffix));
    assert(h.skip(h.len() - p.skip(1).len()) =~= p.skip(1));
}

/// Without full network access no raw connection is permitted, to whatever host.
pub proof fn http_access_permits_no_raw_connection(net: NetAccess, host: Seq<char>)
    requires
        !(net is OutboundFull),
    ensures
        !raw_connection_permitted(net, host),
{
}

/// An entry without a star admits exactly the host that it names, whatever the case of letters; `*`
/// admits every host; and `*.suffix` exactly the hosts that end in a dot and the suffix.
pub proof fn entries_admit_what_they_name(pattern: Seq<char>, suffix: Seq<char>, host: Seq<char>)
    ensures
        pattern.len() == 0 || pattern[0] != '*' ==> (pattern_admits(pattern, host) <==> lower(
            pattern,
        ) == lower(host)),
        pattern_admits(seq!['*'], host),
        pattern_admits(seq!['*', '.'] + suffix, host) <==> host.len() > suffix.len() && lower(
            host,
        ).skip(host.len() - suffix.len() - 1) == seq!['.'] + lower(suffix),
{
    let p = lower(pattern);
    if pattern.len() > 0 && pattern[0] != '*' {
        assert(p[0] != '*');
        assert(p != seq!['*']);
    }
    if pattern.len() == 0 {
        assert(p.len() == 0);
        assert(p != seq!['*']);
    }
    assert(lower(seq!['*']) =~= seq!['*']);
    let w = lower(seq!['*', '.'] + suffix);
    assert(w =~= seq!['*', '.'] + lower(suffix));
    assert(w.skip(1) =~= seq!['.'] + lower(suffix));
    assert(w.len() >= 2);
    assert(w != seq!['*']);
}

/// A list admits a host exactly where one of its entries does, and the empty list every host.
pub proof fn lists_admit_what_an_entry_admits(allow: Seq<Seq<char>>, host: Seq<char>, i: int)
    ensures
        allow.len() == 0 ==> list_admits(allow, host),
        0 <= i < allow.len() && pattern_admits(allow[i], host) ==> list_admits(allow, host),
        allow.len() > 0 && (forall|k: int|
            0 <= k < allow.len() ==> !pattern_admits(#[trigger] allow[k], host)) ==> !list_admits(
            allow,
            host,
        ),
{
}

/// Raw connections are permitted with full access to the network alone: to every host where no list is
/// given, and otherwise to those that the list admits.
pub proof fn raw_connections_need_full_access(hosts: Option<Vec<String>>, host: Seq<char>)
    ensures
        !raw_connection_permitted(NetAccess::Denied, host),
        !raw_connection_permitted(NetAccess::OutboundHttp(hosts), host),
        hosts is None ==> raw_connection_permitted(NetAccess::OutboundFull(hosts), host),
        hosts matches Some(allow) ==> (raw_connection_permitted(
            NetAccess::OutboundFull(hosts),
            host,
        ) <==> list_admits(texts(allow@), host)),
{
}

} // verus!
