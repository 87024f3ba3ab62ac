//! A manifold as command-line flags.
//!
//! A worker process gets its manifold through flags: the parent renders its own, and the child
//! parses them. No flag at all stands for the open manifold; otherwise the flags start from the
//! sealed one and grant what follows. The file flag grants reading and writing, the network flag
//! every kind of connection. What the flags cannot say is left out, so a child may get less than
//! its parent has and never gets more.
use vstd::prelude::*;

use crate::manifold::{
    list_admits, open_shaped, pattern_admits, EnvAccess, FsAccess, Manifold, NetAccess,
};
use crate::text::{chars_of, join, joined, lower, pieces, pieces_undo_joining, texts};

verus! {

/// Whether the entries of a list can be told apart in a flag: none of them holds a comma.
pub open spec fn separable(v: Seq<Seq<char>>) -> bool {
    forall|i: int| 0 <= i < v.len() ==> !(#[trigger] v[i]).contains(',')
}

/// Whether `v` is the list of `*` alone, which in a flag would mean everything.
pub open spec fn lone_star(v: Seq<Seq<char>>) -> bool {
    v.len() == 1 && v[0] == seq!['*']
}

/// `*` for the empty list, and otherwise its entries with commas between them.
pub open spec fn list_or_star(v: Seq<String>) -> Seq<char> {
    if v.len() == 0 {
        seq!['*']
    } else {
        joined(texts(v), ","@, v.len() as int)
    }
}

/// The value of the file flag, if one is due. The flag cannot say that files are only read, and it
/// cannot name a root that holds a comma nor a root `*`.
pub open spec fn fs_value(fs: FsAccess) -> Option<Seq<char>> {
    match fs {
        FsAccess::Denied => None,
        FsAccess::ReadOnly(_) => None,
        FsAccess::ReadWrite(roots) => if separable(texts(roots@)) && !lone_star(texts(roots@)) {
            Some(list_or_star(roots@))
        } else {
            None
        },
    }
}

/// The value of the network flag, if one is due. The flag cannot say that only HTTP requests are
/// made, and it cannot name a host that holds a comma.
pub open spec fn net_value(net: NetAccess) -> Option<Seq<char>> {
    match net {
        NetAccess::Denied => None,
        NetAccess::OutboundHttp(_) => None,
        NetAccess::OutboundFull(None) => Some(seq!['*']),
        NetAccess::OutboundFull(Some(hosts)) => if separable(texts(hosts@)) {
            Some(list_or_star(hosts@))
        } else {
            None
        },
    }
}

/// The value of the environment flag, if one is due. An empty list grants nothing, so no flag is;
/// and the flag cannot name a variable that holds a comma nor a variable `*`.
pub open spec fn env_value(env: EnvAccess) -> Option<Seq<char>> {
    match env {
        EnvAccess::Denied => None,
        EnvAccess::Full => Some(seq!['*']),
        EnvAccess::AllowList(keys) => if keys@.len() > 0 && separable(texts(keys@)) && !lone_star(
            texts(keys@),
        ) {
            Some(list_or_star(keys@))
        } else {
            None
        },
    }
}

/// The value of the network flag for a manifold. No flag says how long a request may take, so the
/// network is withheld where the manifold sets a limit.
pub open spec fn timed_net_value(m: Manifold) -> Option<Seq<char>> {
    if m.http_timeout_ms is None {
        net_value(m.net)
    } else {
        None
    }
}

/// The flag `name` with `value`, or nothing where there is no value.
pub open spec fn flag(name: Seq<char>, value: Option<Seq<char>>) -> Seq<Seq<char>> {
    match value {
        Some(v) => seq![name + v],
        None => Seq::empty(),
    }
}

/// The flags for a manifold.
pub open spec fn cli_args(m: Manifold) -> Seq<Seq<char>> {
    if open_shaped(m) {
        Seq::empty()
    } else {
        seq!["--sandbox"@] + flag("--allow-fs="@, fs_value(m.fs)) + flag(
            "--allow-net="@,
            timed_net_value(m),
        ) + flag("--allow-env="@, env_value(m.env))
    }
}

fn star() -> (r: String)
    ensures
        r@ == seq!['*'],
{
    let mut s = String::new();
    s.push('*');
    assert(s@ =~= seq!['*']);
    s
}

fn star_or_join(v: &Vec<String>) -> (r: String)
    ensures
        r@ == list_or_star(v@),
{
    if v.len() == 0 {
        star()
    } else {
        join_paths(v)
    }
}

/// The entries of `roots` with commas between them.
pub fn join_paths(roots: &Vec<String>) -> (r: String)
    ensures
        r@ == joined(texts(roots@), ","@, roots@.len() as int),
{
    join(roots, ",")
}

fn holds_comma(s: &str) -> (r: bool)
    ensures
        r == s@.contains(','),
{
    let chars = chars_of(s);
    let mut i: usize = 0;
    while i < chars.len()
        invariant
            i <= chars@.len(),
            chars@ == s@,
            forall|j: int| 0 <= j < i ==> s@[j] != ',',
        decreases chars@.len() - i,
    {
        if chars[i] == ',' {
            assert(s@[i as int] == ',');
            return true;
        }
        i += 1;
    }
    false
}

fn is_separable(v: &Vec<String>) -> (r: bool)
    ensures
        r == separable(texts(v@)),
{
    let ghost all = texts(v@);
    let mut i: usize = 0;
    while i < v.len()
        invariant
            i <= v@.len(),
            all == texts(v@),
            forall|j: int| 0 <= j < i ==> !(#[trigger] all[j]).contains(','),
        decreases v@.len() - i,
    {
        let found = holds_comma(&v[i]);
        assert(all[i as int] == v@[i as int]@);
        if found {
            return false;
        }
        i += 1;
    }
    true
}

fn is_lone_star(v: &Vec<String>) -> (r: bool)
    ensures
        r == lone_star(texts(v@)),
{
    if v.len() != 1 {
        return false;
    }
    let chars = chars_of(&v[0]);
    assert(texts(v@)[0] == chars@);
    assert(chars@.len() == 1 && chars@[0] == '*' <==> chars@ =~= seq!['*']);
    chars.len() == 1 && chars[0] == '*'
}

fn is_open(m: &Manifold) -> (r: bool)
    ensures
        r == open_shaped(*m),
{
    let fs_open = match &m.fs {
        FsAccess::ReadWrite(roots) => roots.len() == 0,
        _ => false,
    };
    let net_open = match &m.net {
        NetAccess::OutboundFull(hosts) => hosts.is_none(),
        _ => false,
    };
    let env_open = matches!(m.env, EnvAccess::Full);
    fs_open && net_open && env_open && m.crypto && m.child_process && m.allow_exit
        && m.http_timeout_ms.is_none()
}

spec fn seen(v: Option<String>) -> Option<Seq<char>> {
    match v {
        Some(s) => Some(s@),
        None => None,
    }
}

fn encode_fs(fs: &FsAccess) -> (r: Option<String>)
    ensures
        seen(r) == fs_value(*fs),
{
    match fs {
        FsAccess::Denied => None,
        FsAccess::ReadOnly(_) => None,
        FsAccess::ReadWrite(roots) => if is_separable(roots) && !is_lone_star(roots) {
            Some(star_or_join(roots))
        } else {
            None
        },
    }
}

fn encode_net(net: &NetAccess) -> (r: Option<String>)
    ensures
        seen(r) == net_value(*net),
{
    match net {
        NetAccess::Denied => None,
        NetAccess::OutboundHttp(_) => None,
        NetAccess::OutboundFull(None) => Some(star()),
        NetAccess::OutboundFull(Some(hosts)) => if is_separable(hosts) {
            Some(star_or_join(hosts))
        } else {
            None
        },
    }
}

fn encode_env(env: &EnvAccess) -> (r: Option<String>)
    ensures
        seen(r) == env_value(*env),
{
    match env {
        EnvAccess::Denied => None,
        EnvAccess::Full => Some(star()),
        EnvAccess::AllowList(keys) => if keys.len() > 0 && is_separable(keys) && !is_lone_star(
            keys,
        ) {
            Some(star_or_join(keys))
        } else {
            None
        },
    }
}

fn push_flag(out: &mut Vec<String>, name: &str, value: Option<String>)
    ensures
        texts(final(out)@) == texts(old(out)@) + flag(name@, seen(value)),
{
    if let Some(v) = value {
        let mut s = name.to_owned();
        s.append(&v);
        out.push(s);
    }
    assert(texts(out@) =~= texts(old(out)@) + flag(name@, seen(value)));
}

/// The flags that stand for `m`, in a fixed order.
pub fn manifold_to_cli_args(m: &Manifold) -> (r: Vec<String>)
    ensures
        texts(r@) == cli_args(*m),
{
    let mut out: Vec<String> = Vec::new();
    if is_open(m) {
        assert(texts(out@) =~= cli_args(*m));
        return out;
    }
    out.push("--sandbox".to_owned());
    assert(texts(out@) =~= seq!["--sandbox"@]);
    push_flag(&mut out, "--allow-fs=", encode_fs(&m.fs));
    let net = if m.http_timeout_ms.is_none() {
        encode_net(&m.net)
    } else {
        None
    };
    push_flag(&mut out, "--allow-net=", net);
    push_flag(&mut out, "--allow-env=", encode_env(&m.env));
    out
}

/// Only the open manifold is rendered as no flag; every other starts from the sandbox.
pub proof fn only_open_renders_empty(m: Manifold)
    ensures
        cli_args(m).len() == 0 <==> open_shaped(m),
        !open_shaped(m) ==> cli_args(m)[0] == "--sandbox"@,
{
}

/// A capability that the manifold withholds gets no flag, nor does one that is granted in a form
/// which the flags cannot express.
pub proof fn withheld_capability_gets_no_flag(m: Manifold)
    requires
        !open_shaped(m),
    ensures
        !(m.fs is ReadWrite) ==> fs_value(m.fs) is None,
        !(m.net is OutboundFull) ==> timed_net_value(m) is None,
        m.http_timeout_ms is Some ==> timed_net_value(m) is None,
        m.env is Denied ==> env_value(m.env) is None,
        m.env matches EnvAccess::AllowList(keys) && keys@.len() == 0 ==> env_value(m.env) is None,
        !(m.fs is ReadWrite) && !(m.net is OutboundFull) && m.env is Denied ==> cli_args(m)
            == seq!["--sandbox"@],
{
    if !(m.fs is ReadWrite) && !(m.net is OutboundFull) && m.env is Denied {
        assert(cli_args(m) =~= seq!["--sandbox"@]);
    }
}

/// What a capability extends to.
pub enum Extent {
    Nothing,
    Everything,
    /// What these entries name.
    Listed(Seq<Seq<char>>),
}

/// What a process may reach.
pub struct Reach {
    /// The files that it may read.
    pub reads: Extent,
    /// The files that it may write.
    pub writes: Extent,
    /// The hosts to which it may make HTTP requests.
    pub http: Extent,
    /// The hosts to which it may make other connections.
    pub raw: Extent,
    /// The environment variables that it may read.
    pub variables: Extent,
    pub crypto: bool,
    pub child_process: bool,
    pub allow_exit: bool,
    pub http_timeout_ms: Option<u64>,
}

/// What a list extends to of which the empty one means everything.
pub open spec fn list_extent(v: Seq<String>) -> Extent {
    if v.len() == 0 {
        Extent::Everything
    } else {
        Extent::Listed(texts(v))
    }
}

/// The hosts that an optional list extends to.
pub open spec fn hosts_extent(hosts: Option<Vec<String>>) -> Extent {
    match hosts {
        None => Extent::Everything,
        Some(v) => list_extent(v@),
    }
}

/// What a manifold lets a process reach.
pub open spec fn reach_of(m: Manifold) -> Reach {
    Reach {
        reads: match m.fs {
            FsAccess::Denied => Extent::Nothing,
            FsAccess::ReadOnly(roots) => list_extent(roots@),
            FsAccess::ReadWrite(roots) => list_extent(roots@),
        },
        writes: match m.fs {
            FsAccess::ReadWrite(roots) => list_extent(roots@),
            _ => Extent::Nothing,
        },
        http: match m.net {
            NetAccess::Denied => Extent::Nothing,
            NetAccess::OutboundHttp(hosts) => hosts_extent(hosts),
            NetAccess::OutboundFull(hosts) => hosts_extent(hosts),
        },
        raw: match m.net {
            NetAccess::OutboundFull(hosts) => hosts_extent(hosts),
            _ => Extent::Nothing,
        },
        variables: match m.env {
            EnvAccess::Denied => Extent::Nothing,
            EnvAccess::Full => Extent::Everything,
            EnvAccess::AllowList(keys) => if keys@.len() == 0 {
                Extent::Nothing
            } else {
                Extent::Listed(texts(keys@))
            },
        },
        crypto: m.crypto,
        child_process: m.child_process,
        allow_exit: m.allow_exit,
        http_timeout_ms: m.http_timeout_ms,
    }
}

/// The value of the first flag `name` among `args`, if it is there.
pub open spec fn value_of(args: Seq<Seq<char>>, name: Seq<char>) -> Option<Seq<char>>
    decreases args.len(),
{
    if args.len() == 0 {
        None
    } else if name.is_prefix_of(args[0]) {
        Some(args[0].skip(name.len() as int))
    } else {
        value_of(args.skip(1), name)
    }
}

/// What a flag with this value grants: everything for `*`, and otherwise what lies between its
/// commas.
pub open spec fn flag_extent(value: Option<Seq<char>>) -> Extent {
    match value {
        None => Extent::Nothing,
        Some(v) => if v == seq!['*'] {
            Extent::Everything
        } else {
            Extent::Listed(pieces(v, ',', 0))
        },
    }
}

/// What a child that is started with `args` may reach.
pub open spec fn child_reach(args: Seq<Seq<char>>) -> Reach {
    if args.len() == 0 {
        Reach {
            reads: Extent::Everything,
            writes: Extent::Everything,
            http: Extent::Everything,
            raw: Extent::Everything,
            variables: Extent::Everything,
            crypto: true,
            child_process: true,
            allow_exit: true,
            http_timeout_ms: None,
        }
    } else {
        let files = flag_extent(value_of(args, "--allow-fs="@));
        let hosts = flag_extent(value_of(args, "--allow-net="@));
        Reach {
            reads: files,
            writes: files,
            http: hosts,
            raw: hosts,
            variables: flag_extent(value_of(args, "--allow-env="@)),
            crypto: false,
            child_process: false,
            allow_exit: false,
            http_timeout_ms: None,
        }
    }
}

/// Whether `a` names nothing that `b` does not.
pub open spec fn extent_within(a: Extent, b: Extent) -> bool {
    match (a, b) {
        (Extent::Nothing, _) => true,
        (_, Extent::Everything) => true,
        (Extent::Listed(x), Extent::Listed(y)) => forall|i: int|
            0 <= i < x.len() ==> y.contains(#[trigger] x[i]),
        _ => false,
    }
}

/// Whether `e` admits `host`.
pub open spec fn host_within(e: Extent, host: Seq<char>) -> bool {
    match e {
        Extent::Nothing => false,
        Extent::Everything => true,
        Extent::Listed(v) => list_admits(v, host),
    }
}

/// Whether `a` admits no host that `b` does not.
pub open spec fn hosts_within(a: Extent, b: Extent) -> bool {
    forall|host: Seq<char>| #[trigger] host_within(a, host) ==> host_within(b, host)
}

/// Whether whatever makes HTTP requests as `a` permits them takes no longer than `b` permits.
pub open spec fn timeout_within(a: Reach, b: Reach) -> bool {
    a.http is Nothing || match (a.http_timeout_ms, b.http_timeout_ms) {
        (_, None) => true,
        (None, Some(_)) => false,
        (Some(x), Some(y)) => x <= y,
    }
}

/// Whether `a` permits nothing that `b` does not.
pub open spec fn reach_within(a: Reach, b: Reach) -> bool {
    &&& extent_within(a.reads, b.reads)
    &&& extent_within(a.writes, b.writes)
    &&& hosts_within(a.http, b.http)
    &&& hosts_within(a.raw, b.raw)
    &&& extent_within(a.variables, b.variables)
    &&& a.crypto ==> b.crypto
    &&& a.child_process ==> b.child_process
    &&& a.allow_exit ==> b.allow_exit
    &&& timeout_within(a, b)
}

proof fn lemma_list_reads_back(v: Seq<String>)
    requires
        v.len() > 0,
        separable(texts(v)),
        !lone_star(texts(v)),
    ensures
        flag_extent(Some(list_or_star(v))) == Extent::Listed(texts(v)),
{
    reveal_strlit(",");
    assert(","@ =~= seq![',']);
    let n = v.len() as int;
    pieces_undo_joining(texts(v), ',', n);
    assert(texts(v).take(n) =~= texts(v));
    if joined(texts(v), ","@, n) == seq!['*'] {
        if n > 1 {
            let before = joined(texts(v), ","@, n - 1);
            assert(joined(texts(v), ","@, n)[before.len() as int] == ',');
        }
    }
}

proof fn lemma_value_of_sum(a: Seq<Seq<char>>, b: Seq<Seq<char>>, name: Seq<char>)
    ensures
        value_of(a + b, name) == if value_of(a, name) is Some {
            value_of(a, name)
        } else {
            value_of(b, name)
        },
    decreases a.len(),
{
    if a.len() == 0 {
        assert(a + b =~= b);
    } else {
        assert((a + b).skip(1) =~= a.skip(1) + b);
        lemma_value_of_sum(a.skip(1), b, name);
    }
}

proof fn lemma_value_of_flag(given: Seq<char>, value: Option<Seq<char>>, name: Seq<char>)
    requires
        given == name || (exists|i: int|
            0 <= i < given.len() && i < name.len() && #[trigger] given[i] != name[i]),
    ensures
        value_of(flag(given, value), name) == if given == name {
            value
        } else {
            None
        },
{
    if let Some(v) = value {
        let args = flag(given, value);
        assert(args.skip(1).len() == 0);
        if given == name {
            assert(name.is_prefix_of(args[0]));
            assert(args[0].skip(name.len() as int) =~= v);
        } else {
            let i = choose|i: int|
                0 <= i < given.len() && i < name.len() && #[trigger] given[i] != name[i];
            assert(args[0][i] == given[i]);
            if name.is_prefix_of(args[0]) {
                assert(args[0].subrange(0, name.len() as int)[i] == name[i]);
            }
            assert(value_of(args.skip(1), name) is None);
        }
    }
}

proof fn lemma_flags_found(m: Manifold)
    requires
        !open_shaped(m),
    ensures
        value_of(cli_args(m), "--allow-fs="@) == fs_value(m.fs),
        value_of(cli_args(m), "--allow-net="@) == timed_net_value(m),
        value_of(cli_args(m), "--allow-env="@) == env_value(m.env),
{
    reveal_strlit("--sandbox");
    reveal_strlit("--allow-fs=");
    reveal_strlit("--allow-net=");
    reveal_strlit("--allow-env=");
    let sandbox = "--sandbox"@;
    let fs = "--allow-fs="@;
    let net = "--allow-net="@;
    let env = "--allow-env="@;
    let a = flag(sandbox, Some(Seq::empty()));
    let b = flag(fs, fs_value(m.fs));
    let c = flag(net, timed_net_value(m));
    let d = flag(env, env_value(m.env));
    assert(sandbox + Seq::<char>::empty() =~= sandbox);
    assert(cli_args(m) == a + b + c + d);
    assert(sandbox[2] == 's' && fs[2] == 'a' && net[2] == 'a' && env[2] == 'a');
    assert(fs[8] == 'f' && net[8] == 'n' && env[8] == 'e');
    assert forall|name: Seq<char>|
        name == fs || name == net || name == env implies #[trigger] value_of(cli_args(m), name)
        == if name == fs {
        fs_value(m.fs)
    } else if name == net {
        timed_net_value(m)
    } else {
        env_value(m.env)
    } by {
        assert(sandbox[2] != name[2]);
        lemma_value_of_flag(sandbox, Some(Seq::empty()), name);
        assert(fs == name || fs[8] != name[8]);
        lemma_value_of_flag(fs, fs_value(m.fs), name);
        assert(net == name || net[8] != name[8]);
        lemma_value_of_flag(net, timed_net_value(m), name);
        assert(env == name || env[8] != name[8]);
        lemma_value_of_flag(env, env_value(m.env), name);
        lemma_value_of_sum(a + b + c, d, name);
        lemma_value_of_sum(a + b, c, name);
        lemma_value_of_sum(a, b, name);
    }
}

/// What the file flag of `fs` grants: exactly the roots, or nothing.
proof fn lemma_fs_flag(fs: FsAccess)
    ensures
        fs_value(fs) is Some ==> (fs matches FsAccess::ReadWrite(roots) && flag_extent(fs_value(fs))
            == list_extent(roots@)),
{
    if let FsAccess::ReadWrite(roots) = fs {
        if roots@.len() > 0 && separable(texts(roots@)) && !lone_star(texts(roots@)) {
            lemma_list_reads_back(roots@);
        }
    }
}

proof fn lemma_net_flag(net: NetAccess, host: Seq<char>)
    ensures
        net_value(net) is Some ==> (net matches NetAccess::OutboundFull(hosts) && host_within(
            flag_extent(net_value(net)),
            host,
        ) == host_within(hosts_extent(hosts), host)),
{
    if let NetAccess::OutboundFull(Some(hosts)) = net {
        if hosts@.len() > 0 && separable(texts(hosts@)) {
            if lone_star(texts(hosts@)) {
                let p = texts(hosts@)[0];
                assert(lower(p) =~= seq!['*']);
                assert(pattern_admits(p, host));
                assert(list_or_star(hosts@) == seq!['*']);
            } else {
                lemma_list_reads_back(hosts@);
            }
        }
    }
}

proof fn lemma_env_flag(env: EnvAccess)
    ensures
        env is Full ==> flag_extent(env_value(env)) is Everything,
        env matches EnvAccess::AllowList(keys) ==> env_value(env) is Some ==> keys@.len() > 0
            && flag_extent(env_value(env)) == Extent::Listed(texts(keys@)),
{
    if let EnvAccess::AllowList(keys) = env {
        if keys@.len() > 0 && separable(texts(keys@)) && !lone_star(texts(keys@)) {
            lemma_list_reads_back(keys@);
        }
    }
}

/// The flags never widen what a process may reach: whatever the manifold, a child that is started
/// with its flags may reach nothing that the manifold does not permit.
pub proof fn flags_never_widen(m: Manifold)
    ensures
        reach_within(child_reach(cli_args(m)), reach_of(m)),
{
    if !open_shaped(m) {
        lemma_flags_found(m);
        lemma_fs_flag(m.fs);
        lemma_env_flag(m.env);
        let child = child_reach(cli_args(m));
        let own = reach_of(m);
        assert forall|host: Seq<char>| #[trigger] host_within(child.raw, host) implies host_within(
            own.raw,
            host,
        ) && host_within(own.http, host) by {
            lemma_net_flag(m.net, host);
        }
        if m.env is AllowList && env_value(m.env) is Some {
            let keys = m.env->AllowList_0;
            assert forall|i: int| 0 <= i < texts(keys@).len() implies texts(keys@).contains(
                #[trigger] texts(keys@)[i],
            ) by {}
        }
    }
}

/// Whether the flags can express a manifold: files are not read-only, connections are not only HTTP
/// requests, no list entry holds a comma, no list is `*` alone, and what no flag governs is as in
/// the sealed manifold.
pub open spec fn expressible(m: Manifold) -> bool {
    &&& m.fs matches FsAccess::ReadWrite(roots) ==> separable(texts(roots@)) && !lone_star(
        texts(roots@),
    )
    &&& !(m.fs is ReadOnly)
    &&& m.net matches NetAccess::OutboundFull(Some(hosts)) ==> separable(texts(hosts@))
        && !lone_star(texts(hosts@))
    &&& !(m.net is OutboundHttp)
    &&& m.env matches EnvAccess::AllowList(keys) ==> separable(texts(keys@)) && !lone_star(
        texts(keys@),
    )
    &&& !m.crypto && !m.child_process && !m.allow_exit && m.http_timeout_ms is None
}

/// A child has exactly what its parent has where the parent's manifold is open or the flags can
/// express it.
pub proof fn flags_read_back(m: Manifold)
    requires
        open_shaped(m) || expressible(m),
    ensures
        child_reach(cli_args(m)) == reach_of(m),
{
    if !open_shaped(m) {
        lemma_flags_found(m);
        lemma_fs_flag(m.fs);
        lemma_env_flag(m.env);
        if let NetAccess::OutboundFull(Some(hosts)) = m.net {
            if hosts@.len() > 0 {
                lemma_list_reads_back(hosts@);
            }
        }
    }
}

/// The unrestricted `*` stands only for files and variables that are granted without restriction.
pub proof fn restricted_list_stays_restricted(fs: FsAccess, env: EnvAccess)
    ensures
        fs_value(fs) == Some(seq!['*']) ==> (fs matches FsAccess::ReadWrite(roots) && roots@.len()
            == 0),
        env_value(env) == Some(seq!['*']) ==> env is Full,
{
    lemma_fs_flag(fs);
    lemma_env_flag(env);
}

/// A manifold that withholds or limits anything at all starts from the sandbox.
pub proof fn any_restriction_is_rendered(m: Manifold)
    requires
        ({
            ||| !m.crypto
            ||| !m.child_process
            ||| !m.allow_exit
            ||| m.http_timeout_ms is Some
            ||| !(m.env is Full)
            ||| !(m.fs is ReadWrite)
            ||| m.fs->ReadWrite_0@.len() > 0
            ||| !(m.net is OutboundFull)
            ||| m.net->OutboundFull_0 is Some
        }),
    ensures
        cli_args(m).len() > 0,
        cli_args(m)[0] == "--sandbox"@,
{
}

/// Files that are granted for reading and writing get their flag: `*` for all of them, and otherwise
/// the roots with commas between them. Files that may only be read get none.
pub proof fn granted_files_get_their_flag(m: Manifold)
    requires
        !m.crypto,
    ensures
        !(m.fs is ReadWrite) ==> value_of(cli_args(m), "--allow-fs="@) is None,
        m.fs matches FsAccess::ReadWrite(roots) ==> {
            let t = texts(roots@);
            let plain = (forall|i: int| 0 <= i < t.len() ==> !(#[trigger] t[i]).contains(',')) && !(
            t.len() == 1 && t[0] == seq!['*']);
            &&& t.len() == 0 ==> value_of(cli_args(m), "--allow-fs="@) == Some(seq!['*'])
            &&& t.len() > 0 && plain ==> value_of(cli_args(m), "--allow-fs="@) == Some(
                joined(t, seq![','], t.len() as int),
            )
            &&& !plain ==> value_of(cli_args(m), "--allow-fs="@) is None
        },
{
    lemma_flags_found(m);
    reveal_strlit(",");
    assert(","@ =~= seq![',']);
}

/// Hosts that are granted for every kind of connection get their flag: `*` for all of them, and
/// otherwise the hosts with commas between them. Hosts for HTTP requests alone get none, nor do any
/// where a request may only take so long.
pub proof fn granted_hosts_get_their_flag(m: Manifold)
    requires
        !m.crypto,
    ensures
        !(m.net is OutboundFull) || m.http_timeout_ms is Some ==> value_of(
            cli_args(m),
            "--allow-net="@,
        ) is None,
        m.http_timeout_ms is None ==> (m.net matches NetAccess::OutboundFull(hosts) ==> {
            &&& hosts is None ==> value_of(cli_args(m), "--allow-net="@) == Some(seq!['*'])
            &&& hosts matches Some(list) ==> {
                let t = texts(list@);
                let plain = forall|i: int| 0 <= i < t.len() ==> !(#[trigger] t[i]).contains(',');
                &&& t.len() == 0 ==> value_of(cli_args(m), "--allow-net="@) == Some(seq!['*'])
                &&& t.len() > 0 && plain ==> value_of(cli_args(m), "--allow-net="@) == Some(
                    joined(t, seq![','], t.len() as int),
                )
                &&& !plain ==> value_of(cli_args(m), "--allow-net="@) is None
            }
        }),
{
    lemma_flags_found(m);
    reveal_strlit(",");
    assert(","@ =~= seq![',']);
}

/// Variables that are granted get their flag: `*` for all of them, and otherwise their names with
/// commas between them; none where none is granted.
pub proof fn granted_variables_get_their_flag(m: Manifold)
    requires
        !m.crypto,
    ensures
        m.env is Denied ==> value_of(cli_args(m), "--allow-env="@) is None,
        m.env is Full ==> value_of(cli_args(m), "--allow-env="@) == Some(seq!['*']),
        m.env matches EnvAccess::AllowList(keys) ==> {
            let t = texts(keys@);
            let plain = (forall|i: int| 0 <= i < t.len() ==> !(#[trigger] t[i]).contains(',')) && !(
            t.len() == 1 && t[0] == seq!['*']);
            &&& t.len() == 0 || !plain ==> value_of(cli_args(m), "--allow-env="@) is None
            &&& t.len() > 0 && plain ==> value_of(cli_args(m), "--allow-env="@) == Some(
                joined(t, seq![','], t.len() as int),
            )
        },
{
    lemma_flags_found(m);
    reveal_strlit(",");
    assert(","@ =~= seq![',']);
}

/// The entries of a list that is joined with commas can be read from it again, each in its place.
pub proof fn joined_entries_are_apart(parts: Seq<Seq<char>>, i: int)
    requires
        0 < i < parts.len(),
    ensures
        joined(parts, seq![','], i + 1) == joined(parts, seq![','], i) + seq![','] + parts[i],
        joined(parts, seq![','], 1) == parts[0],
{
}

} // verus!
