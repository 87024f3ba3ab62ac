//! Decisions of a pool of daemon runtimes that share the requests of one server.
//!
//! Every shard runs on a thread of its own, with its own guest. The pool says how many shards are
//! started, what their start adds up to, and which shard gets a request; each shard says in which
//! order its loop looks for events. Threads, channels and guests are the caller's.
use vstd::prelude::*;

use crate::bytes::{bytes_of, slice_of};
use crate::daemon_http::{DaemonHttp, ReplyEnvelope};
use crate::error::{AfterburnerError, ErrorView};
use crate::json::{json_object, members, object_with_text, put, Json, JsonView};
use crate::text::{decimal, push_u64};

verus! {

/// How many requests may wait for one shard.
pub const DEFAULT_SHARD_QUEUE_DEPTH: usize = 256;

/// How many shards a pool may have; the engine holds no more instances at once.
pub const MAX_SHARDS: usize = 128;

/// Nanoseconds that an idle shard sleeps at most.
pub const MAX_SLEEP_NANOS: u128 = 5_000_000;

/// What a shard that started reports.
#[derive(Debug, Clone)]
pub struct InitResult {
    pub shard_idx: usize,
    pub has_refs: bool,
    pub stdout: Vec<u8>,
    pub stderr: Vec<u8>,
}

/// What a shard that did not start reports.
#[derive(Debug)]
pub struct InitFailure {
    pub shard_idx: usize,
    pub error: AfterburnerError,
    pub stdout: Vec<u8>,
    pub stderr: Vec<u8>,
}

/// What a shard reports of its start.
#[derive(Debug)]
pub enum InitOutcome {
    Started(InitResult),
    Failed(InitFailure),
}

/// The text that refuses a pool of `n` shards.
pub open spec fn too_many_text(n: int) -> Seq<char> {
    "shard_count must be ≤ "@ + decimal(MAX_SHARDS as int) + " (got "@ + decimal(n) + ")"@
}

/// Checks how many shards are asked for.
pub fn check_shard_count(n: usize) -> (r: Result<(), AfterburnerError>)
    ensures
        r is Ok <==> 1 <= n <= MAX_SHARDS,
        n < 1 ==> (r matches Err(e) && e@ == ErrorView::Engine("shard_count must be ≥ 1"@)),
        n > MAX_SHARDS ==> (r matches Err(e) && e@ == ErrorView::Engine(too_many_text(n as int))),
{
    if n < 1 {
        return Err(AfterburnerError::Engine("shard_count must be ≥ 1".to_owned()));
    }
    if n > MAX_SHARDS {
        let mut m = "shard_count must be ≤ ".to_owned();
        push_u64(&mut m, MAX_SHARDS as u64);
        m.append(" (got ");
        push_u64(&mut m, n as u64);
        m.append(")");
        return Err(AfterburnerError::Engine(m));
    }
    Ok(())
}

/// How many requests may wait for one shard, where the caller may ask for another number.
pub fn queue_depth(asked: Option<usize>) -> (r: usize)
    ensures
        r == (match asked {
            Some(n) => n,
            None => DEFAULT_SHARD_QUEUE_DEPTH,
        }),
{
    match asked {
        Some(n) => n,
        None => DEFAULT_SHARD_QUEUE_DEPTH,
    }
}

/// How many shards a pool comes to run.
pub open spec fn pool_size(
    first_started: bool,
    shard_count: usize,
    only_for_listener: bool,
    listeners: usize,
) -> usize {
    if first_started && (!only_for_listener || listeners > 0) {
        shard_count
    } else {
        1
    }
}

/// How many shards run in the end, once the first has reported. Only a server with an HTTP listener
/// is worth more than one: what any other script does at its start would be done once per shard.
pub fn shards_to_run(
    first_started: bool,
    shard_count: usize,
    only_for_listener: bool,
    listeners: usize,
) -> (r: usize)
    requires
        1 <= shard_count,
    ensures
        r == pool_size(first_started, shard_count, only_for_listener, listeners),
        r == (if first_started && (!only_for_listener || listeners > 0) {
            shard_count
        } else {
            1
        }),
{
    if first_started && shard_count > 1 && (!only_for_listener || listeners > 0) {
        shard_count
    } else {
        1
    }
}

/// Whether results come in the order of their shards.
pub open spec fn in_shard_order(s: Seq<InitResult>) -> bool {
    forall|i: int, j: int| 0 <= i <= j < s.len() ==> s[i].shard_idx <= s[j].shard_idx
}

/// What shard `k` reported, in the order of the reports.
pub open spec fn reports_of(s: Seq<InitResult>, k: usize) -> Seq<InitResult> {
    s.filter(|r: InitResult| r.shard_idx == k)
}

proof fn lemma_reports_add(a: Seq<InitResult>, b: Seq<InitResult>, k: usize)
    ensures
        reports_of(a + b, k) == reports_of(a, k) + reports_of(b, k),
{
    Seq::filter_distributes_over_add(a, b, |r: InitResult| r.shard_idx == k);
}

proof fn lemma_reports_one(x: InitResult, k: usize)
    ensures
        reports_of(seq![x], k) == (if x.shard_idx == k {
            seq![x]
        } else {
            Seq::empty()
        }),
{
    reveal_with_fuel(Seq::filter, 2);
    assert(seq![x].drop_last() =~= Seq::empty());
    assert(seq![x].drop_last().filter(|r: InitResult| r.shard_idx == k) =~= Seq::empty());
    assert(reports_of(seq![x], k) =~= (if x.shard_idx == k {
        seq![x]
    } else {
        Seq::empty()
    }));
}

proof fn lemma_no_reports(s: Seq<InitResult>, k: usize)
    requires
        forall|i: int| 0 <= i < s.len() ==> (#[trigger] s[i]).shard_idx != k,
    ensures
        reports_of(s, k) == Seq::<InitResult>::empty(),
    decreases s.len(),
{
    reveal_with_fuel(Seq::filter, 2);
    if s.len() > 0 {
        assert forall|i: int| 0 <= i < s.drop_last().len() implies (#[trigger]
        s.drop_last()[i]).shard_idx != k by {
            assert(s.drop_last()[i] == s[i]);
        }
        lemma_no_reports(s.drop_last(), k);
        assert(s.last() == s[s.len() - 1]);
    }
    assert(reports_of(s, k) =~= Seq::<InitResult>::empty());
}

proof fn lemma_insert_reports(s: Seq<InitResult>, x: InitResult, at: int, k: usize)
    requires
        0 <= at <= s.len(),
        forall|i: int| at <= i < s.len() ==> (#[trigger] s[i]).shard_idx > x.shard_idx,
    ensures
        reports_of(s.insert(at, x), k) == reports_of(s.push(x), k),
{
    let a = s.take(at);
    let b = s.skip(at);
    assert(s =~= a + b);
    assert(s.insert(at, x) =~= a + seq![x] + b);
    assert(s.push(x) =~= a + b + seq![x]);
    lemma_reports_add(a + seq![x], b, k);
    lemma_reports_add(a, seq![x], k);
    lemma_reports_add(a + b, seq![x], k);
    lemma_reports_add(a, b, k);
    lemma_reports_one(x, k);
    if x.shard_idx == k {
        assert forall|i: int| 0 <= i < b.len() implies (#[trigger] b[i]).shard_idx != k by {
            assert(b[i] == s[at + i]);
        }
        lemma_no_reports(b, k);
    }
    assert(reports_of(s.insert(at, x), k) =~= reports_of(s.push(x), k));
}

/// Puts results into the order of their shards; those of one shard keep the order in which they
/// came.
pub fn sort_by_shard(results: Vec<InitResult>) -> (r: Vec<InitResult>)
    ensures
        in_shard_order(r@),
        r@.len() == results@.len(),
        forall|k: usize| #[trigger] reports_of(r@, k) == reports_of(results@, k),
{
    let ghost whole = results@;
    let mut left = results;
    let mut reversed: Vec<InitResult> = Vec::new();
    while left.len() > 0
        invariant
            left@.len() + reversed@.len() == whole.len(),
            left@ == whole.take(left@.len() as int),
            forall|i: int|
                0 <= i < reversed@.len() ==> #[trigger] reversed@[i] == whole[whole.len() - 1 - i],
        decreases left@.len(),
    {
        let ghost before = left@;
        match left.pop() {
            Some(x) => {
                assert(x == whole[before.len() - 1]);
                assert(left@ =~= whole.take(left@.len() as int));
                reversed.push(x);
            },
            None => {},
        }
    }
    let mut out: Vec<InitResult> = Vec::new();
    assert(whole.take(0) =~= out@);
    while reversed.len() > 0
        invariant
            out@.len() + reversed@.len() == whole.len(),
            in_shard_order(out@),
            forall|i: int|
                0 <= i < reversed@.len() ==> #[trigger] reversed@[i] == whole[whole.len() - 1 - i],
            forall|k: usize| #[trigger]
                reports_of(out@, k) == reports_of(whole.take(out@.len() as int), k),
        decreases reversed@.len(),
    {
        let ghost done = out@;
        let ghost waiting = reversed@;
        match reversed.pop() {
            Some(x) => {
                assert(x == waiting[waiting.len() - 1]);
                assert(x == whole[done.len() as int]);
                let mut at: usize = out.len();
                while at > 0 && out[at - 1].shard_idx > x.shard_idx
                    invariant
                        at <= out@.len(),
                        out@ == done,
                        in_shard_order(done),
                        forall|i: int|
                            at <= i < done.len() ==> (#[trigger] done[i]).shard_idx > x.shard_idx,
                    decreases at,
                {
                    at -= 1;
                }
                proof {
                    assert forall|k: usize| #[trigger]
                        reports_of(done.insert(at as int, x), k) == reports_of(
                            whole.take(done.len() as int + 1),
                            k,
                        ) by {
                        lemma_insert_reports(done, x, at as int, k);
                        let t = whole.take(done.len() as int);
                        assert(whole.take(done.len() as int + 1) =~= t + seq![x]);
                        assert(done.push(x) =~= done + seq![x]);
                        assert(reports_of(done, k) == reports_of(t, k));
                        lemma_reports_add(done, seq![x], k);
                        lemma_reports_add(t, seq![x], k);
                    }
                }
                out.insert(at, x);
                assert(in_shard_order(out@)) by {
                    assert forall|i: int, j: int| 0 <= i <= j < out@.len() implies out@[i].shard_idx
                        <= out@[j].shard_idx by {
                        if at > 0 {
                            assert(done[at - 1].shard_idx <= x.shard_idx);
                        }
                        if i < at {
                            assert(out@[i] == done[i]);
                            if at > 0 {
                                assert(done[i].shard_idx <= done[at - 1].shard_idx);
                            }
                        } else if i > at {
                            assert(out@[i] == done[i - 1]);
                        }
                        if j < at {
                            assert(out@[j] == done[j]);
                        } else if j > at {
                            assert(out@[j] == done[j - 1]);
                            assert(done[j - 1].shard_idx > x.shard_idx);
                        }
                    }
                }
            },
            None => {},
        }
    }
    assert(whole.take(out@.len() as int) =~= whole);
    out
}

/// What the shards have reported of their start.
pub struct PoolInit {
    results: Vec<InitResult>,
    first_failure: Option<InitFailure>,
}

impl PoolInit {
    /// The shards that started, as they reported.
    pub closed spec fn started(&self) -> Seq<InitResult> {
        self.results@
    }

    /// The first report of a failure.
    pub closed spec fn failure(&self) -> Option<InitFailure> {
        self.first_failure
    }

    /// Before the first report.
    pub fn new() -> (r: Self)
        ensures
            r.started() == Seq::<InitResult>::empty(),
            r.failure() is None,
    {
        PoolInit { results: Vec::new(), first_failure: None }
    }

    /// Whether no shard has failed so far.
    pub fn all_started(&self) -> (r: bool)
        ensures
            r == (self.failure() is None),
    {
        self.first_failure.is_none()
    }

    /// Takes a report. The first failure is kept; of a later one only the shard is handed back.
    pub fn record(&mut self, outcome: InitOutcome) -> (r: Option<usize>)
        ensures
            match outcome {
                InitOutcome::Started(result) => r is None && final(self).started() == old(
                    self,
                ).started().push(result) && final(self).failure() == old(self).failure(),
                InitOutcome::Failed(failure) => final(self).started() == old(self).started()
                    && if old(self).failure() is None {
                    r is None && final(self).failure() == Some(failure)
                } else {
                    r == Some(failure.shard_idx) && final(self).failure() == old(self).failure()
                },
            },
    {
        match outcome {
            InitOutcome::Started(result) => {
                self.results.push(result);
                None
            },
            InitOutcome::Failed(failure) => {
                if self.first_failure.is_none() {
                    self.first_failure = Some(failure);
                    None
                } else {
                    Some(failure.shard_idx)
                }
            },
        }
    }

    /// What the start adds up to: the reports in the order of the shards, or the first failure.
    pub fn finish(self) -> (r: Result<Vec<InitResult>, InitFailure>)
        ensures
            match self.failure() {
                Some(f) => r == Err::<Vec<InitResult>, InitFailure>(f),
                None => r matches Ok(v) && in_shard_order(v@) && v@.len() == self.started().len()
                    && forall|k: usize| #[trigger]
                    reports_of(v@, k) == reports_of(self.started(), k),
            },
    {
        match self.first_failure {
            Some(f) => Err(f),
            None => Ok(sort_by_shard(self.results)),
        }
    }
}

/// Whether what a failed shard wrote to its error stream is shown: an exit that the script asked for
/// is no failure to explain.
pub fn shows_stderr(error: &AfterburnerError) -> (r: bool)
    ensures
        r == !(error is ProcessExit),
{
    match error {
        AfterburnerError::ProcessExit(_) => false,
        _ => true,
    }
}

/// The error of a pool whose shard `shard_idx` failed with `error`, which prints as `text`.
pub fn init_error(shard_idx: usize, error: AfterburnerError, text: &str) -> (r: AfterburnerError)
    ensures
        r@ == (match error@ {
            ErrorView::ProcessExit(code) => ErrorView::ProcessExit(code),
            _ => ErrorView::Engine("shard "@ + decimal(shard_idx as int) + " init: "@ + text@),
        }),
{
    match error {
        AfterburnerError::ProcessExit(code) => AfterburnerError::ProcessExit(code),
        _ => {
            let mut m = "shard ".to_owned();
            push_u64(&mut m, shard_idx as u64);
            m.append(" init: ");
            m.append(text);
            AfterburnerError::Engine(m)
        },
    }
}

/// How many of the first `n` flags are set.
pub open spec fn set_flags(flags: Seq<bool>, n: int) -> nat
    decreases n,
{
    if n <= 0 {
        0
    } else {
        set_flags(flags, n - 1) + if flags[n - 1] {
            1nat
        } else {
            0nat
        }
    }
}

/// What the pool knows of its shards.
pub struct DaemonShardPool {
    /// Which shards run.
    pub alive: Vec<bool>,
    /// Which shards have something that keeps them alive.
    pub refs: Vec<bool>,
    /// How many requests each shard has taken.
    pub handled: Vec<usize>,
    /// Reports of the start, in the order of the shards.
    pub results: Vec<InitResult>,
}

impl DaemonShardPool {
    /// Whether every list has one entry per shard.
    pub open spec fn wf(&self) -> bool {
        &&& self.alive@.len() == self.refs@.len()
        &&& self.alive@.len() == self.handled@.len()
        &&& in_shard_order(self.results@)
    }

    /// How many shards there are.
    pub fn shard_count(&self) -> (r: usize)
        ensures
            r == self.alive@.len(),
    {
        self.alive.len()
    }

    /// How many shards run.
    pub fn shards_alive(&self) -> (r: usize)
        ensures
            r == set_flags(self.alive@, self.alive@.len() as int),
    {
        let mut n: usize = 0;
        let mut i: usize = 0;
        while i < self.alive.len()
            invariant
                i <= self.alive@.len(),
                n <= i,
                n == set_flags(self.alive@, i as int),
            decreases self.alive@.len() - i,
        {
            if self.alive[i] {
                n += 1;
            }
            i += 1;
        }
        n
    }

    /// Whether anything keeps any shard alive.
    pub fn any_has_refs(&self) -> (r: bool)
        ensures
            r == exists|i: int| 0 <= i < self.refs@.len() && #[trigger] self.refs@[i],
    {
        let mut i: usize = 0;
        while i < self.refs.len()
            invariant
                i <= self.refs@.len(),
                forall|j: int| 0 <= j < i ==> !#[trigger] self.refs@[j],
            decreases self.refs@.len() - i,
        {
            if self.refs[i] {
                assert(self.refs@[i as int]);
                return true;
            }
            i += 1;
        }
        false
    }

    /// What the shards reported of their start, in the order of the shards.
    pub fn init_results(&self) -> (r: &Vec<InitResult>)
        ensures
            r == self.results,
    {
        &self.results
    }

    /// How many requests each shard has taken.
    pub fn request_counts(&self) -> (r: &Vec<usize>)
        ensures
            r == self.handled,
    {
        &self.handled
    }
}

/// The shard that stands `offset` places behind `start` in a ring of `n`.
pub open spec fn ring(start: int, offset: int, n: int) -> int {
    (start + offset) % n
}

/// Whether `idx` is the first shard that runs, in the ring from `start` on.
pub open spec fn is_first_running(alive: Seq<bool>, start: int, idx: int) -> bool {
    exists|k: int|
        0 <= k < alive.len() && idx == #[trigger] ring(start, k, alive.len() as int) && alive[idx]
            && forall|j: int|
            0 <= j < k ==> !alive[#[trigger] ring(start, j, alive.len() as int)]
}

/// How far the search for a shard that takes one request has come.
#[derive(Debug, Clone, Copy)]
pub struct Route {
    pub start: usize,
    pub offset: usize,
}

/// What to do next with a request.
#[derive(Debug, Clone, Copy)]
pub enum RouteStep {
    /// Offer it to this shard; if it has no room, ask again.
    Offer(usize),
    /// No shard took it: wait until this one, which runs, has room.
    Wait(usize),
    /// No shard runs.
    Discard,
}

/// Which shard the next request is offered to first.
pub struct Dispatcher {
    next: usize,
}

impl Dispatcher {
    /// How many requests have been routed, up to wrapping.
    pub closed spec fn routed(&self) -> usize {
        self.next
    }

    /// Before the first request.
    pub fn new() -> (r: Self)
        ensures
            r.routed() == 0,
    {
        Dispatcher { next: 0 }
    }

    /// Begins to route a request over `n` shards.
    pub fn begin(&mut self, n: usize) -> (r: Route)
        requires
            n > 0,
        ensures
            r.start == old(self).routed() as int % n as int,
            r.offset == 0,
            final(self).routed() == (if old(self).routed() == usize::MAX {
                0
            } else {
                (old(self).routed() + 1) as usize
            }),
    {
        let start: usize = self.next % n;
        self.next = if self.next == usize::MAX {
            0
        } else {
            self.next + 1
        };
        Route { start, offset: 0 }
    }
}

impl Route {
    /// Goes on to the next shard that runs; where none is left, back to the first that does. A
    /// request is discarded only where no shard runs.
    pub fn step(&mut self, alive: &Vec<bool>) -> (r: RouteStep)
        requires
            old(self).start < alive@.len(),
            old(self).offset <= alive@.len(),
        ensures
            final(self).start == old(self).start,
            old(self).offset <= final(self).offset <= alive@.len(),
            match r {
                RouteStep::Offer(idx) => {
                    &&& old(self).offset < final(self).offset
                    &&& idx == ring(
                        old(self).start as int,
                        final(self).offset - 1,
                        alive@.len() as int,
                    )
                    &&& idx < alive@.len()
                    &&& alive@[idx as int]
                    &&& forall|k: int|
                        old(self).offset <= k < final(self).offset - 1 ==> !alive@[#[trigger] ring(
                            old(self).start as int,
                            k,
                            alive@.len() as int,
                        )]
                },
                _ => {
                    &&& final(self).offset == alive@.len()
                    &&& forall|k: int|
                        old(self).offset <= k < alive@.len() ==> !alive@[#[trigger] ring(
                            old(self).start as int,
                            k,
                            alive@.len() as int,
                        )]
                    &&& match r {
                        RouteStep::Wait(idx) => is_first_running(
                            alive@,
                            old(self).start as int,
                            idx as int,
                        ),
                        _ => forall|i: int| 0 <= i < alive@.len() ==> !#[trigger] alive@[i],
                    }
                },
            },
    {
        let n: usize = alive.len();
        let start: usize = self.start;
        let ghost first = self.offset as int;
        while self.offset < n
            invariant
                n == alive@.len(),
                start < n,
                self.start == start,
                start == old(self).start,
                first == old(self).offset,
                first <= self.offset <= n,
                forall|k: int|
                    first <= k < self.offset ==> !alive@[#[trigger] ring(
                        start as int,
                        k,
                        n as int,
                    )],
            decreases n - self.offset,
        {
            let offset: usize = self.offset;
            let idx: usize = if offset < n - start {
                start + offset
            } else {
                offset - (n - start)
            };
            proof {
                lemma_ring(start as int, offset as int, n as int);
            }
            self.offset = offset + 1;
            if alive[idx] {
                return RouteStep::Offer(idx);
            }
        }
        let mut again: usize = 0;
        while again < n
            invariant
                n == alive@.len(),
                start < n,
                start == old(self).start,
                self.start == start,
                self.offset == n,
                old(self).offset <= n,
                again <= n,
                forall|k: int|
                    0 <= k < again ==> !alive@[#[trigger] ring(start as int, k, n as int)],
                forall|k: int|
                    old(self).offset <= k < n ==> !alive@[#[trigger] ring(
                        start as int,
                        k,
                        n as int,
                    )],
            decreases n - again,
        {
            let idx: usize = if again < n - start {
                start + again
            } else {
                again - (n - start)
            };
            proof {
                lemma_ring(start as int, again as int, n as int);
            }
            if alive[idx] {
                assert(idx == ring(start as int, again as int, n as int));
                return RouteStep::Wait(idx);
            }
            again += 1;
        }
        proof {
            assert forall|i: int| 0 <= i < n implies !#[trigger] alive@[i] by {
                let k = if i >= start {
                    i - start
                } else {
                    i + n - start
                };
                lemma_ring(start as int, k, n as int);
                assert(ring(start as int, k, n as int) == i);
            }
        }
        RouteStep::Discard
    }
}

proof fn lemma_ring(start: int, offset: int, n: int)
    requires
        0 <= start < n,
        0 <= offset < n,
    ensures
        ring(start, offset, n) == (if start + offset < n {
            start + offset
        } else {
            start + offset - n
        }),
{
    if start + offset < n {
        vstd::arithmetic::div_mod::lemma_small_mod((start + offset) as nat, n as nat);
    } else {
        vstd::arithmetic::div_mod::lemma_mod_sub_multiples_vanish(start + offset, n);
        vstd::arithmetic::div_mod::lemma_small_mod((start + offset - n) as nat, n as nat);
    }
}

/// A request is offered to every shard at most once: different places of the ring are different
/// shards.
pub proof fn no_shard_is_offered_twice(start: int, a: int, b: int, n: int)
    requires
        0 <= start < n,
        0 <= a < b < n,
    ensures
        ring(start, a, n) != ring(start, b, n),
        0 <= ring(start, a, n) < n,
{
    lemma_ring(start, a, n);
    lemma_ring(start, b, n);
}

/// As many requests as there are shards, one after the other, are offered first to that many
/// different shards.
pub proof fn requests_go_round(routed: int, a: int, b: int, n: int)
    requires
        0 <= routed,
        0 <= a < b < n,
    ensures
        (routed + a) % n != (routed + b) % n,
{
    let s = routed % n;
    vstd::arithmetic::div_mod::lemma_mod_bound(routed, n);
    vstd::arithmetic::div_mod::lemma_add_mod_noop(routed, a, n);
    vstd::arithmetic::div_mod::lemma_add_mod_noop(routed, b, n);
    vstd::arithmetic::div_mod::lemma_small_mod(a as nat, n as nat);
    vstd::arithmetic::div_mod::lemma_small_mod(b as nat, n as nat);
    no_shard_is_offered_twice(s, a, b, n);
}

/// How much of a stream has been shown.
pub struct StreamMark {
    shown: usize,
}

/// What of `data` is new behind the mark.
pub open spec fn fresh_part(data: Seq<u8>, mark: int) -> Seq<u8> {
    if data.len() > mark {
        data.skip(mark)
    } else {
        Seq::empty()
    }
}

/// The mark once `data` has been shown.
pub open spec fn moved_mark(data: Seq<u8>, mark: int) -> int {
    if data.len() > mark {
        data.len() as int
    } else {
        mark
    }
}

impl StreamMark {
    /// How many bytes have been shown.
    pub closed spec fn at(&self) -> int {
        self.shown as int
    }

    /// A stream of which the first `shown` bytes count as shown.
    pub fn new(shown: usize) -> (r: Self)
        ensures
            r.at() == shown,
    {
        StreamMark { shown }
    }

    /// What to show of a stream that holds `data` by now.
    pub fn fresh(&mut self, data: &Vec<u8>) -> (r: Vec<u8>)
        ensures
            r@ == fresh_part(data@, old(self).at()),
            final(self).at() == moved_mark(data@, old(self).at()),
    {
        if data.len() > self.shown {
            let out = slice_of(data, self.shown, data.len());
            assert(out@ =~= data@.skip(self.shown as int));
            self.shown = data.len();
            out
        } else {
            Vec::new()
        }
    }
}

/// No byte of a stream that only grows is shown twice or left out: what was shown first and what is
/// shown then is what was new in all.
pub proof fn bytes_are_shown_once(mark: int, data: Seq<u8>, more: Seq<u8>)
    requires
        0 <= mark,
    ensures
        fresh_part(data, mark) + fresh_part(data + more, moved_mark(data, mark)) == fresh_part(
            data + more,
            mark,
        ),
{
    assert(fresh_part(data, mark) + fresh_part(data + more, moved_mark(data, mark)) =~= fresh_part(
        data + more,
        mark,
    ));
}

/// Where a shard's loop looks for events, in this order.
#[derive(Debug, Clone, Copy, PartialEq, Eq, Structural)]
pub enum Source {
    Http,
    Timer,
    Worker,
    Net,
    HttpResponse,
    Tls,
    Dgram,
}

/// The place of a source in the order.
pub open spec fn place(s: Source) -> int {
    match s {
        Source::Http => 0,
        Source::Timer => 1,
        Source::Worker => 2,
        Source::Net => 3,
        Source::HttpResponse => 4,
        Source::Tls => 5,
        Source::Dgram => 6,
    }
}

/// How often one turn of the loop looks at a source: all timers that are due come at once.
pub open spec fn batch_of(s: Source) -> u32 {
    match s {
        Source::Http => 32,
        Source::Timer => 1,
        _ => 256,
    }
}

/// The source behind `s`.
pub open spec fn source_after(s: Source) -> Option<Source> {
    match s {
        Source::Http => Some(Source::Timer),
        Source::Timer => Some(Source::Worker),
        Source::Worker => Some(Source::Net),
        Source::Net => Some(Source::HttpResponse),
        Source::HttpResponse => Some(Source::Tls),
        Source::Tls => Some(Source::Dgram),
        Source::Dgram => None,
    }
}

/// How often one turn of the loop looks at a source.
pub fn batch(s: Source) -> (r: u32)
    ensures
        r == batch_of(s),
{
    match s {
        Source::Http => 32,
        Source::Timer => 1,
        _ => 256,
    }
}

/// The source behind `s`.
pub fn next_source(s: Source) -> (r: Option<Source>)
    ensures
        r == source_after(s),
{
    match s {
        Source::Http => Some(Source::Timer),
        Source::Timer => Some(Source::Worker),
        Source::Worker => Some(Source::Net),
        Source::Net => Some(Source::HttpResponse),
        Source::HttpResponse => Some(Source::Tls),
        Source::Tls => Some(Source::Dgram),
        Source::Dgram => None,
    }
}

/// One turn of a shard's loop.
#[derive(Debug, Clone, Copy)]
pub struct Turn {
    /// Where to look next.
    pub source: Source,
    /// How often that source was looked at in this turn.
    pub looked: u32,
    /// Whether anything was found in this turn.
    pub did_work: bool,
}

/// What the loop does next.
#[derive(Debug, Clone, Copy)]
pub enum LoopStep {
    /// Look at the source of this turn; hand what is there to the guest, and say whether it was
    /// anything.
    Look(Turn),
    /// Begin a new turn, after a sleep where nothing was found.
    Over(bool),
}

/// The turn once its source was looked at.
pub open spec fn looked(t: Turn, found: bool) -> LoopStep {
    let did_work = t.did_work || found;
    if found && t.looked + 1 < batch_of(t.source) {
        LoopStep::Look(Turn { source: t.source, looked: (t.looked + 1) as u32, did_work })
    } else {
        match source_after(t.source) {
            Some(s) => LoopStep::Look(Turn { source: s, looked: 0, did_work }),
            None => LoopStep::Over(!did_work),
        }
    }
}

impl Turn {
    /// Whether its source was looked at less often than a turn allows.
    pub open spec fn wf(self) -> bool {
        self.looked < batch_of(self.source)
    }

    /// Begins a turn; `None` where the loop ends: the pool shuts down, or nothing keeps the shard
    /// alive.
    pub fn begin(shutdown: bool, has_refs: bool) -> (r: Option<Turn>)
        ensures
            r is None <==> shutdown || !has_refs,
            r matches Some(t) ==> t.wf() && t == (Turn {
                source: Source::Http,
                looked: 0,
                did_work: false,
            }),
    {
        if shutdown || !has_refs {
            return None;
        }
        Some(Turn { source: Source::Http, looked: 0, did_work: false })
    }

    /// Goes on once the source was looked at.
    pub fn looked_at(self, found: bool) -> (r: LoopStep)
        requires
            self.wf(),
        ensures
            r == looked(self, found),
            r matches LoopStep::Look(t) ==> t.wf(),
    {
        let did_work = self.did_work || found;
        if found && self.looked + 1 < batch(self.source) {
            return LoopStep::Look(
                Turn { source: self.source, looked: self.looked + 1, did_work },
            );
        }
        match next_source(self.source) {
            Some(s) => LoopStep::Look(Turn { source: s, looked: 0, did_work }),
            None => LoopStep::Over(!did_work),
        }
    }
}

/// How often a turn still looks anywhere, at most.
pub open spec fn looks_left(t: Turn) -> int {
    (6 - place(t.source)) * 256 + batch_of(t.source) - t.looked
}

/// A busy source holds up no other: with every look a turn comes closer to its end, whatever is
/// found, and a turn sleeps only if it found nothing.
pub proof fn turns_end(t: Turn, found: bool)
    requires
        t.wf(),
    ensures
        looks_left(t) > 0,
        looked(t, found) matches LoopStep::Look(next) ==> next.wf() && looks_left(next)
            < looks_left(t) && next.did_work == (t.did_work || found),
        looked(t, found) matches LoopStep::Over(idle) ==> idle == !(t.did_work || found),
{
}

/// Nanoseconds that an idle shard sleeps at `now`, where the next timer is due at `deadline`, if any is.
pub open spec fn sleep_of(deadline: Option<u128>, now: u128) -> u128 {
    match deadline {
        Some(d) => if d <= now {
            0
        } else if d - now <= MAX_SLEEP_NANOS {
            (d - now) as u128
        } else {
            MAX_SLEEP_NANOS
        },
        None => MAX_SLEEP_NANOS,
    }
}

/// Nanoseconds that an idle shard sleeps, where its next timer is due at `deadline`.
pub fn idle_nanos(deadline: Option<u128>, now: u128) -> (r: u128)
    ensures
        r == sleep_of(deadline, now),
        r == (match deadline {
            Some(d) => if d <= now {
                0
            } else if d - now <= MAX_SLEEP_NANOS {
                (d - now) as u128
            } else {
                MAX_SLEEP_NANOS
            },
            None => MAX_SLEEP_NANOS,
        }),
{
    match deadline {
        Some(d) => if d <= now {
            0
        } else if d - now <= MAX_SLEEP_NANOS {
            d - now
        } else {
            MAX_SLEEP_NANOS
        },
        None => MAX_SLEEP_NANOS,
    }
}

/// The envelope for a timer that is due.
pub fn timer_envelope(timer_id: i32) -> (r: Json)
    ensures
        r@ == JsonView::Object(
            seq![
                ("kind"@, JsonView::Text("timer-fire"@)),
                ("timer_id"@, JsonView::Int(timer_id as i64)),
            ],
        ),
{
    let mut o = object_with_text("kind", "timer-fire");
    put(&mut o, "timer_id", Json::Int(timer_id as i64));
    assert(members(o@) =~= seq![
        ("kind"@, JsonView::Text("timer-fire"@)),
        ("timer_id"@, JsonView::Int(timer_id as i64)),
    ]);
    json_object(o)
}

/// How handing an event to the guest ended.
pub enum DispatchOutcome {
    Done,
    Failed(AfterburnerError),
    Panicked,
}

/// What to do after an event was handed to the guest.
#[derive(Debug, Clone, Copy, PartialEq, Eq, Structural)]
pub enum AfterDispatch {
    /// Nothing.
    Carry,
    /// Show what was written, and end the process with this code.
    Exit(i32),
    /// Log the failure; where the event was a request, answer it in the guest's stead.
    Report(Option<i64>),
}

/// What to do after an event was handed to the guest; `request` is the id of the request, where the
/// event was one.
pub fn after_dispatch(outcome: &DispatchOutcome, request: Option<i64>) -> (r: AfterDispatch)
    ensures
        r == (match *outcome {
            DispatchOutcome::Done => AfterDispatch::Carry,
            DispatchOutcome::Failed(AfterburnerError::ProcessExit(code)) => AfterDispatch::Exit(
                code,
            ),
            _ => AfterDispatch::Report(request),
        }),
{
    match outcome {
        DispatchOutcome::Done => AfterDispatch::Carry,
        DispatchOutcome::Failed(AfterburnerError::ProcessExit(code)) => AfterDispatch::Exit(*code),
        _ => AfterDispatch::Report(request),
    }
}

/// Answers a request in the guest's stead: the reply to hand to the connection, or nothing where the
/// guest has replied already.
pub fn cancel_pending_reply(http: &mut DaemonHttp, req_id: i64) -> (r: Option<ReplyEnvelope>)
    ensures
        final(http)@ == old(http)@.replied(req_id),
        r is Some <==> old(http)@.pending.contains_key(req_id),
        r matches Some(reply) ==> reply.status == 500 && reply.headers@.len() == 0 && reply.body@
            == vstd::utf8::encode_utf8("burn: shard dispatch failed"@),
{
    let reply = ReplyEnvelope {
        status: 500,
        headers: Vec::new(),
        body: bytes_of("burn: shard dispatch failed"),
    };
    http.deliver_reply(req_id, reply)
}

/// The shards of a ring follow each other, and the first follows the last.
pub proof fn ring_goes_round(start: int, offset: int, n: int)
    requires
        0 <= start < n,
        0 <= offset < n,
    ensures
        start + offset < n ==> ring(start, offset, n) == start + offset,
        start + offset >= n ==> ring(start, offset, n) == start + offset - n,
{
    lemma_ring(start, offset, n);
}

/// As many shards run as there are flags set: setting one more counts one more.
pub proof fn running_shards_are_counted(flags: Seq<bool>, n: int)
    requires
        0 <= n <= flags.len(),
    ensures
        set_flags(flags, n) == flags.take(n).filter(|b: bool| b).len(),
    decreases n,
{
    reveal(Seq::filter);
    if n > 0 {
        running_shards_are_counted(flags, n - 1);
        assert(flags.take(n).drop_last() =~= flags.take(n - 1));
        assert(flags.take(n).last() == flags[n - 1]);
    } else {
        assert(flags.take(0).filter(|b: bool| b).len() == 0);
    }
}

/// What is shown of a stream is what came behind what was shown before, and then all of it was shown.
pub proof fn new_bytes_are_shown(data: Seq<u8>, mark: int)
    requires
        0 <= mark,
    ensures
        mark <= data.len() ==> fresh_part(data, mark) == data.skip(mark) && moved_mark(data, mark)
            == data.len(),
        mark > data.len() ==> fresh_part(data, mark).len() == 0 && moved_mark(data, mark) == mark,
{
    if mark == data.len() {
        assert(data.skip(mark) =~= Seq::empty());
    }
}

/// A turn looks at every source: at a source that has something, up to 32 times for requests, once for
/// timers and up to 256 times for the others, and then at the next; and a turn in which nothing was
/// found ends idle.
pub proof fn turn_looks_at_every_source(t: Turn)
    requires
        t.wf(),
    ensures
        t.source is Http ==> batch_of(t.source) == 32,
        t.source is Timer ==> batch_of(t.source) == 1,
        !(t.source is Http) && !(t.source is Timer) ==> batch_of(t.source) == 256,
        t.looked + 1 < batch_of(t.source) ==> looked(t, true) == LoopStep::Look(
            Turn { source: t.source, looked: (t.looked + 1) as u32, did_work: true },
        ),
        t.looked + 1 == batch_of(t.source) ==> !(looked(t, true) matches LoopStep::Look(next)
            && next.source == t.source),
        t.source is Http ==> looked(t, false) == LoopStep::Look(
            Turn { source: Source::Timer, looked: 0, did_work: t.did_work },
        ),
        t.source is Timer ==> looked(t, false) == LoopStep::Look(
            Turn { source: Source::Worker, looked: 0, did_work: t.did_work },
        ),
        t.source is Worker ==> looked(t, false) == LoopStep::Look(
            Turn { source: Source::Net, looked: 0, did_work: t.did_work },
        ),
        t.source is Net ==> looked(t, false) == LoopStep::Look(
            Turn { source: Source::HttpResponse, looked: 0, did_work: t.did_work },
        ),
        t.source is HttpResponse ==> looked(t, false) == LoopStep::Look(
            Turn { source: Source::Tls, looked: 0, did_work: t.did_work },
        ),
        t.source is Tls ==> looked(t, false) == LoopStep::Look(
            Turn { source: Source::Dgram, looked: 0, did_work: t.did_work },
        ),
        t.source is Dgram ==> looked(t, false) == LoopStep::Over(!t.did_work),
{
}

/// The limits of a pool.
pub proof fn pool_has_its_limits()
    ensures
        DEFAULT_SHARD_QUEUE_DEPTH == 256,
        MAX_SHARDS == 128,
        MAX_SLEEP_NANOS == 5000000,
{
}

/// An idle shard never sleeps past its next timer, nor longer than five milliseconds; and it sleeps as
/// long as both permit.
pub proof fn idle_shard_wakes_for_its_timer(deadline: Option<u128>, now: u128)
    ensures
        sleep_of(deadline, now) <= 5000000,
        deadline matches Some(d) ==> (now <= d ==> now + sleep_of(deadline, now) <= d),
        deadline matches Some(d) ==> (d <= now ==> sleep_of(deadline, now) == 0),
        deadline is None ==> sleep_of(deadline, now) == 5000000,
        deadline matches Some(d) ==> (sleep_of(deadline, now) < 5000000 && now <= d ==> now + sleep_of(
            deadline,
            now,
        ) == d),
{
}

/// A pool runs as many shards as were asked for where the first one started and listens for HTTP, or
/// need not; otherwise it runs the first alone.
pub proof fn pool_grows_for_listeners(asked: usize, listeners: usize, only: bool)
    ensures
        pool_size(false, asked, only, listeners) == 1,
        pool_size(true, asked, true, 0) == 1,
        listeners > 0 ==> pool_size(true, asked, only, listeners) == asked,
        pool_size(true, asked, false, listeners) == asked,
{
}

/// A request that no shard took waits for one that runs, and for the one that was to take it where
/// that one runs.
pub proof fn waiting_requests_have_a_shard(alive: Seq<bool>, start: int, idx: int)
    requires
        0 <= start < alive.len(),
        is_first_running(alive, start, idx),
    ensures
        0 <= idx < alive.len(),
        alive[idx],
        alive[start] ==> idx == start,
{
    let n = alive.len() as int;
    let k = choose|k: int|
        0 <= k < n && idx == #[trigger] ring(start, k, n) && alive[idx] && forall|j: int|
            0 <= j < k ==> !alive[#[trigger] ring(start, j, n)];
    lemma_ring(start, k, n);
    lemma_ring(start, 0, n);
    assert(ring(start, 0, n) == start);
}

} // verus!
