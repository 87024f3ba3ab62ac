//! Timers of a daemon.
//!
//! A script sets timers through the host, which keeps them here. The event loop asks for those that
//! are due, and hands their ids to the script.
use vstd::multiset::Multiset;
use vstd::prelude::*;

use crate::registry::{next_after, next_id};

verus! {

/// A timer.
#[derive(Debug, Clone, Copy, PartialEq, Eq, Structural)]
pub struct TimerSlot {
    pub id: i32,
    /// When it is due, in nanoseconds on the clock of the event loop.
    pub fire_at: u128,
    /// Milliseconds between firings; `None` for a timer that fires once.
    pub interval_ms: Option<u64>,
    /// Whether it keeps the daemon alive.
    pub is_ref: bool,
}

/// The timers of a daemon.
pub struct Timers {
    timers: Vec<TimerSlot>,
    next_timer_id: i32,
}

/// `now` and `ms` milliseconds more.
pub open spec fn later(now: u64, ms: u64) -> u128 {
    (now + ms * 1_000_000) as u128
}

fn later_by(now: u64, ms: u64) -> (r: u128)
    ensures
        r == later(now, ms),
        r == now + ms * 1_000_000,
{
    now as u128 + ms as u128 * 1_000_000
}

/// Whether `t` is due at `now`.
pub open spec fn is_due(t: TimerSlot, now: u64) -> bool {
    t.fire_at <= now
}

/// `t` after it fired at `now`, to fire again.
pub open spec fn rearmed(t: TimerSlot, now: u64) -> TimerSlot {
    TimerSlot { fire_at: later(now, t.interval_ms->0), ..t }
}

/// Milliseconds that a timer for `delay_ms` waits: at least one.
pub open spec fn effective_delay(delay_ms: i32) -> u64 {
    if delay_ms > 0 {
        delay_ms as u64
    } else {
        1
    }
}

/// `s` without the timers that have the id `id`.
pub open spec fn without(s: Seq<TimerSlot>, id: i32) -> Seq<TimerSlot>
    decreases s.len(),
{
    if s.len() == 0 {
        s
    } else if s.last().id == id {
        without(s.drop_last(), id)
    } else {
        without(s.drop_last(), id).push(s.last())
    }
}

/// `s` with the first timer that has the id `id`, from `from` on, set to keep the daemon alive or
/// not.
pub open spec fn with_ref(s: Seq<TimerSlot>, id: i32, is_ref: bool, from: int) -> Seq<TimerSlot>
    decreases s.len() - from,
{
    if from < 0 || from >= s.len() {
        s
    } else if s[from].id == id {
        s.update(from, TimerSlot { is_ref, ..s[from] })
    } else {
        with_ref(s, id, is_ref, from + 1)
    }
}

/// What walking `s` from `i` on at `now` leaves, and the ids that fire on the way. A due timer that
/// repeats is set anew; one that does not gives its place to the last.
pub open spec fn walked(s: Seq<TimerSlot>, i: int, now: u64) -> (Seq<TimerSlot>, Seq<i32>)
    decreases s.len() - i,
{
    if i < 0 || i >= s.len() {
        (s, Seq::empty())
    } else if !is_due(s[i], now) {
        walked(s, i + 1, now)
    } else if s[i].interval_ms is Some {
        let rest = walked(s.update(i, rearmed(s[i], now)), i + 1, now);
        (rest.0, seq![s[i].id] + rest.1)
    } else {
        let rest = walked(s.update(i, s.last()).drop_last(), i, now);
        (rest.0, seq![s[i].id] + rest.1)
    }
}

/// The earliest time at which a timer of `s` is due.
pub open spec fn is_earliest(s: Seq<TimerSlot>, at: Option<u128>) -> bool {
    match at {
        None => s.len() == 0,
        Some(t) => {
            &&& exists|i: int| 0 <= i < s.len() && (#[trigger] s[i]).fire_at == t
            &&& forall|i: int| 0 <= i < s.len() ==> t <= (#[trigger] s[i]).fire_at
        },
    }
}

impl Timers {
    /// The timers that are set.
    pub closed spec fn slots(&self) -> Seq<TimerSlot> {
        self.timers@
    }

    /// The id that the next timer gets.
    pub closed spec fn upcoming(&self) -> i32 {
        self.next_timer_id
    }

    /// No timers; ids start at one.
    pub fn new() -> (r: Self)
        ensures
            r.slots() == Seq::<TimerSlot>::empty(),
            r.upcoming() == 1,
    {
        Timers { timers: Vec::new(), next_timer_id: 1 }
    }

    /// Sets a timer at `now`: its id. Without a daemon there is nobody to fire it, and the answer
    /// is minus one.
    pub fn set(&mut self, daemon: bool, delay_ms: i32, repeat: i32, now: u64) -> (r: i32)
        ensures
            !daemon ==> r == -1 && *final(self) == *old(self),
            daemon ==> {
                &&& r == old(self).upcoming()
                &&& final(self).upcoming() == next_after(old(self).upcoming())
                &&& final(self).slots() == old(self).slots().push(
                    TimerSlot {
                        id: old(self).upcoming(),
                        fire_at: later(now, effective_delay(delay_ms)),
                        interval_ms: if repeat != 0 {
                            Some(effective_delay(delay_ms))
                        } else {
                            None
                        },
                        is_ref: true,
                    },
                )
                &&& delay_ms > 0 ==> final(self).slots().last().fire_at == now + delay_ms
                    * 1_000_000
                &&& delay_ms > 0 && repeat != 0 ==> final(self).slots().last().interval_ms == Some(
                    delay_ms as u64,
                )
                &&& delay_ms <= 0 ==> final(self).slots().last().fire_at == now + 1_000_000
                &&& delay_ms <= 0 && repeat != 0 ==> final(self).slots().last().interval_ms
                    == Some(1u64)
                &&& repeat == 0 ==> final(self).slots().last().interval_ms is None
            },
    {
        if !daemon {
            return -1;
        }
        let delay: u64 = if delay_ms > 0 {
            delay_ms as u64
        } else {
            1
        };
        let id: i32 = self.next_timer_id;
        self.next_timer_id = next_id(id);
        let interval_ms = if repeat != 0 {
            Some(delay)
        } else {
            None
        };
        self.timers.push(
            TimerSlot { id, fire_at: later_by(now, delay), interval_ms, is_ref: true },
        );
        id
    }

    /// Removes the timers that have the id `timer_id`.
    pub fn clear(&mut self, timer_id: i32)
        ensures
            final(self).upcoming() == old(self).upcoming(),
            final(self).slots() == without(old(self).slots(), timer_id),
    {
        let ghost before = self.timers@;
        let mut kept: Vec<TimerSlot> = Vec::new();
        let mut i: usize = 0;
        while i < self.timers.len()
            invariant
                i <= self.timers@.len(),
                self.timers@ == before,
                self.next_timer_id == old(self).next_timer_id,
                kept@ == without(before.take(i as int), timer_id),
            decreases self.timers@.len() - i,
        {
            let t: TimerSlot = self.timers[i];
            assert(before.take(i + 1).drop_last() =~= before.take(i as int));
            assert(before.take(i + 1).last() == t);
            if t.id != timer_id {
                kept.push(t);
            }
            i += 1;
        }
        assert(before.take(i as int) =~= before);
        self.timers = kept;
    }

    fn set_ref(&mut self, timer_id: i32, is_ref: bool)
        ensures
            final(self).upcoming() == old(self).upcoming(),
            final(self).slots() == with_ref(old(self).slots(), timer_id, is_ref, 0),
    {
        let mut i: usize = 0;
        while i < self.timers.len()
            invariant
                i <= self.timers@.len(),
                *self == *old(self),
                with_ref(self.timers@, timer_id, is_ref, 0) == with_ref(
                    self.timers@,
                    timer_id,
                    is_ref,
                    i as int,
                ),
            decreases self.timers@.len() - i,
        {
            let t: TimerSlot = self.timers[i];
            if t.id == timer_id {
                self.timers.set(i, TimerSlot { is_ref, ..t });
                return;
            }
            i += 1;
        }
    }

    /// Lets timer `timer_id` no longer keep the daemon alive.
    pub fn unref(&mut self, timer_id: i32)
        ensures
            final(self).upcoming() == old(self).upcoming(),
            final(self).slots() == with_ref(old(self).slots(), timer_id, false, 0),
    {
        self.set_ref(timer_id, false)
    }

    /// Lets timer `timer_id` keep the daemon alive.
    pub fn hold(&mut self, timer_id: i32)
        ensures
            final(self).upcoming() == old(self).upcoming(),
            final(self).slots() == with_ref(old(self).slots(), timer_id, true, 0),
    {
        self.set_ref(timer_id, true)
    }

    /// Whether a timer keeps the daemon alive.
    pub fn any_ref(&self) -> (r: bool)
        ensures
            r == exists|i: int| 0 <= i < self.slots().len() && (#[trigger] self.slots()[i]).is_ref,
    {
        let mut i: usize = 0;
        while i < self.timers.len()
            invariant
                i <= self.timers@.len(),
                forall|j: int| 0 <= j < i ==> !(#[trigger] self.timers@[j]).is_ref,
            decreases self.timers@.len() - i,
        {
            if self.timers[i].is_ref {
                assert(self.slots()[i as int].is_ref);
                return true;
            }
            i += 1;
        }
        false
    }

    /// Fires the timers that are due at `now`: their ids. Timers that repeat are set anew; the
    /// others are removed.
    pub fn drain_expired_timers(&mut self, now: u64) -> (r: Vec<i32>)
        ensures
            final(self).upcoming() == old(self).upcoming(),
            (final(self).slots(), r@) == walked(old(self).slots(), 0, now),
    {
        let mut fired: Vec<i32> = Vec::new();
        let mut i: usize = 0;
        assert(fired@ + walked(self.timers@, 0, now).1 =~= walked(self.timers@, 0, now).1);
        while i < self.timers.len()
            invariant
                i <= self.timers@.len(),
                self.next_timer_id == old(self).next_timer_id,
                walked(old(self).timers@, 0, now).0 == walked(self.timers@, i as int, now).0,
                walked(old(self).timers@, 0, now).1 == fired@ + walked(
                    self.timers@,
                    i as int,
                    now,
                ).1,
            decreases self.timers@.len() - i,
        {
            let t: TimerSlot = self.timers[i];
            let ghost before = self.timers@;
            let ghost so_far = fired@;
            let ghost rest = walked(before, i as int, now).1;
            if t.fire_at <= now as u128 {
                fired.push(t.id);
                if let Some(interval) = t.interval_ms {
                    self.timers.set(i, TimerSlot { fire_at: later_by(now, interval), ..t });
                    i += 1;
                    proof {
                        let next = walked(self.timers@, i as int, now).1;
                        assert(so_far + (seq![t.id] + next) =~= fired@ + next);
                    }
                } else {
                    self.timers.swap_remove(i);
                    proof {
                        assert(self.timers@ =~= before.update(
                            i as int,
                            before.last(),
                        ).drop_last());
                        let next = walked(self.timers@, i as int, now).1;
                        assert(so_far + (seq![t.id] + next) =~= fired@ + next);
                    }
                }
            } else {
                i += 1;
            }
        }
        assert(fired@ + Seq::<i32>::empty() =~= fired@);
        fired
    }

    /// When the next timer is due, if there is one.
    pub fn next_timer_deadline(&self) -> (r: Option<u128>)
        ensures
            is_earliest(self.slots(), r),
    {
        if self.timers.len() == 0 {
            return None;
        }
        let mut best: u128 = self.timers[0].fire_at;
        let mut i: usize = 1;
        assert(self.timers@[0].fire_at == best);
        while i < self.timers.len()
            invariant
                1 <= i <= self.timers@.len(),
                exists|j: int| 0 <= j < i && (#[trigger] self.timers@[j]).fire_at == best,
                forall|j: int| 0 <= j < i ==> best <= (#[trigger] self.timers@[j]).fire_at,
            decreases self.timers@.len() - i,
        {
            let t: TimerSlot = self.timers[i];
            assert(self.timers@[i as int] == t);
            if t.fire_at < best {
                best = t.fire_at;
            }
            i += 1;
        }
        Some(best)
    }
}

/// The ids of the timers of `s` that are due at `now`.
pub open spec fn due_ids(s: Seq<TimerSlot>, now: u64) -> Multiset<i32>
    decreases s.len(),
{
    if s.len() == 0 {
        Multiset::empty()
    } else {
        let rest = due_ids(s.drop_last(), now);
        if is_due(s.last(), now) {
            rest.insert(s.last().id)
        } else {
            rest
        }
    }
}

/// The timers that are left of `s` at `now`: those that are not due, as they were, and those that
/// repeat, set anew.
pub open spec fn left_over(s: Seq<TimerSlot>, now: u64) -> Multiset<TimerSlot>
    decreases s.len(),
{
    if s.len() == 0 {
        Multiset::empty()
    } else {
        let rest = left_over(s.drop_last(), now);
        if !is_due(s.last(), now) {
            rest.insert(s.last())
        } else if s.last().interval_ms is Some {
            rest.insert(rearmed(s.last(), now))
        } else {
            rest
        }
    }
}

/// What one timer adds to those that are left.
spec fn left_of(t: TimerSlot, now: u64) -> Multiset<TimerSlot> {
    if !is_due(t, now) {
        Multiset::empty().insert(t)
    } else if t.interval_ms is Some {
        Multiset::empty().insert(rearmed(t, now))
    } else {
        Multiset::empty()
    }
}

/// What one timer adds to the ids that fire.
spec fn fired_of(t: TimerSlot, now: u64) -> Multiset<i32> {
    if is_due(t, now) {
        Multiset::empty().insert(t.id)
    } else {
        Multiset::empty()
    }
}

proof fn lemma_first_apart(s: Seq<TimerSlot>, now: u64)
    requires
        s.len() > 0,
    ensures
        due_ids(s, now) == fired_of(s[0], now).add(due_ids(s.drop_first(), now)),
        left_over(s, now) == left_of(s[0], now).add(left_over(s.drop_first(), now)),
    decreases s.len(),
{
    if s.len() == 1 {
        assert(s.drop_last() =~= Seq::empty());
        assert(s.drop_first() =~= Seq::empty());
        assert(due_ids(s, now) =~= fired_of(s[0], now).add(due_ids(s.drop_first(), now)));
        assert(left_over(s, now) =~= left_of(s[0], now).add(left_over(s.drop_first(), now)));
    } else {
        lemma_first_apart(s.drop_last(), now);
        assert(s.drop_first().drop_last() =~= s.drop_last().drop_first());
        assert(s.drop_first().last() == s.last());
        assert(s.drop_last()[0] == s[0]);
        assert(due_ids(s, now) =~= fired_of(s[0], now).add(due_ids(s.drop_first(), now)));
        assert(left_over(s, now) =~= left_of(s[0], now).add(left_over(s.drop_first(), now)));
    }
}

proof fn lemma_walked(s: Seq<TimerSlot>, i: int, now: u64)
    requires
        0 <= i <= s.len(),
    ensures
        walked(s, i, now).1.to_multiset() == due_ids(s.skip(i), now),
        walked(s, i, now).0.to_multiset() == s.take(i).to_multiset().add(
            left_over(s.skip(i), now),
        ),
    decreases s.len() - i,
{
    broadcast use vstd::seq_lib::group_to_multiset_ensures;

    if i >= s.len() {
        assert(s.skip(i) =~= Seq::empty());
        assert(s.take(i) =~= s);
        assert(walked(s, i, now).1.to_multiset() =~= Multiset::empty());
        assert(walked(s, i, now).0.to_multiset() =~= s.take(i).to_multiset().add(
            left_over(s.skip(i), now),
        ));
    } else {
        let here = s.skip(i);
        assert(here[0] == s[i]);
        assert(here.drop_first() =~= s.skip(i + 1));
        lemma_first_apart(here, now);
        if !is_due(s[i], now) {
            lemma_walked(s, i + 1, now);
            assert(s.take(i + 1) =~= s.take(i).push(s[i]));
            assert(walked(s, i, now).1.to_multiset() =~= due_ids(here, now));
            assert(walked(s, i, now).0.to_multiset() =~= s.take(i).to_multiset().add(
                left_over(here, now),
            ));
        } else if s[i].interval_ms is Some {
            let next = s.update(i, rearmed(s[i], now));
            lemma_walked(next, i + 1, now);
            assert(next.skip(i + 1) =~= s.skip(i + 1));
            assert(next.take(i + 1) =~= s.take(i).push(rearmed(s[i], now)));
            lemma_one_ahead(s[i].id, walked(next, i + 1, now).1);
            assert(walked(s, i, now).1.to_multiset() =~= due_ids(here, now));
            assert(walked(s, i, now).0.to_multiset() =~= s.take(i).to_multiset().add(
                left_over(here, now),
            ));
        } else {
            let next = s.update(i, s.last()).drop_last();
            lemma_walked(next, i, now);
            assert(next.take(i) =~= s.take(i));
            lemma_one_ahead(s[i].id, walked(next, i, now).1);
            let tail = s.skip(i + 1);
            if tail.len() == 0 {
                assert(next.skip(i) =~= Seq::empty());
                assert(tail =~= Seq::empty());
            } else {
                lemma_first_apart(next.skip(i), now);
                assert(next.skip(i)[0] == s.last());
                assert(next.skip(i).drop_first() =~= tail.drop_last());
                assert(tail.last() == s.last());
                assert(due_ids(next.skip(i), now) =~= due_ids(tail, now));
                assert(left_over(next.skip(i), now) =~= left_over(tail, now));
            }
            assert(walked(s, i, now).1.to_multiset() =~= due_ids(here, now));
            assert(walked(s, i, now).0.to_multiset() =~= s.take(i).to_multiset().add(
                left_over(here, now),
            ));
        }
    }
}

proof fn lemma_one_ahead(id: i32, rest: Seq<i32>)
    ensures
        (seq![id] + rest).to_multiset() == rest.to_multiset().insert(id),
{
    broadcast use vstd::seq_lib::group_to_multiset_ensures;

    vstd::seq_lib::lemma_seq_union_to_multiset_commutative(seq![id], rest);
    assert(rest + seq![id] =~= rest.push(id));
}

/// Draining fires exactly the timers that are due, each once, and leaves exactly the others and
/// those that repeat.
pub proof fn drain_fires_exactly_the_due(s: Seq<TimerSlot>, now: u64)
    ensures
        walked(s, 0, now).1.to_multiset() == due_ids(s, now),
        walked(s, 0, now).0.to_multiset() == left_over(s, now),
{
    lemma_walked(s, 0, now);
    assert(s.skip(0) =~= s);
    assert(s.take(0) =~= Seq::empty());
    broadcast use vstd::seq_lib::group_to_multiset_ensures;

    assert(s.take(0).to_multiset() =~= Multiset::empty());
    assert(walked(s, 0, now).0.to_multiset() =~= left_over(s, now));
}

proof fn lemma_nothing_due_left(s: Seq<TimerSlot>, i: int, now: u64, k: int)
    requires
        0 <= i <= s.len(),
        forall|j: int|
            0 <= j < s.len() && (#[trigger] s[j]).interval_ms is Some ==> s[j].interval_ms->0 > 0,
        forall|j: int| 0 <= j < i ==> !is_due(#[trigger] s[j], now),
        0 <= k < walked(s, i, now).0.len(),
    ensures
        !is_due(walked(s, i, now).0[k], now),
    decreases s.len() - i,
{
    if i < s.len() {
        if !is_due(s[i], now) {
            lemma_nothing_due_left(s, i + 1, now, k);
        } else if s[i].interval_ms is Some {
            let next = s.update(i, rearmed(s[i], now));
            assert(later(now, s[i].interval_ms->0) == now + s[i].interval_ms->0 * 1_000_000);
            lemma_nothing_due_left(next, i + 1, now, k);
        } else {
            let next = s.update(i, s.last()).drop_last();
            lemma_nothing_due_left(next, i, now, k);
        }
    }
}

/// No timer that is left after draining is still due, where every repeating timer waits at least a
/// millisecond between firings.
pub proof fn drain_leaves_nothing_due(s: Seq<TimerSlot>, now: u64, k: int)
    requires
        forall|j: int|
            0 <= j < s.len() && (#[trigger] s[j]).interval_ms is Some ==> s[j].interval_ms->0 > 0,
        0 <= k < walked(s, 0, now).0.len(),
    ensures
        !is_due(walked(s, 0, now).0[k], now),
{
    lemma_nothing_due_left(s, 0, now, k);
}

/// A timer that was cleared is gone.
pub proof fn cleared_timer_is_gone(s: Seq<TimerSlot>, id: i32, k: int)
    requires
        0 <= k < without(s, id).len(),
    ensures
        without(s, id)[k].id != id,
    decreases s.len(),
{
    if s.len() > 0 {
        if s.last().id == id {
            cleared_timer_is_gone(s.drop_last(), id, k);
        } else if k < without(s.drop_last(), id).len() {
            cleared_timer_is_gone(s.drop_last(), id, k);
        }
    }
}

/// A timer that is set at `now` for `d` milliseconds is due exactly `d` milliseconds later, and at no
/// time before that; it repeats every `d` milliseconds where it repeats. One for no time, or less,
/// waits one millisecond.
pub proof fn timer_waits_its_delay(now: u64, at: u64, d: i32, t: TimerSlot)
    requires
        t.fire_at == later(now, effective_delay(d)),
        t.interval_ms == Some(effective_delay(d)),
    ensures
        d > 0 ==> t.fire_at == now + d * 1_000_000,
        d <= 0 ==> t.fire_at == now + 1_000_000,
        d > 0 ==> t.interval_ms->0 == d,
        d <= 0 ==> t.interval_ms->0 == 1,
        d > 0 ==> (is_due(t, at) <==> at >= now + d * 1_000_000),
        d <= 0 ==> (is_due(t, at) <==> at >= now + 1_000_000),
{
}

/// A timer that repeats is due again one interval after it fired, and is otherwise as it was.
pub proof fn repeating_timer_waits_its_interval(t: TimerSlot, now: u64, ms: u64)
    requires
        t.interval_ms == Some(ms),
    ensures
        rearmed(t, now).fire_at == now + ms * 1_000_000,
        rearmed(t, now).id == t.id,
        rearmed(t, now).interval_ms == Some(ms),
        rearmed(t, now).is_ref == t.is_ref,
{
}

/// Whether `t` is among `s`, due at `now`.
pub open spec fn has_due(s: Seq<TimerSlot>, now: u64, id: i32) -> bool {
    exists|i: int| 0 <= i < s.len() && (#[trigger] s[i]).id == id && s[i].fire_at <= now
}

proof fn lemma_due_ids(s: Seq<TimerSlot>, now: u64, id: i32)
    ensures
        due_ids(s, now).contains(id) <==> has_due(s, now, id),
    decreases s.len(),
{
    if s.len() > 0 {
        let rest = s.drop_last();
        lemma_due_ids(rest, now, id);
        if has_due(rest, now, id) {
            let i = choose|i: int|
                0 <= i < rest.len() && (#[trigger] rest[i]).id == id && rest[i].fire_at <= now;
            assert(s[i] == rest[i]);
        }
        if has_due(s, now, id) {
            let i = choose|i: int|
                0 <= i < s.len() && (#[trigger] s[i]).id == id && s[i].fire_at <= now;
            if i < rest.len() {
                assert(rest[i] == s[i]);
            } else {
                assert(s.last() == s[i]);
            }
        }
        if s.last().fire_at <= now && s.last().id == id {
            assert(s[s.len() - 1].id == id);
        }
    }
}

/// Draining at `now` fires an id exactly where a timer with that id was to fire at `now` or before.
pub proof fn drain_fires_what_is_due(s: Seq<TimerSlot>, now: u64, id: i32)
    ensures
        walked(s, 0, now).1.contains(id) <==> has_due(s, now, id),
{
    drain_fires_exactly_the_due(s, now);
    lemma_due_ids(s, now, id);
    broadcast use vstd::seq_lib::group_to_multiset_ensures;

    assert(walked(s, 0, now).1.contains(id) <==> walked(s, 0, now).1.to_multiset().contains(id));
}

/// Whether `t` is what is left of a timer of `s` at `now`: it was not due, and is as it was; or it
/// fired, repeats, and is due again one interval from `now`.
pub open spec fn is_left_of(s: Seq<TimerSlot>, now: u64, t: TimerSlot) -> bool {
    exists|i: int|
        0 <= i < s.len() && ({
            ||| (#[trigger] s[i]).fire_at > now && t == s[i]
            ||| s[i].fire_at <= now && (s[i].interval_ms matches Some(ms) && t == (TimerSlot {
                fire_at: (now + ms * 1_000_000) as u128,
                ..s[i]
            }))
        })
}

proof fn lemma_left_over(s: Seq<TimerSlot>, now: u64, t: TimerSlot)
    ensures
        left_over(s, now).contains(t) <==> is_left_of(s, now, t),
    decreases s.len(),
{
    if s.len() > 0 {
        let rest = s.drop_last();
        lemma_left_over(rest, now, t);
        assert(forall|i: int| 0 <= i < rest.len() ==> #[trigger] rest[i] == s[i]);
        assert(forall|i: int| 0 <= i < rest.len() ==> #[trigger] s[i] == rest[i]);
        assert(s.last() == s[s.len() - 1]);
    }
}

/// Draining at `now` leaves a timer exactly where it was not yet due, as it was, or where it repeats,
/// to fire again one interval from `now`.
pub proof fn drain_leaves_the_rest(s: Seq<TimerSlot>, now: u64, t: TimerSlot)
    ensures
        walked(s, 0, now).0.contains(t) <==> is_left_of(s, now, t),
{
    drain_fires_exactly_the_due(s, now);
    lemma_left_over(s, now, t);
    broadcast use vstd::seq_lib::group_to_multiset_ensures;

    assert(walked(s, 0, now).0.contains(t) <==> walked(s, 0, now).0.to_multiset().contains(t));
}

/// Clearing a timer takes out exactly the timers with its id and keeps the others in their order.
pub proof fn clearing_keeps_the_others(s: Seq<TimerSlot>, id: i32)
    ensures
        without(s, id) == s.filter(|t: TimerSlot| t.id != id),
    decreases s.len(),
{
    reveal(Seq::filter);
    if s.len() > 0 {
        clearing_keeps_the_others(s.drop_last(), id);
    }
    assert(without(s, id) =~= s.filter(|t: TimerSlot| t.id != id));
}

/// Holding or letting go of a timer changes that timer alone, and of it only whether it keeps the
/// daemon alive.
pub proof fn holding_changes_one_timer(s: Seq<TimerSlot>, id: i32, is_ref: bool, from: int, at: int)
    requires
        0 <= from <= at < s.len(),
        s[at].id == id,
        forall|i: int| from <= i < at ==> (#[trigger] s[i]).id != id,
    ensures
        with_ref(s, id, is_ref, from) == s.update(
            at,
            TimerSlot {
                id: s[at].id,
                fire_at: s[at].fire_at,
                interval_ms: s[at].interval_ms,
                is_ref,
            },
        ),
    decreases at - from,
{
    if from < at {
        holding_changes_one_timer(s, id, is_ref, from + 1, at);
    }
}

/// Holding or letting go of a timer that is not set changes nothing.
pub proof fn holding_a_stranger_changes_nothing(s: Seq<TimerSlot>, id: i32, is_ref: bool, from: int)
    requires
        0 <= from,
        forall|i: int| from <= i < s.len() ==> (#[trigger] s[i]).id != id,
    ensures
        with_ref(s, id, is_ref, from) == s,
    decreases s.len() - from,
{
    if from < s.len() {
        holding_a_stranger_changes_nothing(s, id, is_ref, from + 1);
    }
}

/// A timer that is set for `d` milliseconds is in no drain before they have passed, and in the first
/// one from then on; until then nothing is lost of it.
pub proof fn set_timer_fires_in_time(s: Seq<TimerSlot>, t: TimerSlot, set_at: u64, d: i32, now: u64)
    requires
        d > 0,
        t.fire_at == set_at + d * 1_000_000,
        forall|i: int| 0 <= i < s.len() ==> (#[trigger] s[i]).id != t.id,
    ensures
        walked(s.push(t), 0, now).1.contains(t.id) <==> now >= set_at + d * 1_000_000,
        now < set_at + d * 1_000_000 ==> walked(s.push(t), 0, now).0.contains(t),
{
    let all = s.push(t);
    drain_fires_what_is_due(all, now, t.id);
    drain_leaves_the_rest(all, now, t);
    assert(all[s.len() as int] == t);
    if has_due(all, now, t.id) {
        let i = choose|i: int|
            0 <= i < all.len() && (#[trigger] all[i]).id == t.id && all[i].fire_at <= now;
        if i < s.len() {
            assert(all[i] == s[i]);
        }
    }
}

/// The next deadline is that of a timer, and no timer is due before it; there is none exactly where no
/// timer is set.
pub proof fn deadline_is_the_earliest(s: Seq<TimerSlot>, at: Option<u128>, i: int)
    requires
        is_earliest(s, at),
        0 <= i < s.len(),
    ensures
        at matches Some(t) && t <= s[i].fire_at,
        exists|k: int| 0 <= k < s.len() && (#[trigger] s[k]).fire_at == at->0,
{
}

} // verus!
