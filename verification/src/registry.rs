//! The tables that the coordinators keep their ids in.
//!
//! Ports, servers, connections, sockets, sessions and pending requests are all known by integer
//! ids. Each coordinator keeps what it must remember of them in tables from an id to a number or
//! to a text.
use kovan_map::HopscotchMap;
use vstd::prelude::*;

verus! {

/// A table from ids to numbers, held in the hash map of the `kovan_map` crate.
#[verifier::external_body]
pub struct IdMap {
    inner: HopscotchMap<i64, i128>,
}

/// What a table of numbers holds.
pub uninterp spec fn numbers(m: IdMap) -> Map<i64, i128>;

impl View for IdMap {
    type V = Map<i64, i128>;

    open spec fn view(&self) -> Map<i64, i128> {
        numbers(*self)
    }
}

/// The number that `m` holds under `key`, if any.
pub open spec fn number_at(m: Map<i64, i128>, key: i64) -> Option<i128> {
    if m.contains_key(key) {
        Some(m[key])
    } else {
        None
    }
}

/// The table of numbers that holds nothing.
pub open spec fn no_numbers() -> Map<i64, i128> {
    Map::empty()
}

impl IdMap {
    /// `HopscotchMap::new` gives a map without entries.
    #[verifier::external_body]
    pub(crate) fn new() -> (r: Self)
        ensures
            numbers(r) == no_numbers(),
    {
        IdMap { inner: HopscotchMap::new() }
    }

    /// `HopscotchMap::get` gives the value under a key, or `None` where there is none.
    #[verifier::external_body]
    pub(crate) fn get(&self, key: i64) -> (r: Option<i128>)
        ensures
            r == number_at(numbers(*self), key),
    {
        self.inner.get(&key)
    }

    /// `HopscotchMap::insert` puts a value under a key, in place of the value that was there, and
    /// gives that one back.
    #[verifier::external_body]
    pub(crate) fn insert(&mut self, key: i64, value: i128) -> (r: Option<i128>)
        ensures
            r == number_at(numbers(*old(self)), key),
            numbers(*final(self)) == numbers(*old(self)).insert(key, value),
    {
        self.inner.insert(key, value)
    }

    /// `HopscotchMap::get_or_insert` gives the value under a key and changes nothing where there
    /// is one; otherwise it puts the given value there and gives it back.
    #[verifier::external_body]
    pub(crate) fn get_or_insert(&mut self, key: i64, value: i128) -> (r: i128)
        ensures
            numbers(*old(self)).contains_key(key) ==> r == numbers(*old(self))[key] && numbers(
                *final(self),
            ) == numbers(*old(self)),
            !numbers(*old(self)).contains_key(key) ==> r == value && numbers(*final(self))
                == numbers(*old(self)).insert(key, value),
    {
        self.inner.get_or_insert(key, value)
    }

    /// `HopscotchMap::remove` takes a key out and gives back the value that was under it.
    #[verifier::external_body]
    pub(crate) fn remove(&mut self, key: i64) -> (r: Option<i128>)
        ensures
            r == number_at(numbers(*old(self)), key),
            numbers(*final(self)) == numbers(*old(self)).remove(key),
    {
        self.inner.remove(&key)
    }

    /// `HopscotchMap::keys`, walked while nobody writes, gives every key once. In which order is
    /// left open.
    #[verifier::external_body]
    pub(crate) fn keys(&self) -> (r: Vec<i64>)
        ensures
            r@.no_duplicates(),
            r@.to_set() == numbers(*self).dom(),
    {
        self.inner.keys().collect()
    }
}

/// A table from ids to texts, held in the hash map of the `kovan_map` crate.
#[verifier::external_body]
pub struct TextMap {
    inner: HopscotchMap<i64, String>,
}

/// What a table of texts holds.
pub uninterp spec fn labels(m: TextMap) -> Map<i64, Seq<char>>;

impl View for TextMap {
    type V = Map<i64, Seq<char>>;

    open spec fn view(&self) -> Map<i64, Seq<char>> {
        labels(*self)
    }
}

/// The table of texts that holds nothing.
pub open spec fn no_labels() -> Map<i64, Seq<char>> {
    Map::empty()
}

/// Whether `found` is what `m` holds under `key`.
pub open spec fn is_label_at(m: Map<i64, Seq<char>>, key: i64, found: Option<String>) -> bool {
    match found {
        Some(s) => m.contains_key(key) && m[key] == s@,
        None => !m.contains_key(key),
    }
}

impl TextMap {
    /// `HopscotchMap::new` gives a map without entries.
    #[verifier::external_body]
    pub(crate) fn new() -> (r: Self)
        ensures
            labels(r) == no_labels(),
    {
        TextMap { inner: HopscotchMap::new() }
    }

    /// `HopscotchMap::get` gives the value under a key, or `None` where there is none.
    #[verifier::external_body]
    pub(crate) fn get(&self, key: i64) -> (r: Option<String>)
        ensures
            is_label_at(labels(*self), key, r),
    {
        self.inner.get(&key)
    }

    /// `HopscotchMap::insert` puts a value under a key, in place of the value that was there.
    #[verifier::external_body]
    pub(crate) fn insert(&mut self, key: i64, value: String) -> (r: Option<String>)
        ensures
            is_label_at(labels(*old(self)), key, r),
            labels(*final(self)) == labels(*old(self)).insert(key, value@),
    {
        self.inner.insert(key, value)
    }

    /// `HopscotchMap::remove` takes a key out and gives back the value that was under it.
    #[verifier::external_body]
    pub(crate) fn remove(&mut self, key: i64) -> (r: Option<String>)
        ensures
            is_label_at(labels(*old(self)), key, r),
            labels(*final(self)) == labels(*old(self)).remove(key),
    {
        self.inner.remove(&key)
    }
}

/// The id that follows `id`: one more, and the least after the greatest.
pub open spec fn next_after(id: i32) -> i32 {
    if id == i32::MAX {
        i32::MIN
    } else {
        (id + 1) as i32
    }
}

/// The id that follows `id`, as [`next_after`] says.
pub fn next_id(id: i32) -> (r: i32)
    ensures
        r == next_after(id),
{
    if id == i32::MAX {
        i32::MIN
    } else {
        id + 1
    }
}

/// The positive id that follows `id`: one more, and one after the greatest.
pub open spec fn positive_after(id: i32) -> i32 {
    if id == i32::MAX {
        1
    } else {
        (id + 1) as i32
    }
}

/// The positive id that follows `id`, as [`positive_after`] says.
pub fn next_positive(id: i32) -> (r: i32)
    ensures
        r == positive_after(id),
{
    if id == i32::MAX {
        1
    } else {
        id + 1
    }
}

/// As many different ids as lie from `lo` to `hi` are at most so many.
pub proof fn lemma_ids_between(ids: Set<i64>, lo: int, hi: int)
    requires
        ids.finite(),
        lo <= hi + 1,
        forall|id: i64| #[trigger] ids.contains(id) ==> lo <= id <= hi,
    ensures
        ids.len() <= hi - lo + 1,
    decreases hi - lo + 1,
{
    if lo == hi + 1 {
        assert(ids =~= Set::empty());
    } else if i64::MIN <= hi <= i64::MAX {
        let rest = ids.remove(hi as i64);
        lemma_ids_between(rest, lo, hi - 1);
    } else {
        lemma_ids_between(ids, lo, hi - 1);
    }
}

/// A table is empty exactly where it holds no id.
pub proof fn lemma_some_id(ids: Set<i64>)
    requires
        ids.finite(),
    ensures
        ids.len() > 0 <==> exists|id: i64| #[trigger] ids.contains(id),
{
    if ids.len() == 0 {
        assert(ids =~= Set::empty());
    } else {
        assert(ids.contains(ids.choose()));
    }
}

/// One more than `n`, and zero after the greatest number.
pub open spec fn one_more(n: usize) -> usize {
    if n == usize::MAX {
        0
    } else {
        (n + 1) as usize
    }
}

/// One less than `n`, and the greatest number before zero.
pub open spec fn one_less(n: usize) -> usize {
    if n == 0 {
        usize::MAX
    } else {
        (n - 1) as usize
    }
}

/// One more than `n`, as [`one_more`] says.
pub fn count_up(n: usize) -> (r: usize)
    ensures
        r == one_more(n),
{
    if n == usize::MAX {
        0
    } else {
        n + 1
    }
}

/// One less than `n`, as [`one_less`] says.
pub fn count_down(n: usize) -> (r: usize)
    ensures
        r == one_less(n),
{
    if n == 0 {
        usize::MAX
    } else {
        n - 1
    }
}

/// The key under which a table keeps the id `id`.
pub open spec fn key_of(id: u64) -> i64 {
    id as i64
}

fn key(id: u64) -> (r: i64)
    ensures
        r == key_of(id),
{
    #[verifier::truncate]
    (id as i64)
}

proof fn lemma_keys_differ(a: u64, b: u64)
    requires
        a != b,
    ensures
        key_of(a) != key_of(b),
{
    assert(a != b ==> (a as i64) != (b as i64)) by (bit_vector);
}

/// Things that are known by id: a table says where each of them lies.
pub struct Slots<T> {
    table: IdMap,
    items: Vec<Option<T>>,
}

impl<T> View for Slots<T> {
    type V = Map<u64, T>;

    closed spec fn view(&self) -> Map<u64, T> {
        Map::new(
            |id: u64| self.table@.contains_key(key_of(id)),
            |id: u64| self.items@[self.table@[key_of(id)] as int]->0,
        )
    }
}

impl<T> Slots<T> {
    /// Whether everything in the table lies somewhere, and no two things in one place.
    pub closed spec fn wf(&self) -> bool {
        &&& forall|k: i64| #[trigger]
            self.table@.contains_key(k) ==> 0 <= self.table@[k] < self.items@.len()
                && self.items@[self.table@[k] as int] is Some
        &&& forall|a: i64, b: i64| #[trigger]
            self.table@.contains_key(a) && #[trigger] self.table@.contains_key(b) && a != b
                ==> self.table@[a] != self.table@[b]
    }

    /// Nothing.
    pub fn new() -> (r: Self)
        ensures
            r.wf(),
            r@ == Map::<u64, T>::empty(),
    {
        let r = Slots { table: IdMap::new(), items: Vec::new() };
        assert(r@ =~= Map::<u64, T>::empty());
        r
    }

    /// What is known as `id`.
    pub fn get(&self, id: u64) -> (r: Option<&T>)
        requires
            self.wf(),
        ensures
            r is Some <==> self@.contains_key(id),
            r matches Some(item) ==> *item == self@[id],
    {
        match self.table.get(key(id)) {
            Some(at) => {
                assert(self.table@.contains_key(key_of(id)));
                let n: usize = self.items.len();
                assert(at < n);
                self.items[at as usize].as_ref()
            },
            None => None,
        }
    }

    /// Takes out what is known as `id`.
    pub fn take(&mut self, id: u64) -> (r: Option<T>)
        requires
            old(self).wf(),
        ensures
            final(self).wf(),
            r is Some <==> old(self)@.contains_key(id),
            r matches Some(item) ==> item == old(self)@[id],
            final(self)@ == old(self)@.remove(id),
    {
        let k: i64 = key(id);
        match self.table.remove(k) {
            Some(at) => {
                assert(old(self).table@.contains_key(k));
                let mut found: Option<T> = None;
                let n: usize = self.items.len();
                assert(at < n);
                self.items.set_and_swap(at as usize, &mut found);
                proof {
                    assert forall|a: i64| #[trigger] self.table@.contains_key(a) implies 0
                        <= self.table@[a] < self.items@.len()
                        && self.items@[self.table@[a] as int] is Some && self.table@[a] != at by {
                        assert(old(self).table@.contains_key(a));
                    }
                    assert forall|a: i64, b: i64| #[trigger]
                        self.table@.contains_key(a) && #[trigger] self.table@.contains_key(b) && a
                            != b implies self.table@[a] != self.table@[b] by {
                        assert(old(self).table@.contains_key(a));
                        assert(old(self).table@.contains_key(b));
                    }
                    assert forall|other: u64| other != id implies key_of(other) != k by {
                        lemma_keys_differ(other, id);
                    }
                    assert(self@ =~= old(self)@.remove(id));
                }
                found
            },
            None => {
                assert(self.table@ =~= old(self).table@);
                assert(self@ =~= old(self)@.remove(id));
                None
            },
        }
    }

    /// A place where nothing lies: a gap, or the end.
    fn free_place(&self) -> (r: usize)
        ensures
            r <= self.items@.len(),
            r < self.items@.len() ==> self.items@[r as int] is None,
    {
        let mut i: usize = 0;
        while i < self.items.len()
            invariant
                i <= self.items@.len(),
            decreases self.items@.len() - i,
        {
            if self.items[i].is_none() {
                return i;
            }
            i += 1;
        }
        i
    }

    /// Makes `item` known as `id`, in place of what was known by that id.
    pub fn insert(&mut self, id: u64, item: T)
        requires
            old(self).wf(),
        ensures
            final(self).wf(),
            final(self)@ == old(self)@.insert(id, item),
    {
        let _ = self.take(id);
        let ghost before = *self;
        let at: usize = self.free_place();
        if at < self.items.len() {
            self.items.set(at, Some(item));
        } else {
            self.items.push(Some(item));
        }
        let k: i64 = key(id);
        self.table.insert(k, at as i128);
        proof {
            assert(!before@.contains_key(id));
            assert forall|a: i64| #[trigger] self.table@.contains_key(a) && a != k implies 0
                <= self.table@[a] < before.items@.len() && self.items@[self.table@[a] as int]
                == before.items@[self.table@[a] as int] && self.items@[self.table@[a] as int] is Some
                && self.table@[a] != at by {
                assert(before.table@.contains_key(a));
            }
            assert forall|a: i64, b: i64| #[trigger]
                self.table@.contains_key(a) && #[trigger] self.table@.contains_key(b) && a
                    != b implies self.table@[a] != self.table@[b] by {
                if a != k {
                    assert(before.table@.contains_key(a));
                }
                if b != k {
                    assert(before.table@.contains_key(b));
                }
            }
            assert forall|other: u64| other != id implies key_of(other) != k by {
                lemma_keys_differ(other, id);
            }
            assert(before@.insert(id, item) =~= old(self)@.insert(id, item));
            assert forall|other: u64| #[trigger] self@.contains_key(other) implies self@[other]
                == before@.insert(id, item)[other] by {
                if other != id {
                    assert(self.table@.contains_key(key_of(other)));
                }
            }
            assert(self@ =~= before@.insert(id, item));
        }
    }
}

/// The id behind `id`, where ids wrap around.
pub open spec fn next_long(id: u64) -> u64 {
    if id == u64::MAX {
        0
    } else {
        (id + 1) as u64
    }
}

/// The id behind `id`, where ids wrap around.
pub fn long_id_after(id: u64) -> (r: u64)
    ensures
        r == next_long(id),
{
    if id == u64::MAX {
        0
    } else {
        id + 1
    }
}

/// Ids go up one by one; after the greatest they start again.
pub proof fn ids_go_up(id: i32, long: u64, n: usize)
    ensures
        id < i32::MAX ==> next_after(id) == id + 1 && positive_after(id) == id + 1,
        id == i32::MAX ==> next_after(id) == i32::MIN && positive_after(id) == 1,
        long < u64::MAX ==> next_long(long) == long + 1,
        n < usize::MAX ==> one_more(n) == n + 1,
        n > 0 ==> one_less(n) == n - 1,
{
}

} // verus!
