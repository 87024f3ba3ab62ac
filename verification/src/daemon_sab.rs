//! Shared memory regions that scripts see as `SharedArrayBuffer`.
//!
//! A region is mapped memory that other processes may map too. This module gives regions their ids,
//! remembers their lengths and names, and decides which accesses are in order. The memory itself,
//! and the atomic accesses to it, are the caller's.
use vstd::prelude::*;

use crate::bytes::{overwrite, overwritten, slice_of};
use crate::registry::{next_after, next_id, no_labels, no_numbers, IdMap, TextMap};
use crate::text::{decimal, push_i64, push_u64, texts};

verus! {

pub type RegionId = i64;

/// No region has the id.
pub const ERR_BAD_ID: i32 = -1;

/// The access does not lie in the region.
pub const ERR_OUT_OF_BOUNDS: i32 = -2;

/// The width or the length is none that can be used.
pub const ERR_BAD_WIDTH: i32 = -3;

/// The memory could not be mapped.
pub const ERR_IO: i32 = -4;

/// The platform does not support it.
pub const ERR_UNSUPPORTED: i32 = -5;

/// The value changed, or somebody notified.
pub const WAIT_OK: i32 = 0;

/// The value was another from the start.
pub const WAIT_NOT_EQUAL: i32 = 1;

/// The time passed.
pub const WAIT_TIMED_OUT: i32 = 2;

/// Most waiters that a notification reports.
pub const MAX_WOKEN: i32 = 1_073_741_824;

/// Nanoseconds that a timed wait sleeps at a time.
pub const WAIT_SLICE_NS: u64 = 1_000_000;

/// What the table of regions holds.
#[verifier::ext_equal]
pub struct SabView {
    pub next: i32,
    /// Region to its length in bytes.
    pub lengths: Map<i64, i128>,
    /// Region to the name under which other processes find it.
    pub names: Map<i64, Seq<char>>,
    /// The names of the regions that were made here, whether or not they are still known.
    pub made: Seq<Seq<char>>,
}

/// The table of regions.
pub struct DaemonSab {
    next_id: i32,
    lengths: IdMap,
    names: TextMap,
    made: Vec<String>,
}

impl View for DaemonSab {
    type V = SabView;

    closed spec fn view(&self) -> SabView {
        SabView {
            next: self.next_id,
            lengths: self.lengths@,
            names: self.names@,
            made: texts(self.made@),
        }
    }
}

/// `a + b`, or the greatest length where that is exceeded.
pub open spec fn capped_sum(a: usize, b: usize) -> int {
    if a + b > usize::MAX {
        usize::MAX as int
    } else {
        a + b
    }
}

impl SabView {
    /// Whether the tables belong together.
    pub open spec fn wf(self) -> bool {
        &&& self.lengths.dom() == self.names.dom()
        &&& forall|id: i64| #[trigger]
            self.lengths.contains_key(id) ==> 0 <= self.lengths[id] <= usize::MAX
    }

    /// The table with one more region, which others made.
    pub open spec fn added(self, length: usize, name: Seq<char>) -> SabView {
        SabView {
            next: next_after(self.next),
            lengths: self.lengths.insert(self.next as i64, length as i128),
            names: self.names.insert(self.next as i64, name),
            ..self
        }
    }

    /// The table with one more region, which was made here.
    pub open spec fn created(self, length: usize, name: Seq<char>) -> SabView {
        SabView { made: self.made.push(name), ..self.added(length, name) }
    }

    /// The table without region `id`.
    pub open spec fn removed(self, id: i64) -> SabView {
        SabView { lengths: self.lengths.remove(id), names: self.names.remove(id), ..self }
    }

    /// Whether `memory` has the length of region `id`, where there is such a region.
    pub open spec fn is_memory_of(self, id: i64, memory: Seq<u8>) -> bool {
        self.lengths.contains_key(id) ==> self.lengths[id] == memory.len()
    }

    /// The code that refuses `len` bytes at `offset` of region `id`; zero where they are in order.
    pub open spec fn range_code(self, id: i64, offset: usize, len: usize) -> i32 {
        if !self.lengths.contains_key(id) {
            ERR_BAD_ID
        } else if capped_sum(offset, len) > self.lengths[id] {
            ERR_OUT_OF_BOUNDS
        } else {
            0
        }
    }

    /// The code that refuses `width` bytes at `offset` of region `id` where they have to lie on a
    /// multiple of their width; zero where they are in order.
    pub open spec fn place_code(self, id: i64, offset: usize, width: usize) -> i32 {
        let range = self.range_code(id, offset, width);
        if range != 0 {
            range
        } else if offset as int % width as int != 0 {
            ERR_OUT_OF_BOUNDS
        } else {
            0
        }
    }

    /// The code that refuses an atomic access of `width` bytes; zero where it is in order. `narrow`
    /// says whether one and two bytes can be accessed too.
    pub open spec fn atomic_code(self, id: i64, offset: usize, width: u8, narrow: bool) -> i32 {
        let range = self.range_code(id, offset, width as usize);
        if range != 0 {
            range
        } else if width == 4 || width == 8 || narrow && (width == 1 || width == 2) {
            0
        } else {
            ERR_BAD_WIDTH
        }
    }
}

proof fn lemma_added_wf(v: SabView, length: usize, name: Seq<char>)
    requires
        v.wf(),
    ensures
        v.added(length, name).wf(),
{
    let w = v.added(length, name);
    assert(w.lengths.dom() =~= w.names.dom());
    assert forall|k: i64| #[trigger] w.lengths.contains_key(k) implies 0 <= w.lengths[k]
        <= usize::MAX by {
        if k != v.next as i64 {
            assert(v.lengths.contains_key(k));
        }
    }
}

proof fn lemma_removed_wf(v: SabView, id: i64)
    requires
        v.wf(),
    ensures
        v.removed(id).wf(),
{
    let w = v.removed(id);
    assert(w.lengths.dom() =~= w.names.dom());
    assert forall|k: i64| #[trigger] w.lengths.contains_key(k) implies 0 <= w.lengths[k]
        <= usize::MAX by {
        assert(v.lengths.contains_key(k));
    }
}

/// Which waiters a notification wakes.
#[derive(Debug, Clone, Copy, PartialEq, Eq, Structural)]
pub enum Wake {
    One,
    All,
}

/// How a wait begins.
#[derive(Debug, Clone, Copy, PartialEq, Eq, Structural)]
pub enum WaitStart {
    /// It does not; this is the answer.
    Answer(i32),
    /// Sleep until somebody notifies, and answer [`WAIT_OK`].
    Park,
    /// Sleep in slices for at most so many milliseconds, and look at the value in between.
    Poll(u64),
}

impl DaemonSab {
    /// No regions; ids start at one.
    pub fn new() -> (r: Self)
        ensures
            r@.wf(),
            r@ == (SabView {
                next: 1,
                lengths: no_numbers(),
                names: no_labels(),
                made: Seq::empty(),
            }),
    {
        let r = DaemonSab {
            next_id: 1,
            lengths: IdMap::new(),
            names: TextMap::new(),
            made: Vec::new(),
        };
        assert(r@.lengths.dom() =~= r@.names.dom());
        assert(r@.made =~= Seq::empty());
        r
    }

    /// Decides on a new region of `byte_length` bytes: the code that refuses an empty one, or
    /// `None` where the memory is to be mapped.
    pub fn alloc_region(&self, byte_length: usize) -> (r: Option<i64>)
        ensures
            r == (if byte_length == 0 {
                Some(ERR_BAD_WIDTH as i64)
            } else {
                None
            }),
    {
        if byte_length == 0 {
            Some(ERR_BAD_WIDTH as i64)
        } else {
            None
        }
    }

    /// Takes up a region that was made here and whose memory was mapped: its id. Its file is to be
    /// removed in the end.
    pub fn add_made(&mut self, byte_length: usize, descriptor: String) -> (r: i64)
        requires
            old(self)@.wf(),
        ensures
            final(self)@.wf(),
            final(self)@ == old(self)@.created(byte_length, descriptor@),
            r == old(self)@.next,
    {
        let name = descriptor.as_str().to_owned();
        let id: i64 = self.add_region(byte_length, descriptor);
        self.made.push(name);
        assert(self@.made =~= old(self)@.made.push(name@));
        id
    }

    /// The files to remove in the end: those behind the regions that were made here. Other
    /// processes keep what they have mapped.
    pub fn leftovers(&self) -> (r: &Vec<String>)
        ensures
            texts(r@) == self@.made,
    {
        &self.made
    }

    /// Takes up a region that others made and whose memory was mapped: its id.
    pub fn add_region(&mut self, byte_length: usize, descriptor: String) -> (r: i64)
        requires
            old(self)@.wf(),
        ensures
            final(self)@.wf(),
            final(self)@ == old(self)@.added(byte_length, descriptor@),
            r == old(self)@.next,
    {
        proof {
            lemma_added_wf(self@, byte_length, descriptor@);
        }
        let id: i32 = self.next_id;
        self.next_id = next_id(id);
        self.lengths.insert(id as i64, byte_length as i128);
        self.names.insert(id as i64, descriptor);
        id as i64
    }

    /// Forgets region `region_id`: zero, or the code where there is none.
    pub fn release(&mut self, region_id: RegionId) -> (r: i32)
        requires
            old(self)@.wf(),
        ensures
            final(self)@.wf(),
            final(self)@ == old(self)@.removed(region_id),
            r == (if old(self)@.lengths.contains_key(region_id) {
                0
            } else {
                ERR_BAD_ID
            }),
    {
        proof {
            lemma_removed_wf(self@, region_id);
        }
        let known = self.lengths.remove(region_id).is_some();
        self.names.remove(region_id);
        if known {
            0
        } else {
            ERR_BAD_ID
        }
    }

    /// The name under which other processes find region `region_id`; empty where there is none.
    pub fn descriptor(&self, region_id: RegionId) -> (r: String)
        requires
            self@.wf(),
        ensures
            r@ == (if self@.lengths.contains_key(region_id) {
                self@.names[region_id]
            } else {
                Seq::empty()
            }),
    {
        assert(self@.lengths.dom().contains(region_id) == self@.names.dom().contains(region_id));
        match self.names.get(region_id) {
            Some(name) => name,
            None => String::new(),
        }
    }

    /// Bytes of region `region_id`, or the code where there is none.
    pub fn byte_length(&self, region_id: RegionId) -> (r: i64)
        ensures
            r == (if self@.lengths.contains_key(region_id) {
                self@.lengths[region_id] as i64
            } else {
                ERR_BAD_ID as i64
            }),
    {
        match self.lengths.get(region_id) {
            Some(n) => n as i64,
            None => ERR_BAD_ID as i64,
        }
    }

    /// Decides on a plain access to `len` bytes at `offset`: zero, or the code that refuses it.
    pub fn check_range(&self, region_id: RegionId, offset: usize, len: usize) -> (r: i32)
        ensures
            r == self@.range_code(region_id, offset, len),
    {
        match self.lengths.get(region_id) {
            Some(length) => {
                let end: i128 = if offset as i128 + len as i128 > usize::MAX as i128 {
                    usize::MAX as i128
                } else {
                    offset as i128 + len as i128
                };
                if end > length {
                    ERR_OUT_OF_BOUNDS
                } else {
                    0
                }
            },
            None => ERR_BAD_ID,
        }
    }

    /// Decides on an access to `width` bytes at `offset` that have to lie on a multiple of their
    /// width: zero, or the code that refuses it.
    pub fn check_place(&self, region_id: RegionId, offset: usize, width: usize) -> (r: i32)
        requires
            width > 0,
        ensures
            r == self@.place_code(region_id, offset, width),
    {
        let range: i32 = self.check_range(region_id, offset, width);
        if range != 0 {
            range
        } else if offset % width != 0 {
            ERR_OUT_OF_BOUNDS
        } else {
            0
        }
    }

    /// Copies `len` bytes from `offset` on out of region `region_id`, whose memory is `memory`; the
    /// code that refuses it where they do not lie in the region.
    pub fn read(&self, region_id: RegionId, memory: &[u8], offset: usize, len: usize) -> (r: Result<
        Vec<u8>,
        i32,
    >)
        requires
            self@.is_memory_of(region_id, memory@),
            memory@.len() < usize::MAX,
        ensures
            match r {
                Ok(bytes) => self@.range_code(region_id, offset, len) == 0 && bytes@
                    == memory@.subrange(offset as int, offset + len),
                Err(code) => code == self@.range_code(region_id, offset, len) && code != 0,
            },
    {
        let code: i32 = self.check_range(region_id, offset, len);
        if code != 0 {
            return Err(code);
        }
        Ok(slice_of(memory, offset, offset + len))
    }

    /// Copies `bytes` into region `region_id`, whose memory is `memory`, from `offset` on: zero, or
    /// the code that refuses it where they do not lie in the region.
    pub fn write(
        &self,
        region_id: RegionId,
        memory: &mut [u8],
        offset: usize,
        bytes: &[u8],
    ) -> (r: i32)
        requires
            self@.is_memory_of(region_id, old(memory)@),
            old(memory)@.len() < usize::MAX,
        ensures
            r == self@.range_code(region_id, offset, bytes@.len() as usize),
            final(memory)@ == (if r == 0 {
                overwritten(old(memory)@, offset as int, bytes@)
            } else {
                old(memory)@
            }),
    {
        let code: i32 = self.check_range(region_id, offset, bytes.len());
        if code == 0 {
            overwrite(memory, offset, bytes);
        }
        code
    }

    /// Decides on an atomic load of `width` bytes at `byte_offset`.
    pub fn atomic_load(&self, region_id: RegionId, byte_offset: usize, width: u8) -> (r: i32)
        ensures
            r == self@.atomic_code(region_id, byte_offset, width, true),
    {
        let range: i32 = self.check_range(region_id, byte_offset, width as usize);
        if range != 0 {
            range
        } else if width == 1 || width == 2 || width == 4 || width == 8 {
            0
        } else {
            ERR_BAD_WIDTH
        }
    }

    /// Decides on an atomic store of `width` bytes at `byte_offset`.
    pub fn atomic_store(&self, region_id: RegionId, byte_offset: usize, width: u8) -> (r: i32)
        ensures
            r == self@.atomic_code(region_id, byte_offset, width, false),
    {
        let range: i32 = self.check_range(region_id, byte_offset, width as usize);
        if range != 0 {
            range
        } else if width == 4 || width == 8 {
            0
        } else {
            ERR_BAD_WIDTH
        }
    }

    /// Decides on an atomic compare-and-exchange of `width` bytes at `byte_offset`.
    pub fn atomic_cas(&self, region_id: RegionId, byte_offset: usize, width: u8) -> (r: i32)
        ensures
            r == self@.atomic_code(region_id, byte_offset, width, false),
    {
        self.atomic_store(region_id, byte_offset, width)
    }

    /// Decides on a wait at `byte_offset`, given the value that stands there.
    pub fn wait(
        &self,
        region_id: RegionId,
        byte_offset: usize,
        current: u32,
        expected: i32,
        timeout_ms: i64,
    ) -> (r: WaitStart)
        ensures
            r == wait_begins(
                self@.range_code(region_id, byte_offset, 4),
                current,
                expected,
                timeout_ms,
            ),
            r == ({
                let range = self@.range_code(region_id, byte_offset, 4);
                if range != 0 {
                    WaitStart::Answer(range)
                } else if current != expected as u32 {
                    WaitStart::Answer(WAIT_NOT_EQUAL)
                } else if timeout_ms < 0 {
                    WaitStart::Park
                } else {
                    WaitStart::Poll(timeout_ms as u64)
                }
            }),
    {
        let range: i32 = self.check_range(region_id, byte_offset, 4);
        if range != 0 {
            WaitStart::Answer(range)
        } else if current != expected as u32 {
            WaitStart::Answer(WAIT_NOT_EQUAL)
        } else if timeout_ms < 0 {
            WaitStart::Park
        } else {
            WaitStart::Poll(timeout_ms as u64)
        }
    }

    /// Decides on a notification at `byte_offset`: whom to wake, and the number to report. One
    /// waiter is woken alone; otherwise all are, and the number asked for is reported, as far as
    /// it can be.
    pub fn notify(&self, region_id: RegionId, byte_offset: usize, count: i64) -> (r: Result<
        (Wake, i32),
        i32,
    >)
        ensures
            self@.range_code(region_id, byte_offset, 4) == 0 ==> r == Ok::<(Wake, i32), i32>(
                woken(count),
            ),
            self@.range_code(region_id, byte_offset, 4) != 0 ==> r == Err::<(Wake, i32), i32>(
                self@.range_code(region_id, byte_offset, 4),
            ),
            r == ({
                let range = self@.range_code(region_id, byte_offset, 4);
                if range != 0 {
                    Err::<(Wake, i32), i32>(range)
                } else if count == 1 {
                    Ok((Wake::One, 1i32))
                } else if count < 0 || count > MAX_WOKEN {
                    Ok((Wake::All, MAX_WOKEN))
                } else {
                    Ok((Wake::All, count as i32))
                }
            }),
    {
        let range: i32 = self.check_range(region_id, byte_offset, 4);
        if range != 0 {
            return Err(range);
        }
        if count == 1 {
            Ok((Wake::One, 1))
        } else if count < 0 || count > MAX_WOKEN as i64 {
            Ok((Wake::All, MAX_WOKEN))
        } else {
            Ok((Wake::All, count as i32))
        }
    }
}

/// How long a timed wait sleeps next.
pub open spec fn slice_of_wait(remaining_ns: u64) -> Option<u64> {
    if remaining_ns == 0 {
        None
    } else if remaining_ns < WAIT_SLICE_NS {
        Some(remaining_ns)
    } else {
        Some(WAIT_SLICE_NS)
    }
}

/// The answer of a timed wait that finds `value`, if it has one yet.
pub open spec fn verdict_of(expired: bool, value: u32, expected: i32) -> Option<i32> {
    if value != expected as u32 {
        Some(WAIT_OK)
    } else if expired {
        Some(WAIT_TIMED_OUT)
    } else {
        None
    }
}

/// How a wait begins, where `current` stands at its place.
pub open spec fn wait_begins(range: i32, current: u32, expected: i32, timeout_ms: i64) -> WaitStart {
    if range != 0 {
        WaitStart::Answer(range)
    } else if current != expected as u32 {
        WaitStart::Answer(WAIT_NOT_EQUAL)
    } else if timeout_ms < 0 {
        WaitStart::Park
    } else {
        WaitStart::Poll(timeout_ms as u64)
    }
}

/// Whom a notification wakes, and the number that it reports.
pub open spec fn woken(count: i64) -> (Wake, i32) {
    if count == 1 {
        (Wake::One, 1)
    } else if count < 0 || count > MAX_WOKEN {
        (Wake::All, MAX_WOKEN)
    } else {
        (Wake::All, count as i32)
    }
}

/// How long a timed wait sleeps next, with `remaining_ns` nanoseconds left; `None` where its time
/// has passed.
pub fn wait_slice(remaining_ns: u64) -> (r: Option<u64>)
    ensures
        r == slice_of_wait(remaining_ns),
        r == (if remaining_ns == 0 {
            None
        } else if remaining_ns < WAIT_SLICE_NS {
            Some(remaining_ns)
        } else {
            Some(WAIT_SLICE_NS)
        }),
{
    if remaining_ns == 0 {
        None
    } else if remaining_ns < WAIT_SLICE_NS {
        Some(remaining_ns)
    } else {
        Some(WAIT_SLICE_NS)
    }
}

/// The answer of a timed wait that finds `value`, if it has one yet. A value that changed counts
/// even where the time has passed.
pub fn wait_verdict(expired: bool, value: u32, expected: i32) -> (r: Option<i32>)
    ensures
        r == verdict_of(expired, value, expected),
        r == (if value != expected as u32 {
            Some(WAIT_OK)
        } else if expired {
            Some(WAIT_TIMED_OUT)
        } else {
            None
        }),
{
    if value != expected as u32 {
        Some(WAIT_OK)
    } else if expired {
        Some(WAIT_TIMED_OUT)
    } else {
        None
    }
}

/// The directory for the files behind regions: shared memory where the system has it, else the
/// directory for temporary files, else `/tmp`.
pub fn shm_base(has_dev_shm: bool, tmpdir: Option<String>) -> (r: String)
    ensures
        r@ == (if has_dev_shm {
            "/dev/shm"@
        } else {
            match tmpdir {
                Some(dir) => if dir@.len() > 0 {
                    dir@
                } else {
                    "/tmp"@
                },
                None => "/tmp"@,
            }
        }),
{
    if has_dev_shm {
        return "/dev/shm".to_owned();
    }
    match tmpdir {
        Some(dir) => if dir.as_str().is_empty() {
            "/tmp".to_owned()
        } else {
            dir
        },
        None => "/tmp".to_owned(),
    }
}

/// The path of the file behind region number `n` that process `pid` makes at `now_ns`.
pub fn shm_path(base: &str, pid: i32, now_ns: u64, n: u64) -> (r: String)
    ensures
        r@ == base@ + "/burn-sab-"@ + decimal(pid as int) + "-"@ + decimal(now_ns as int) + "-"@
            + decimal(n as int),
{
    let mut m = base.to_owned();
    m.append("/burn-sab-");
    push_i64(&mut m, pid as i64);
    m.append("-");
    push_u64(&mut m, now_ns);
    m.append("-");
    push_u64(&mut m, n);
    m
}

/// Releasing a region that was just added leaves the table as it was, but for the id that was
/// used up.
pub proof fn releasing_undoes_adding(v: SabView, length: usize, name: Seq<char>)
    requires
        v.wf(),
        !v.lengths.contains_key(v.next as i64),
    ensures
        v.added(length, name).removed(v.next as i64) == (SabView { next: next_after(v.next), ..v }),
{
    let w = v.added(length, name).removed(v.next as i64);
    assert(!v.names.dom().contains(v.next as i64));
    assert(w.lengths =~= v.lengths);
    assert(w.names =~= v.names);
}

/// The file of a region that was made here is among those to remove in the end, even where the
/// region was released; that of a region which others made is not added to them.
pub proof fn made_regions_are_removed(
    v: SabView,
    length: usize,
    name: Seq<char>,
    id: i64,
    other: Seq<char>,
)
    ensures
        v.created(length, name).removed(id).made.contains(name),
        v.made.contains(other) ==> v.created(length, name).removed(id).made.contains(other),
        v.added(length, name).removed(id).made == v.made,
{
    let made = v.made.push(name);
    assert(made[v.made.len() as int] == name);
    if v.made.contains(other) {
        let i = choose|i: int| 0 <= i < v.made.len() && v.made[i] == other;
        assert(made[i] == other);
    }
}

/// What was written into a region is read back, and the rest of the region is as it was.
pub proof fn region_write_is_read_back(
    v: SabView,
    id: i64,
    memory: Seq<u8>,
    offset: usize,
    bytes: Seq<u8>,
)
    requires
        v.is_memory_of(id, memory),
        memory.len() < usize::MAX,
        bytes.len() <= usize::MAX,
        v.range_code(id, offset, bytes.len() as usize) == 0,
    ensures
        v.is_memory_of(id, overwritten(memory, offset as int, bytes)),
        overwritten(memory, offset as int, bytes).subrange(offset as int, offset + bytes.len())
            == bytes,
        forall|i: int|
            0 <= i < memory.len() && !(offset <= i < offset + bytes.len())
                ==> #[trigger] overwritten(memory, offset as int, bytes)[i] == memory[i],
{
    assert(overwritten(memory, offset as int, bytes).subrange(
        offset as int,
        offset + bytes.len(),
    ) =~= bytes);
}

/// Every access that is let through lies in its region.
pub proof fn permitted_access_lies_in_region(v: SabView, id: i64, offset: usize, len: usize)
    requires
        v.wf(),
        v.range_code(id, offset, len) == 0,
        v.lengths[id] < usize::MAX,
    ensures
        v.lengths.contains_key(id),
        offset + len <= v.lengths[id],
{
}

/// An access is let through exactly where it lies in its region. An unknown region is minus one, and
/// an access beyond the region minus two.
pub proof fn accesses_lie_in_their_region(v: SabView, id: i64, offset: usize, len: usize)
    requires
        v.wf(),
        v.lengths.contains_key(id) ==> v.lengths[id] < usize::MAX,
    ensures
        !v.lengths.contains_key(id) ==> v.range_code(id, offset, len) == -1,
        v.lengths.contains_key(id) && offset + len <= v.lengths[id] ==> v.range_code(id, offset, len)
            == 0,
        v.lengths.contains_key(id) && offset + len > v.lengths[id] ==> v.range_code(id, offset, len)
            == -2,
{
}

/// An atomic access has four or eight bytes, a load also one or two; any other width is minus three.
/// Its place is a multiple of its width.
pub proof fn atomic_accesses_have_their_widths(
    v: SabView,
    id: i64,
    offset: usize,
    width: u8,
    narrow: bool,
)
    ensures
        v.range_code(id, offset, width as usize) != 0 ==> v.atomic_code(id, offset, width, narrow)
            == v.range_code(id, offset, width as usize),
        v.range_code(id, offset, width as usize) == 0 && (width == 4 || width == 8)
            ==> v.atomic_code(id, offset, width, narrow) == 0,
        v.range_code(id, offset, width as usize) == 0 && (width == 1 || width == 2) && narrow
            ==> v.atomic_code(id, offset, width, narrow) == 0,
        v.range_code(id, offset, width as usize) == 0 && (width == 1 || width == 2) && !narrow
            ==> v.atomic_code(id, offset, width, narrow) == -3,
        v.range_code(id, offset, width as usize) == 0 && width != 1 && width != 2 && width != 4
            && width != 8 ==> v.atomic_code(id, offset, width, narrow) == -3,
        width > 0 && v.range_code(id, offset, width as usize) == 0 && offset as int % width as int
            == 0 ==> v.place_code(id, offset, width as usize) == 0,
        width > 0 && v.range_code(id, offset, width as usize) == 0 && offset as int % width as int
            != 0 ==> v.place_code(id, offset, width as usize) == -2,
        v.range_code(id, offset, width as usize) != 0 ==> v.place_code(id, offset, width as usize)
            == v.range_code(id, offset, width as usize),
{
}

/// A region is known by its id with its own length and name, and every other is as it was; releasing
/// it takes it out alone.
pub proof fn regions_come_and_go(v: SabView, length: usize, name: Seq<char>, other: i64)
    requires
        v.wf(),
        other != v.next,
    ensures
        v.added(length, name).lengths.contains_key(v.next as i64),
        v.added(length, name).lengths[v.next as i64] == length,
        v.added(length, name).names[v.next as i64] == name,
        v.added(length, name).lengths.contains_key(other) == v.lengths.contains_key(other),
        v.lengths.contains_key(other) ==> v.added(length, name).lengths[other] == v.lengths[other]
            && v.added(length, name).names[other] == v.names[other],
        v.next < i32::MAX ==> v.added(length, name).next == v.next + 1,
        v.created(length, name).lengths == v.added(length, name).lengths,
        v.created(length, name).names == v.added(length, name).names,
        !v.removed(other).lengths.contains_key(other),
        v.removed(other).lengths.contains_key(v.next as i64) == v.lengths.contains_key(
            v.next as i64,
        ),
        v.lengths.contains_key(v.next as i64) ==> v.removed(other).lengths[v.next as i64]
            == v.lengths[v.next as i64],
{
}

/// The codes and limits that scripts know.
pub proof fn codes_are_fixed()
    ensures
        ERR_BAD_ID == -1,
        ERR_OUT_OF_BOUNDS == -2,
        ERR_BAD_WIDTH == -3,
        ERR_IO == -4,
        ERR_UNSUPPORTED == -5,
        WAIT_OK == 0,
        WAIT_NOT_EQUAL == 1,
        WAIT_TIMED_OUT == 2,
        MAX_WOKEN == 1073741824,
        WAIT_SLICE_NS == 1000000,
{
}

/// A timed wait sleeps no longer than its time nor than a millisecond at once, and ends where its time
/// has passed; it answers that the value changed exactly where it did, and that the time passed only
/// where it did not.
pub proof fn timed_waits_end_in_time(remaining: u64, expired: bool, value: u32, expected: i32)
    ensures
        slice_of_wait(remaining) is None <==> remaining == 0,
        slice_of_wait(remaining) matches Some(ns) ==> 0 < ns <= remaining && ns <= 1000000,
        remaining >= 1000000 ==> slice_of_wait(remaining) == Some(1000000u64),
        0 < remaining < 1000000 ==> slice_of_wait(remaining) == Some(remaining),
        verdict_of(expired, value, expected) == Some(0i32) <==> value != expected as u32,
        verdict_of(expired, value, expected) == Some(2i32) <==> value == expected as u32 && expired,
        verdict_of(expired, value, expected) is None <==> value == expected as u32 && !expired,
{
}

/// A wait sleeps only where the value is the expected one: without end where the time is below zero,
/// and otherwise for that many milliseconds. Any other value is answered at once.
pub proof fn waits_begin_on_the_expected_value(
    range: i32,
    current: u32,
    expected: i32,
    timeout_ms: i64,
)
    ensures
        range != 0 ==> wait_begins(range, current, expected, timeout_ms) == WaitStart::Answer(range),
        range == 0 && current != expected as u32 ==> wait_begins(range, current, expected, timeout_ms)
            == WaitStart::Answer(1i32),
        range == 0 && current == expected as u32 && timeout_ms < 0 ==> wait_begins(
            range,
            current,
            expected,
            timeout_ms,
        ) is Park,
        range == 0 && current == expected as u32 && timeout_ms >= 0 ==> (wait_begins(
            range,
            current,
            expected,
            timeout_ms,
        ) matches WaitStart::Poll(ms) && ms == timeout_ms),
{
}

/// A notification for one wakes one; any other wakes all, and reports as many as were asked for, up to
/// 1073741824, which also stands for all.
pub proof fn notifications_wake_who_they_are_for(count: i64)
    ensures
        woken(count).0 is One <==> count == 1,
        0 <= count <= 1073741824 ==> woken(count).1 == count,
        count < 0 || count > 1073741824 ==> woken(count).1 == 1073741824,
{
}

} // verus!
