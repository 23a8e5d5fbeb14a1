//! Memory bookkeeping: the sizes of tracked allocations by name and their
//! total, and the limits that decide whether a file can be processed.

use vstd::prelude::*;
use crate::strmap::StrMap;

verus! {

/// The sum of the sizes of allocation entries.
pub open spec fn sizes_sum(entries: Seq<(String, usize)>) -> int
    decreases entries.len(),
{
    if entries.len() == 0 {
        0
    } else {
        sizes_sum(entries.drop_last()) + entries.last().1
    }
}

/// Replacing one entry's size changes the sum by the difference.
pub proof fn lemma_sizes_sum_update(entries: Seq<(String, usize)>, i: int, e: (String, usize))
    requires
        0 <= i < entries.len(),
    ensures
        sizes_sum(entries.update(i, e)) == sizes_sum(entries) - entries[i].1 + e.1,
    decreases entries.len(),
{
    if i < entries.len() - 1 {
        assert(entries.update(i, e).drop_last() =~= entries.drop_last().update(i, e));
        lemma_sizes_sum_update(entries.drop_last(), i, e);
    } else {
        assert(entries.update(i, e).drop_last() =~= entries.drop_last());
    }
}

/// Removing one entry lowers the sum by its size.
pub proof fn lemma_sizes_sum_remove(entries: Seq<(String, usize)>, i: int)
    requires
        0 <= i < entries.len(),
    ensures
        sizes_sum(entries.remove(i)) == sizes_sum(entries) - entries[i].1,
    decreases entries.len(),
{
    if i < entries.len() - 1 {
        assert(entries.remove(i).drop_last() =~= entries.drop_last().remove(i));
        lemma_sizes_sum_remove(entries.drop_last(), i);
    } else {
        assert(entries.remove(i) =~= entries.drop_last());
    }
}

/// Sizes are never negative.
pub proof fn lemma_sizes_sum_nonneg(entries: Seq<(String, usize)>)
    ensures
        sizes_sum(entries) >= 0,
        forall|i: int| 0 <= i < entries.len() ==> #[trigger] entries[i].1 <= sizes_sum(entries),
    decreases entries.len(),
{
    if entries.len() > 0 {
        lemma_sizes_sum_nonneg(entries.drop_last());
        assert forall|i: int| 0 <= i < entries.len() implies #[trigger] entries[i].1 <= sizes_sum(entries) by {
            if i < entries.len() - 1 {
                assert(entries.drop_last()[i] == entries[i]);
            }
        }
    }
}

/// Memory usage tracker: the size of each tracked allocation by name, and
/// their total (which saturates at the bounds of `usize`).
#[derive(Debug, Clone)]
pub struct MemoryTracker {
    pub allocations: StrMap<usize>,
    pub total_allocated: usize,
}

/// The total stays the sum of the tracked sizes.
pub open spec fn total_is_sum(t: MemoryTracker) -> bool {
    t.total_allocated == sizes_sum(t.allocations.entries@)
}

impl MemoryTracker {
    /// Each name is tracked once.
    pub open spec fn wf(&self) -> bool {
        self.allocations.wf()
    }

    /// A tracker with nothing tracked.
    pub fn new() -> (t: Self)
        ensures
            t.wf(),
            t.allocations.entries@.len() == 0,
            t.total_allocated == 0,
            total_is_sum(t),
    {
        MemoryTracker { allocations: StrMap::new(), total_allocated: 0 }
    }

    /// Tracks an allocation under a name, replacing the size tracked there:
    /// the old size leaves the total and the new one joins it (both
    /// saturating).
    pub fn track_allocation(&mut self, key: String, size: usize)
        requires
            old(self).wf(),
        ensures
            final(self).wf(),
            final(self).allocations.map() == old(self).allocations.map().insert(key@, size),
            final(self).allocations.entries@.len() == old(self).allocations.entries@.len()
                + (if old(self).allocations.map().contains_key(key@) { 0int } else { 1int }),
            final(self).total_allocated == total_after_track(*old(self), key@, size),
            total_is_sum(*old(self)) && total_after_release(*old(self), key@) + size <= usize::MAX
                ==> total_is_sum(*final(self)),
    {
        let ghost old_entries = self.allocations.entries@;
        match self.allocations.get(key.as_str()) {
            Some(prev) => {
                self.total_allocated = self.total_allocated.saturating_sub(*prev);
            },
            None => {},
        }
        let ghost k = key@;
        let ghost kk = key;
        self.allocations.insert(key, size);
        self.total_allocated = self.total_allocated.saturating_add(size);
        proof {
            if total_is_sum(*old(self)) && total_after_release(*old(self), k) + size <= usize::MAX {
                lemma_sizes_sum_nonneg(old_entries);
                if old(self).allocations.map().contains_key(k) {
                    let i = choose|i: int| 0 <= i < old_entries.len() && old_entries[i].0@ == k
                        && self.allocations.entries@ == old_entries.update(i, (kk, size));
                    crate::strmap::lemma_entries_map_at(old_entries, i);
                    lemma_sizes_sum_update(old_entries, i, (kk, size));
                    assert(old(self).allocations.map()[k] == old_entries[i].1);
                    assert(old_entries[i].1 <= sizes_sum(old_entries));
                } else {
                    assert(self.allocations.entries@.drop_last() =~= old_entries);
                    assert(sizes_sum(self.allocations.entries@) == sizes_sum(old_entries) + size);
                }
            }
        }
    }

    /// Stops tracking a name; its size leaves the total (saturating).
    pub fn release_allocation(&mut self, key: &str)
        requires
            old(self).wf(),
        ensures
            final(self).wf(),
            final(self).allocations.map() == old(self).allocations.map().remove(key@),
            final(self).allocations.entries@.len() == old(self).allocations.entries@.len()
                - (if old(self).allocations.map().contains_key(key@) { 1int } else { 0int }),
            final(self).total_allocated == total_after_release(*old(self), key@),
            total_is_sum(*old(self)) ==> total_is_sum(*final(self)),
    {
        let ghost old_entries = self.allocations.entries@;
        let size = match self.allocations.get(key) {
            Some(s) => Some(*s),
            None => None,
        };
        let removed = self.allocations.remove(key);
        match size {
            Some(s) => {
                self.total_allocated = self.total_allocated.saturating_sub(s);
            },
            None => {},
        }
        proof {
            if total_is_sum(*old(self)) && removed {
                let i = choose|i: int| 0 <= i < old_entries.len() && old_entries[i].0@ == key@
                    && self.allocations.entries@ == old_entries.remove(i);
                crate::strmap::lemma_entries_map_at(old_entries, i);
                lemma_sizes_sum_remove(old_entries, i);
                lemma_sizes_sum_nonneg(old_entries);
            }
        }
    }

    /// The total size tracked.
    pub fn get_total_memory(&self) -> (r: usize)
        ensures
            r == self.total_allocated,
    {
        self.total_allocated
    }

    /// How many allocations are tracked.
    pub fn get_allocation_count(&self) -> (r: usize)
        ensures
            r == self.allocations.entries@.len(),
    {
        self.allocations.len()
    }

    /// The size tracked under a name.
    pub fn get_allocation(&self, key: &str) -> (r: Option<usize>)
        requires
            self.wf(),
        ensures
            r == (if self.allocations.map().contains_key(key@) { Some(self.allocations.map()[key@]) } else { None }),
    {
        match self.allocations.get(key) {
            Some(s) => Some(*s),
            None => None,
        }
    }

    /// Forgets every allocation.
    pub fn clear(&mut self)
        ensures
            final(self).wf(),
            final(self).allocations.entries@.len() == 0,
            final(self).total_allocated == 0,
            total_is_sum(*final(self)),
    {
        self.allocations = StrMap::new();
        self.total_allocated = 0;
    }
}

/// A tracked allocation that is released when its holder is done with it.
#[derive(Debug, Clone)]
pub struct MemoryGuard {
    pub key: String,
}

impl MemoryGuard {
    /// Tracks an allocation and gives the guard that releases it.
    pub fn new(tracker: &mut MemoryTracker, key: String, size: usize) -> (g: Self)
        requires
            old(tracker).wf(),
        ensures
            g.key == key,
            final(tracker).wf(),
            final(tracker).allocations.map() == old(tracker).allocations.map().insert(key@, size),
    {
        tracker.track_allocation(key.clone(), size);
        MemoryGuard { key }
    }

    /// Releases the guarded allocation.
    pub fn release(&self, tracker: &mut MemoryTracker)
        requires
            old(tracker).wf(),
        ensures
            final(tracker).wf(),
            final(tracker).allocations.map() == old(tracker).allocations.map().remove(self.key@),
    {
        tracker.release_allocation(self.key.as_str());
    }
}

/// The largest file that is processed: fifty mebibytes.
pub const MAX_FILE_SIZE: u64 = 52428800;

/// The most memory that processing may hold: five hundred mebibytes.
pub const MAX_MEMORY_USAGE: usize = 524288000;

/// Whether a file can be processed: it is not larger than `MAX_FILE_SIZE`,
/// and the memory tracked plus what processing it takes stays within
/// `MAX_MEMORY_USAGE`.
pub fn can_process_file(tracker: &MemoryTracker, file_size: u64, estimated_processing_memory: usize) -> (r: bool)
    requires
        tracker.total_allocated + estimated_processing_memory <= usize::MAX,
    ensures
        r == (file_size <= MAX_FILE_SIZE && tracker.total_allocated + estimated_processing_memory <= MAX_MEMORY_USAGE),
{
    let current_memory = tracker.get_total_memory();
    if file_size > MAX_FILE_SIZE {
        return false;
    }
    if current_memory + estimated_processing_memory > MAX_MEMORY_USAGE {
        return false;
    }
    true
}

} // verus!

verus! {

/// The total once the size tracked under a name leaves it (saturating at
/// zero); unchanged for a name not tracked.
pub open spec fn total_after_release(t: MemoryTracker, key: Seq<char>) -> int {
    if t.allocations.map().contains_key(key) {
        if t.total_allocated >= t.allocations.map()[key] {
            t.total_allocated - t.allocations.map()[key]
        } else {
            0
        }
    } else {
        t.total_allocated as int
    }
}

/// The total once a name is tracked with a size: its old size leaves the
/// total and the new one joins it (saturating at `usize::MAX`).
pub open spec fn total_after_track(t: MemoryTracker, key: Seq<char>, size: usize) -> int {
    let base = total_after_release(t, key);
    if base + size <= usize::MAX { base + size } else { usize::MAX as int }
}

/// Tracking a new name and then releasing it leaves the tracker as it was:
/// the same allocations, as many of them, and, where the total did not saturate, the same
/// total, which is still the sum of the tracked sizes where it was before.
pub proof fn law_track_then_release(t0: MemoryTracker, key: Seq<char>, size: usize, t1: MemoryTracker, t2: MemoryTracker)
    requires
        !t0.allocations.map().contains_key(key),
        t0.total_allocated + size <= usize::MAX,
        t1.allocations.map() == t0.allocations.map().insert(key, size),
        t1.total_allocated == total_after_track(t0, key, size),
        t2.allocations.map() == t1.allocations.map().remove(key),
        t2.total_allocated == total_after_release(t1, key),
        total_is_sum(t0) && total_after_release(t0, key) + size <= usize::MAX ==> total_is_sum(t1),
        total_is_sum(t1) ==> total_is_sum(t2),
        t1.allocations.entries@.len() == t0.allocations.entries@.len()
            + (if t0.allocations.map().contains_key(key) { 0int } else { 1int }),
        t2.allocations.entries@.len() == t1.allocations.entries@.len()
            - (if t1.allocations.map().contains_key(key) { 1int } else { 0int }),
    ensures
        t2.allocations.map() == t0.allocations.map(),
        t2.allocations.entries@.len() == t0.allocations.entries@.len(),
        t2.total_allocated == t0.total_allocated,
        total_is_sum(t0) ==> total_is_sum(t2),
{
    assert(t2.allocations.map() =~= t0.allocations.map());
}

} // verus!
