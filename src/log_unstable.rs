//! The unstable tail: entries appended locally but not yet persisted, and a
//! snapshot that is pending installation.
use vstd::prelude::*;
use vstd::slice::slice_subrange;

use crate::eraftpb::{Entry, EntryView, Snapshot};

verus! {

/// `entries[i]` sits at log position `offset + i`. `offset` may be below the
/// highest index already in storage: persisting these entries then truncates
/// the stored log first.
#[derive(Debug)]
pub struct Unstable {
    /// Snapshot waiting to be persisted.
    pub snapshot: Option<Snapshot>,
    /// Entries not yet written to storage.
    pub entries: Vec<Entry>,
    /// Log index of `entries[0]`.
    pub offset: u64,
}

/// Why a requested range does not lie inside the buffered entries.
#[derive(Debug, Clone, Copy, PartialEq, Eq, Structural)]
pub enum SliceBoundsError {
    /// `lo > hi`.
    Inverted { lo: u64, hi: u64 },
    /// The range leaves `[offset, upper]`, with `upper = offset + entries.len()`.
    OutOfBound { lo: u64, hi: u64, offset: u64, upper: u64 },
}

/// True when every entry of `ents` is numbered one above its predecessor.
pub open spec fn contiguous_from(ents: Seq<EntryView>, first: int) -> bool {
    forall|i: int| 0 <= i < ents.len() ==> #[trigger] ents[i].index == first + i
}

/// Offset after merging a run that starts at `after` into a buffer at `offset`.
pub open spec fn merged_offset(offset: u64, after: u64) -> u64 {
    if after <= offset {
        after
    } else {
        offset
    }
}

/// Entries after merging `ents` into `entries` (which start at `offset`):
/// every buffered entry below `ents[0].index` is kept, and `ents` follow.
pub open spec fn merged_entries(offset: u64, entries: Seq<EntryView>, ents: Seq<EntryView>) -> Seq<
    EntryView,
> {
    let after = ents[0].index;
    if after <= offset {
        ents
    } else {
        entries.take(after - offset) + ents
    }
}

impl Unstable {
    /// The buffered entries as a sequence of models.
    pub open spec fn entries_view(&self) -> Seq<EntryView> {
        self.entries@.map_values(|e: Entry| e@)
    }

    /// One past the index of the last buffered entry.
    pub open spec fn upper(&self) -> int {
        self.offset + self.entries@.len()
    }

    /// Entries are numbered contiguously from `offset`, the numbering fits in
    /// `u64`, and a pending snapshot lies below `offset`.
    pub open spec fn wf(&self) -> bool {
        &&& self.upper() <= u64::MAX
        &&& contiguous_from(self.entries_view(), self.offset as int)
        &&& (self.snapshot matches Some(s) ==> s.metadata.index < self.offset)
    }

    pub open spec fn spec_maybe_first_index(&self) -> Option<u64> {
        match self.snapshot {
            Some(s) => Some((s.metadata.index + 1) as u64),
            None => None,
        }
    }

    pub open spec fn spec_maybe_last_index(&self) -> Option<u64> {
        if self.entries@.len() > 0 {
            Some((self.offset + self.entries@.len() - 1) as u64)
        } else {
            match self.snapshot {
                Some(s) => Some(s.metadata.index),
                None => None,
            }
        }
    }

    pub open spec fn spec_maybe_term(&self, idx: u64) -> Option<u64> {
        if idx < self.offset {
            match self.snapshot {
                Some(s) => if idx == s.metadata.index {
                    Some(s.metadata.term)
                } else {
                    None
                },
                None => None,
            }
        } else {
            match self.spec_maybe_last_index() {
                Some(last) => if idx <= last {
                    Some(self.entries@[idx - self.offset].term)
                } else {
                    None
                },
                None => None,
            }
        }
    }

    /// `[lo, hi)` is an ordered range inside the buffered entries.
    pub open spec fn in_bounds(&self, lo: u64, hi: u64) -> bool {
        lo <= hi && self.offset <= lo && hi <= self.upper()
    }

    /// An empty buffer whose next entry will sit at `offset`.
    pub fn new(offset: u64) -> (r: Unstable)
        ensures
            r.offset == offset,
            r.entries@.len() == 0,
            r.snapshot is None,
            r.wf(),
    {
        Unstable { offset, snapshot: None, entries: Vec::new() }
    }

    /// The first log index after the pending snapshot, if there is one.
    pub fn maybe_first_index(&self) -> (r: Option<u64>)
        requires
            self.snapshot matches Some(s) ==> s.metadata.index < u64::MAX,
        ensures
            r == self.spec_maybe_first_index(),
    {
        match &self.snapshot {
            Some(snap) => Some(snap.metadata.index + 1),
            None => None,
        }
    }

    /// The index of the last buffered entry; with no entries, that of the
    /// pending snapshot.
    pub fn maybe_last_index(&self) -> (r: Option<u64>)
        requires
            self.wf(),
        ensures
            r == self.spec_maybe_last_index(),
            self.entries@.len() > 0 ==> r == Some((self.offset + self.entries@.len() - 1) as u64),
    {
        let len = self.entries.len();
        if len == 0 {
            match &self.snapshot {
                Some(snap) => Some(snap.metadata.index),
                None => None,
            }
        } else {
            Some(self.offset + len as u64 - 1)
        }
    }

    /// The term of the entry at `idx`, where the buffer knows it. Below
    /// `offset` only the pending snapshot's own index is known.
    pub fn maybe_term(&self, idx: u64) -> (r: Option<u64>)
        requires
            self.wf(),
        ensures
            r == self.spec_maybe_term(idx),
    {
        if idx < self.offset {
            match &self.snapshot {
                Some(snap) => if idx == snap.metadata.index {
                    Some(snap.metadata.term)
                } else {
                    None
                },
                None => None,
            }
        } else {
            match self.maybe_last_index() {
                Some(last) => if idx <= last {
                    let k: u64 = idx - self.offset;
                    assert(k < self.entries.len());
                    Some(self.entries[k as usize].term)
                } else {
                    None
                },
                None => None,
            }
        }
    }

    /// Marks everything up to `idx` as persisted, provided the buffered term
    /// at `idx` is `term` and `idx` is not below `offset`: the prefix
    /// `[offset, idx]` leaves the buffer and `offset` becomes `idx + 1`.
    /// Otherwise nothing changes.
    pub fn stable_to(&mut self, idx: u64, term: u64)
        requires
            old(self).wf(),
        ensures
            final(self).wf(),
            final(self).snapshot == old(self).snapshot,
            old(self).spec_maybe_term(idx) == Some(term) && idx >= old(self).offset ==> {
                &&& final(self).offset == idx + 1
                &&& final(self).entries@ == old(self).entries@.subrange(
                    idx + 1 - old(self).offset,
                    old(self).entries@.len() as int,
                )
                &&& final(self).entries@.len() == old(self).entries@.len() - (idx + 1
                    - old(self).offset)
            },
            !(old(self).spec_maybe_term(idx) == Some(term) && idx >= old(self).offset)
                ==> *final(self) == *old(self),
    {
        let t = self.maybe_term(idx);
        match t {
            None => {},
            Some(t) => {
                if t == term && idx >= self.offset {
                    let start: u64 = idx + 1 - self.offset;
                    assert(start <= self.entries.len());
                    let rest = self.entries.split_off(start as usize);
                    self.entries = rest;
                    self.offset = idx + 1;
                    assert(contiguous_from(self.entries_view(), self.offset as int)) by {
                        assert forall|i: int| 0 <= i < self.entries_view().len() implies #[trigger] self.entries_view()[i].index
                            == self.offset + i by {
                            assert(self.entries_view()[i] == old(self).entries_view()[i + start]);
                        }
                    }
                }
            },
        }
    }

    /// Drops the pending snapshot once storage holds it, that is when its
    /// index is `idx`.
    pub fn stable_snap_to(&mut self, idx: u64)
        requires
            old(self).wf(),
        ensures
            final(self).wf(),
            final(self).entries == old(self).entries,
            final(self).offset == old(self).offset,
            final(self).snapshot == (match old(self).snapshot {
                Some(s) => if s.metadata.index == idx {
                    None
                } else {
                    Some(s)
                },
                None => None,
            }),
    {
        let hit = match &self.snapshot {
            Some(snap) => snap.metadata.index == idx,
            None => false,
        };
        if hit {
            self.snapshot = None;
        }
    }

    /// Abandons the buffered entries and installs `snap` as the pending
    /// snapshot; the next entry will follow it.
    pub fn restore(&mut self, snap: Snapshot)
        requires
            snap.metadata.index < u64::MAX,
        ensures
            final(self).wf(),
            final(self).entries@.len() == 0,
            final(self).offset == snap.metadata.index + 1,
            final(self).snapshot == Some(snap),
    {
        self.entries.clear();
        self.offset = snap.metadata.index + 1;
        self.snapshot = Some(snap);
    }

    /// Merges a contiguous run of entries into the buffer. Buffered entries
    /// at and after the run's first index are replaced by the run; those
    /// below it stay. When the run starts at or below `offset`, it becomes
    /// the whole buffer and `offset` moves to its first index.
    pub fn truncate_and_append(&mut self, ents: &[Entry])
        requires
            old(self).wf(),
            ents@.len() > 0,
            contiguous_from(ents@.map_values(|e: Entry| e@), ents@[0].index as int),
            ents@[0].index + ents@.len() <= u64::MAX,
            ents@[0].index <= old(self).upper(),
            old(self).snapshot matches Some(s) ==> s.metadata.index < ents@[0].index,
        ensures
            final(self).wf(),
            final(self).snapshot == old(self).snapshot,
            final(self).offset == merged_offset(old(self).offset, ents@[0].index),
            final(self).entries_view() == merged_entries(
                old(self).offset,
                old(self).entries_view(),
                ents@.map_values(|e: Entry| e@),
            ),
    {
        let ghost new_view = ents@.map_values(|e: Entry| e@);
        let ghost old_view = self.entries_view();
        let after = ents[0].index;
        if after == self.offset + self.entries.len() as u64 {
            self.entries.extend_from_slice(ents);
            assert(old_view.take(after - self.offset) =~= old_view);
        } else if after <= self.offset {
            self.offset = after;
            self.entries.clear();
            self.entries.extend_from_slice(ents);
        } else {
            let off = self.offset;
            self.must_check_outofbounds(off, after);
            self.entries.truncate((after - off) as usize);
            self.entries.extend_from_slice(ents);
        }
        assert(self.entries_view() =~= merged_entries(old(self).offset, old_view, new_view));
    }

    /// The buffered entries with indices in `[lo, hi)`.
    pub fn slice(&self, lo: u64, hi: u64) -> (r: &[Entry])
        requires
            self.wf(),
            self.in_bounds(lo, hi),
        ensures
            r@.len() == hi - lo,
            r@ == self.entries@.subrange(lo - self.offset, hi - self.offset),
    {
        self.must_check_outofbounds(lo, hi);
        let off = self.offset;
        assert(hi - off <= self.entries.len());
        slice_subrange(self.entries.as_slice(), (lo - off) as usize, (hi - off) as usize)
    }

    /// How `[lo, hi)` leaves the buffered entries, or `None` when it lies
    /// inside them.
    pub open spec fn spec_bounds_violation(&self, lo: u64, hi: u64) -> Option<SliceBoundsError> {
        if lo > hi {
            Some(SliceBoundsError::Inverted { lo, hi })
        } else if !self.in_bounds(lo, hi) {
            Some(
                SliceBoundsError::OutOfBound { lo, hi, offset: self.offset, upper: self.upper() as u64 },
            )
        } else {
            None
        }
    }

    /// Describes how `[lo, hi)` breaks the buffer's bounds, with the valid
    /// range `[offset, offset + entries.len()]`; `None` when it does not.
    pub fn bounds_violation(&self, lo: u64, hi: u64) -> (r: Option<SliceBoundsError>)
        requires
            self.wf(),
        ensures
            r == self.spec_bounds_violation(lo, hi),
            r is None <==> self.in_bounds(lo, hi),
    {
        if lo > hi {
            return Some(SliceBoundsError::Inverted { lo, hi });
        }
        let upper = self.offset + self.entries.len() as u64;
        if lo < self.offset || hi > upper {
            return Some(SliceBoundsError::OutOfBound { lo, hi, offset: self.offset, upper });
        }
        None
    }

    /// The bounds check shared by `slice` and `truncate_and_append`: `[lo, hi)`
    /// must be an ordered range inside the buffered entries. Any other range
    /// is a caller's bug, ruled out by the precondition; callers that cannot
    /// show it ask [`Unstable::bounds_violation`] first.
    pub fn must_check_outofbounds(&self, lo: u64, hi: u64)
        requires
            self.wf(),
            self.in_bounds(lo, hi),
        ensures
            self.spec_bounds_violation(lo, hi) is None,
    {
        let violation = self.bounds_violation(lo, hi);
        assert(violation is None);
    }
}

/// Merging the same run a second time leaves the buffer as the first merge
/// left it.
pub proof fn lemma_truncate_and_append_idempotent(
    offset: u64,
    entries: Seq<EntryView>,
    ents: Seq<EntryView>,
)
    requires
        ents.len() > 0,
        ents[0].index <= offset + entries.len(),
    ensures
        ({
            let offset1 = merged_offset(offset, ents[0].index);
            let entries1 = merged_entries(offset, entries, ents);
            &&& ents[0].index <= offset1 + entries1.len()
            &&& merged_offset(offset1, ents[0].index) == offset1
            &&& merged_entries(offset1, entries1, ents) == entries1
        }),
{
    let after = ents[0].index;
    let offset1 = merged_offset(offset, after);
    let entries1 = merged_entries(offset, entries, ents);
    if after > offset {
        assert(entries1.take(after - offset1) =~= entries.take(after - offset));
    }
}

} // verus!
