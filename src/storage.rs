//! The storage contract and its in-memory reference implementation.
use vstd::prelude::*;

use crate::eraftpb::{ConfState, ConfStateView, Entry, EntryView, HardState, Snapshot, SnapshotMetadata};
use crate::errors::{Error, Result, StorageError};
use crate::log_unstable::contiguous_from;
use crate::util::{limit_size, size_limited};

verus! {

/// What a node recovers on start: its hard state and membership, and a
/// membership change that may be in flight.
#[derive(Debug)]
pub struct RaftState {
    /// Term, vote and commit index.
    pub hard_state: HardState,
    /// Current membership.
    pub conf_state: ConfState,
    /// The membership a two-phase change is moving to, if one is in flight.
    pub pending_conf_state: Option<ConfState>,
    /// Log index at which that change began.
    pub pending_conf_state_start_index: Option<u64>,
}

/// Mathematical model of a [`RaftState`].
pub struct RaftStateView {
    pub hard_state: HardState,
    pub conf_state: ConfStateView,
    pub pending_conf_state: Option<ConfStateView>,
    pub pending_conf_state_start_index: Option<u64>,
}

impl View for RaftState {
    type V = RaftStateView;

    open spec fn view(&self) -> RaftStateView {
        RaftStateView {
            hard_state: self.hard_state,
            conf_state: self.conf_state@,
            pending_conf_state: match self.pending_conf_state {
                Some(c) => Some(c@),
                None => None,
            },
            pending_conf_state_start_index: self.pending_conf_state_start_index,
        }
    }
}

impl Clone for RaftState {
    fn clone(&self) -> (r: Self)
        ensures
            r@ == self@,
    {
        let pending_conf_state = match &self.pending_conf_state {
            Some(c) => Some(c.clone()),
            None => None,
        };
        RaftState {
            hard_state: self.hard_state,
            conf_state: self.conf_state.clone(),
            pending_conf_state,
            pending_conf_state_start_index: self.pending_conf_state_start_index,
        }
    }
}

impl Default for RaftState {
    fn default() -> (r: Self)
        ensures
            r.hard_state == (HardState { term: 0, vote: 0, commit: 0 }),
            r.conf_state.spec_is_empty(),
            r.pending_conf_state is None,
            r.pending_conf_state_start_index is None,
    {
        RaftState {
            hard_state: HardState::default(),
            conf_state: ConfState::default(),
            pending_conf_state: None,
            pending_conf_state_start_index: None,
        }
    }
}

impl RaftState {
    /// A state with the given hard state and membership and no change in
    /// flight.
    pub fn new(hard_state: HardState, conf_state: ConfState) -> (r: RaftState)
        ensures
            r.hard_state == hard_state,
            r.conf_state == conf_state,
            r.pending_conf_state is None,
            r.pending_conf_state_start_index is None,
    {
        RaftState {
            hard_state,
            conf_state,
            pending_conf_state: None,
            pending_conf_state_start_index: None,
        }
    }

    /// A state is initialized once it has a membership other than the empty
    /// default one.
    pub fn initialized(&self) -> (r: bool)
        ensures
            r == !self.conf_state.spec_is_empty(),
    {
        !self.conf_state.is_empty()
    }
}

/// A durable log backend.
pub trait Storage {
    /// The backend's own consistency condition.
    spec fn inv(&self) -> bool;

    /// Index of the first entry still available (one past the last
    /// compacted index).
    spec fn spec_first_index(&self) -> u64;

    /// Index of the last entry.
    spec fn spec_last_index(&self) -> u64;

    /// Hard state and membership to start from.
    fn initial_state(&self) -> (r: Result<RaftState>)
        requires
            self.inv(),
    ;

    /// Entries in `[low, high)`, in order. With `max_size` the payloads
    /// returned add up to at most that many bytes, but at least one entry
    /// comes back when the range is not empty.
    fn entries(&self, low: u64, high: u64, max_size: Option<u64>) -> (r: Result<Vec<Entry>>)
        requires
            self.inv(),
            low <= high,
            high <= self.spec_last_index() + 1,
        ensures
            r matches Ok(v) ==> {
                &&& v@.len() <= high - low
                &&& contiguous_from(v@.map_values(|e: Entry| e@), low as int)
                &&& low < high ==> v@.len() >= 1
                &&& max_size is None ==> v@.len() == high - low
            },
    ;

    /// Term of the entry at `idx`. Fails with `EntryCompacted` below the
    /// retained range and with `Unavailable` beyond the last index.
    fn term(&self, idx: u64) -> (r: Result<u64>)
        requires
            self.inv(),
        ensures
            idx + 1 < self.spec_first_index() ==> r is Err,
            idx > self.spec_last_index() ==> r is Err,
            r == Err::<u64, Error>(Error::Store(StorageError::EntryCompacted)) ==> idx + 1
                < self.spec_first_index(),
            r == Err::<u64, Error>(Error::Store(StorageError::Unavailable)) ==> idx
                > self.spec_last_index(),
    ;

    /// Index of the first available entry; a fresh store answers 1.
    fn first_index(&self) -> (r: Result<u64>)
        requires
            self.inv(),
        ensures
            r matches Ok(i) ==> i == self.spec_first_index(),
            1 <= self.spec_first_index() <= self.spec_last_index() + 1,
    ;

    /// Index of the last entry.
    fn last_index(&self) -> (r: Result<u64>)
        requires
            self.inv(),
        ensures
            r matches Ok(i) ==> i == self.spec_last_index(),
            self.spec_last_index() < u64::MAX,
    ;

    /// A snapshot covering at least `request_index`. Fails with
    /// `SnapshotTemporarilyUnavailable` when none can be produced now.
    fn snapshot(&self, request_index: u64) -> (r: Result<Snapshot>)
        requires
            self.inv(),
        ensures
            r matches Ok(s) ==> s.metadata.index >= request_index,
    ;
}

/// The state behind the in-memory store. `entries[i]` sits at log index
/// `snapshot_metadata.index + 1 + i`.
pub struct MemStorageCore {
    pub raft_state: RaftState,
    pub entries: Vec<Entry>,
    /// Metadata of the last snapshot applied.
    pub snapshot_metadata: SnapshotMetadata,
    /// When set, `snapshot` reports `SnapshotTemporarilyUnavailable`.
    pub trigger_snap_unavailable: bool,
}

impl Default for MemStorageCore {
    fn default() -> (r: Self)
        ensures
            r.wf(),
            r.raft_state.hard_state == (HardState { term: 0, vote: 0, commit: 0 }),
            r.raft_state.conf_state.spec_is_empty(),
            r.raft_state.pending_conf_state is None,
            r.raft_state.pending_conf_state_start_index is None,
            r.entries@.len() == 0,
            r.snapshot_metadata.index == 0,
            r.snapshot_metadata.conf_state.spec_is_empty(),
            r.snapshot_metadata.term == 0,
            !r.trigger_snap_unavailable,
    {
        MemStorageCore {
            raft_state: RaftState::default(),
            entries: Vec::new(),
            snapshot_metadata: SnapshotMetadata::default(),
            trigger_snap_unavailable: false,
        }
    }
}

impl MemStorageCore {
    /// The stored entries as a sequence of models.
    pub open spec fn entries_view(&self) -> Seq<EntryView> {
        self.entries@.map_values(|e: Entry| e@)
    }

    /// Entries follow the snapshot contiguously and the last index leaves
    /// room for one more.
    pub open spec fn wf(&self) -> bool {
        &&& contiguous_from(self.entries_view(), self.snapshot_metadata.index + 1)
        &&& self.snapshot_metadata.index + self.entries@.len() < u64::MAX
    }

    /// True when the store holds an entry at `index`.
    pub open spec fn spec_has_entry_at(&self, index: u64) -> bool {
        self.entries@.len() > 0 && self.spec_first_index() <= index <= self.spec_last_index()
    }

    /// Term of the stored entry at `index`.
    pub open spec fn spec_term_at(&self, index: u64) -> u64 {
        self.entries@[index - self.spec_first_index()].term
    }

    pub fn set_hardstate(&mut self, hs: HardState)
        ensures
            final(self).raft_state.hard_state == hs,
            final(self).raft_state.conf_state == old(self).raft_state.conf_state,
            final(self).raft_state.pending_conf_state == old(self).raft_state.pending_conf_state,
            final(self).raft_state.pending_conf_state_start_index == old(
                self,
            ).raft_state.pending_conf_state_start_index,
            final(self).entries == old(self).entries,
            final(self).snapshot_metadata == old(self).snapshot_metadata,
            final(self).trigger_snap_unavailable == old(self).trigger_snap_unavailable,
    {
        self.raft_state.hard_state = hs;
    }

    pub fn hard_state(&self) -> (r: &HardState)
        ensures
            *r == self.raft_state.hard_state,
    {
        &self.raft_state.hard_state
    }

    pub fn mut_hard_state(&mut self) -> (r: &mut HardState)
        ensures
            *r == old(self).raft_state.hard_state,
            final(self).raft_state.hard_state == *final(r),
            final(self).raft_state.conf_state == old(self).raft_state.conf_state,
            final(self).raft_state.pending_conf_state == old(self).raft_state.pending_conf_state,
            final(self).raft_state.pending_conf_state_start_index == old(
                self,
            ).raft_state.pending_conf_state_start_index,
            final(self).entries == old(self).entries,
            final(self).snapshot_metadata == old(self).snapshot_metadata,
            final(self).trigger_snap_unavailable == old(self).trigger_snap_unavailable,
    {
        &mut self.raft_state.hard_state
    }

    /// Records `index` as committed, with the term of the entry there. The
    /// entry must be held by the store.
    pub fn commit_to(&mut self, index: u64) -> (r: Result<()>)
        requires
            old(self).wf(),
            old(self).spec_has_entry_at(index),
        ensures
            r is Ok,
            final(self).raft_state.hard_state == (HardState {
                commit: index,
                term: old(self).spec_term_at(index),
                vote: old(self).raft_state.hard_state.vote,
            }),
            final(self).raft_state.conf_state == old(self).raft_state.conf_state,
            final(self).raft_state.pending_conf_state == old(self).raft_state.pending_conf_state,
            final(self).raft_state.pending_conf_state_start_index == old(
                self,
            ).raft_state.pending_conf_state_start_index,
            final(self).entries == old(self).entries,
            final(self).snapshot_metadata == old(self).snapshot_metadata,
            final(self).trigger_snap_unavailable == old(self).trigger_snap_unavailable,
    {
        assert(self.entries_view()[0].index == self.entries@[0].index);
        let d: u64 = index - self.entries[0].index;
        assert(d < self.entries.len());
        let diff = d as usize;
        self.raft_state.hard_state.commit = index;
        self.raft_state.hard_state.term = self.entries[diff].term;
        Ok(())
    }

    /// Replaces the membership and, when given, records the change in
    /// flight with the index it began at.
    pub fn set_conf_state(&mut self, cs: ConfState, pending_membership_change: Option<(ConfState, u64)>)
        ensures
            final(self).raft_state.conf_state == cs,
            final(self).raft_state.hard_state == old(self).raft_state.hard_state,
            match pending_membership_change {
                Some((pcs, idx)) => {
                    &&& final(self).raft_state.pending_conf_state == Some(pcs)
                    &&& final(self).raft_state.pending_conf_state_start_index == Some(idx)
                },
                None => {
                    &&& final(self).raft_state.pending_conf_state
                        == old(self).raft_state.pending_conf_state
                    &&& final(self).raft_state.pending_conf_state_start_index == old(
                        self,
                    ).raft_state.pending_conf_state_start_index
                },
            },
            final(self).entries == old(self).entries,
            final(self).snapshot_metadata == old(self).snapshot_metadata,
            final(self).trigger_snap_unavailable == old(self).trigger_snap_unavailable,
    {
        self.raft_state.conf_state = cs;
        if let Some((pcs, idx)) = pending_membership_change {
            self.raft_state.pending_conf_state = Some(pcs);
            self.raft_state.pending_conf_state_start_index = Some(idx);
        }
    }

    pub fn has_entry_at(&self, index: u64) -> (r: bool)
        requires
            self.wf(),
        ensures
            r == self.spec_has_entry_at(index),
    {
        self.entries.len() > 0 && index >= self.first_index() && index <= self.last_index()
    }

    /// The first entry's index; with no entries, one past the snapshot.
    pub fn first_index(&self) -> (r: u64)
        requires
            self.wf(),
        ensures
            r == self.spec_first_index(),
            self.entries@.len() > 0 ==> r == self.entries@[0].index,
    {
        if self.entries.len() > 0 {
            assert(self.entries_view()[0].index == self.entries@[0].index);
            self.entries[0].index
        } else {
            self.snapshot_metadata.index + 1
        }
    }

    /// The last entry's index; with no entries, the snapshot's.
    pub fn last_index(&self) -> (r: u64)
        requires
            self.wf(),
        ensures
            r == self.spec_last_index(),
            self.entries@.len() > 0 ==> r == self.entries@.last().index,
    {
        let n = self.entries.len();
        if n > 0 {
            assert(self.entries_view()[n - 1].index == self.entries@[n - 1].index);
            self.entries[n - 1].index
        } else {
            self.snapshot_metadata.index
        }
    }

    /// Installs `snapshot`: its metadata becomes the store's and the entries
    /// it covers are dropped. Fails with `SnapshotOutOfDate`, changing
    /// nothing, when it lies below the first index.
    pub fn apply_snapshot(&mut self, snapshot: Snapshot) -> (r: Result<()>)
        requires
            old(self).wf(),
            snapshot.metadata.index < u64::MAX,
        ensures
            final(self).wf(),
            snapshot.metadata.index < old(self).spec_first_index() ==> {
                &&& r == Err::<(), Error>(Error::Store(StorageError::SnapshotOutOfDate))
                &&& *final(self) == *old(self)
            },
            snapshot.metadata.index >= old(self).spec_first_index() ==> {
                &&& r is Ok
                &&& final(self).snapshot_metadata == snapshot.metadata
                &&& final(self).entries@.len() == 0
                &&& final(self).raft_state == old(self).raft_state
                &&& final(self).trigger_snap_unavailable == old(self).trigger_snap_unavailable
            },
    {
        let Snapshot { data: _, metadata } = snapshot;
        if self.first_index() > metadata.index {
            return Err(Error::Store(StorageError::SnapshotOutOfDate));
        }
        self.snapshot_metadata = metadata;
        self.entries.clear();
        Ok(())
    }

    /// Appends a contiguous run of entries, replacing the stored ones at and
    /// after its first index. The run may not start below the first index
    /// nor leave a gap after the last one.
    pub fn append(&mut self, ents: &[Entry]) -> (r: Result<()>)
        requires
            old(self).wf(),
            contiguous_from(ents@.map_values(|e: Entry| e@), ents@[0].index as int),
            ents@.len() > 0 ==> {
                &&& old(self).spec_first_index() <= ents@[0].index
                &&& ents@[0].index <= old(self).spec_last_index() + 1
                &&& ents@[0].index + ents@.len() < u64::MAX
            },
        ensures
            r is Ok,
            final(self).wf(),
            final(self).raft_state == old(self).raft_state,
            final(self).snapshot_metadata == old(self).snapshot_metadata,
            final(self).trigger_snap_unavailable == old(self).trigger_snap_unavailable,
            ents@.len() == 0 ==> final(self).entries == old(self).entries,
            ents@.len() > 0 ==> final(self).entries_view() == old(self).entries_view().take(
                ents@[0].index - old(self).spec_first_index(),
            ) + ents@.map_values(|e: Entry| e@),
    {
        if ents.len() == 0 {
            return Ok(());
        }
        let ghost old_view = self.entries_view();
        let first = self.first_index();
        let keep = (ents[0].index - first) as usize;
        self.entries.truncate(keep);
        self.entries.extend_from_slice(ents);
        assert(self.entries_view() =~= old_view.take(keep as int) + ents@.map_values(
            |e: Entry| e@,
        ));
        Ok(())
    }

    /// Makes the next `snapshot` request fail as temporarily unavailable.
    pub fn trigger_snap_unavailable(&mut self)
        ensures
            final(self).trigger_snap_unavailable,
            final(self).raft_state == old(self).raft_state,
            final(self).entries == old(self).entries,
            final(self).snapshot_metadata == old(self).snapshot_metadata,
    {
        self.trigger_snap_unavailable = true;
    }

    /// Term of the entry at `idx` as the store answers it: the snapshot's
    /// own index is still known, older ones are compacted, later ones do not
    /// exist yet.
    pub open spec fn spec_term(&self, idx: u64) -> Result<u64> {
        if idx == self.snapshot_metadata.index {
            Ok(self.snapshot_metadata.term)
        } else if idx < self.spec_first_index() {
            Err(Error::Store(StorageError::EntryCompacted))
        } else if idx > self.spec_last_index() {
            Err(Error::Store(StorageError::Unavailable))
        } else {
            Ok(self.spec_term_at(idx))
        }
    }
}

impl Storage for MemStorageCore {
    open spec fn inv(&self) -> bool {
        self.wf()
    }

    open spec fn spec_first_index(&self) -> u64 {
        (self.snapshot_metadata.index + 1) as u64
    }

    open spec fn spec_last_index(&self) -> u64 {
        (self.snapshot_metadata.index + self.entries@.len()) as u64
    }

    fn initial_state(&self) -> (r: Result<RaftState>)
        ensures
            r matches Ok(s) && s@ == self.raft_state@,
    {
        Ok(self.raft_state.clone())
    }

    fn entries(&self, low: u64, high: u64, max_size: Option<u64>) -> (r: Result<Vec<Entry>>)
        ensures
            low <= self.snapshot_metadata.index ==> r == Err::<Vec<Entry>, Error>(
                Error::Store(StorageError::EntryCompacted),
            ),
            low > self.snapshot_metadata.index ==> (r matches Ok(v) && size_limited(
                self.entries_view().subrange(
                    low - self.spec_first_index(),
                    high - self.spec_first_index(),
                ),
                max_size,
                v@.map_values(|e: Entry| e@),
            )),
    {
        if low <= self.snapshot_metadata.index {
            return Err(Error::Store(StorageError::EntryCompacted));
        }
        let first = MemStorageCore::first_index(self);
        let lo64: u64 = low - first;
        let hi64: u64 = high - first;
        assert(lo64 <= hi64 && hi64 <= self.entries.len());
        let lo = lo64 as usize;
        let hi = hi64 as usize;
        let ghost wanted = self.entries_view().subrange(lo as int, hi as int);
        let mut out: Vec<Entry> = Vec::new();
        let mut i: usize = lo;
        while i < hi
            invariant
                lo <= i <= hi <= self.entries@.len(),
                out@.map_values(|e: Entry| e@) == self.entries_view().subrange(lo as int, i as int),
            decreases hi - i,
        {
            let ghost before = out@.map_values(|e: Entry| e@);
            out.push(self.entries[i].clone());
            i = i + 1;
            assert(before == self.entries_view().subrange(lo as int, i - 1));
            assert(out@.map_values(|e: Entry| e@) =~= self.entries_view().subrange(
                lo as int,
                i as int,
            ));
        }
        limit_size(&mut out, max_size);
        proof {
            let kept = out@.map_values(|e: Entry| e@);
            assert(size_limited(wanted, max_size, kept));
            assert(kept == wanted.take(kept.len() as int));
            assert forall|j: int| 0 <= j < kept.len() implies #[trigger] kept[j].index == low + j by {
                assert(kept[j] == wanted[j]);
                assert(wanted[j] == self.entries_view()[lo + j]);
            }
        }
        Ok(out)
    }

    fn term(&self, idx: u64) -> (r: Result<u64>)
        ensures
            r == self.spec_term(idx),
    {
        if idx == self.snapshot_metadata.index {
            return Ok(self.snapshot_metadata.term);
        }
        let first = MemStorageCore::first_index(self);
        if idx < first {
            return Err(Error::Store(StorageError::EntryCompacted));
        }
        if idx > MemStorageCore::last_index(self) {
            return Err(Error::Store(StorageError::Unavailable));
        }
        let d: u64 = idx - first;
        assert(d < self.entries.len());
        Ok(self.entries[d as usize].term)
    }

    fn first_index(&self) -> (r: Result<u64>) {
        Ok(MemStorageCore::first_index(self))
    }

    fn last_index(&self) -> (r: Result<u64>) {
        Ok(MemStorageCore::last_index(self))
    }

    fn snapshot(&self, request_index: u64) -> (r: Result<Snapshot>)
        ensures
            self.trigger_snap_unavailable || self.snapshot_metadata.index < request_index ==> r
                == Err::<Snapshot, Error>(Error::Store(StorageError::SnapshotTemporarilyUnavailable)),
            !(self.trigger_snap_unavailable || self.snapshot_metadata.index < request_index)
                ==> (r matches Ok(s) && s.metadata@ == self.snapshot_metadata@ && s.data@.len() == 0),
    {
        if self.trigger_snap_unavailable || self.snapshot_metadata.index < request_index {
            return Err(Error::Store(StorageError::SnapshotTemporarilyUnavailable));
        }
        Ok(Snapshot { data: Vec::new(), metadata: self.snapshot_metadata.clone() })
    }
}

} // verus!
