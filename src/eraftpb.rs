//! The records the log core handles. Only `index`, `term` and the snapshot
//! metadata are inspected; payloads are carried through untouched.
use vstd::prelude::*;

verus! {

/// One unit of the replicated log.
#[derive(Debug)]
pub struct Entry {
    pub index: u64,
    pub term: u64,
    pub data: Vec<u8>,
}

/// Mathematical model of an [`Entry`].
pub struct EntryView {
    pub index: u64,
    pub term: u64,
    pub data: Seq<u8>,
}

impl View for Entry {
    type V = EntryView;

    open spec fn view(&self) -> EntryView {
        EntryView { index: self.index, term: self.term, data: self.data@ }
    }
}

impl Clone for Entry {
    fn clone(&self) -> (r: Self)
        ensures
            r@ == self@,
    {
        let data = self.data.clone();
        assert(data@ =~= self.data@);
        Entry { index: self.index, term: self.term, data }
    }
}

impl Default for Entry {
    fn default() -> (r: Self)
        ensures
            r.index == 0,
            r.term == 0,
            r.data@.len() == 0,
    {
        Entry { index: 0, term: 0, data: Vec::new() }
    }
}

/// Durable consensus state: current term, vote and commit index.
#[derive(Debug, Clone, Copy, PartialEq, Eq, Structural)]
pub struct HardState {
    pub term: u64,
    pub vote: u64,
    pub commit: u64,
}

impl Default for HardState {
    fn default() -> (r: Self)
        ensures
            r == (HardState { term: 0, vote: 0, commit: 0 }),
    {
        HardState { term: 0, vote: 0, commit: 0 }
    }
}

/// Cluster membership: voters and learners.
#[derive(Debug)]
pub struct ConfState {
    pub voters: Vec<u64>,
    pub learners: Vec<u64>,
}

/// Mathematical model of a [`ConfState`].
pub struct ConfStateView {
    pub voters: Seq<u64>,
    pub learners: Seq<u64>,
}

impl View for ConfState {
    type V = ConfStateView;

    open spec fn view(&self) -> ConfStateView {
        ConfStateView { voters: self.voters@, learners: self.learners@ }
    }
}

impl ConfState {
    /// True of the empty membership, which is what `default` builds.
    pub open spec fn spec_is_empty(&self) -> bool {
        self.voters@.len() == 0 && self.learners@.len() == 0
    }

    pub fn is_empty(&self) -> (r: bool)
        ensures
            r == self.spec_is_empty(),
    {
        self.voters.len() == 0 && self.learners.len() == 0
    }
}

impl Clone for ConfState {
    fn clone(&self) -> (r: Self)
        ensures
            r@ == self@,
    {
        let voters = self.voters.clone();
        let learners = self.learners.clone();
        assert(voters@ =~= self.voters@);
        assert(learners@ =~= self.learners@);
        ConfState { voters, learners }
    }
}

impl Default for ConfState {
    fn default() -> (r: Self)
        ensures
            r.spec_is_empty(),
    {
        ConfState { voters: Vec::new(), learners: Vec::new() }
    }
}

/// Where a snapshot ends: the last index and term it covers, and the
/// membership at that point.
#[derive(Debug)]
pub struct SnapshotMetadata {
    pub conf_state: ConfState,
    pub index: u64,
    pub term: u64,
}

/// Mathematical model of a [`SnapshotMetadata`].
pub struct SnapshotMetadataView {
    pub conf_state: ConfStateView,
    pub index: u64,
    pub term: u64,
}

impl View for SnapshotMetadata {
    type V = SnapshotMetadataView;

    open spec fn view(&self) -> SnapshotMetadataView {
        SnapshotMetadataView { conf_state: self.conf_state@, index: self.index, term: self.term }
    }
}

impl Clone for SnapshotMetadata {
    fn clone(&self) -> (r: Self)
        ensures
            r@ == self@,
    {
        SnapshotMetadata { conf_state: self.conf_state.clone(), index: self.index, term: self.term }
    }
}

impl Default for SnapshotMetadata {
    fn default() -> (r: Self)
        ensures
            r.index == 0,
            r.term == 0,
            r.conf_state.spec_is_empty(),
    {
        SnapshotMetadata { conf_state: ConfState::default(), index: 0, term: 0 }
    }
}

/// A compacted prefix of the log.
#[derive(Debug)]
pub struct Snapshot {
    pub data: Vec<u8>,
    pub metadata: SnapshotMetadata,
}

impl Default for Snapshot {
    fn default() -> (r: Self)
        ensures
            r.data@.len() == 0,
            r.metadata.index == 0,
            r.metadata.term == 0,
            r.metadata.conf_state.spec_is_empty(),
    {
        Snapshot { data: Vec::new(), metadata: SnapshotMetadata::default() }
    }
}

} // verus!
