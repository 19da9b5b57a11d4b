use raft_core::eraftpb::{ConfState, Entry, HardState, Snapshot, SnapshotMetadata};
use raft_core::errors::{Error, StorageError};
use raft_core::storage::{MemStorageCore, RaftState, Storage};
use raft_core::util::{limit_size, NO_LIMIT};

fn new_entry(index: u64, term: u64) -> Entry {
    let mut e = Entry::default();
    e.index = index;
    e.term = term;
    e
}

fn sized_entry(index: u64, term: u64, size: usize) -> Entry {
    let mut e = new_entry(index, term);
    e.data = vec![0; size];
    e
}

fn new_snapshot(index: u64, term: u64) -> Snapshot {
    let mut snapshot = Snapshot::default();
    let mut metadata = SnapshotMetadata::default();
    metadata.index = index;
    metadata.term = term;
    snapshot.metadata = metadata;
    snapshot
}

/// A store holding a snapshot at 4 and entries 5 and 6 of term 1.
fn store_5_6() -> MemStorageCore {
    let mut core = MemStorageCore::default();
    assert_eq!(core.apply_snapshot(new_snapshot(4, 1)), Ok(()));
    assert_eq!(core.append(&[new_entry(5, 1), new_entry(6, 1)]), Ok(()));
    core
}

fn indices(v: &[Entry]) -> Vec<u64> {
    v.iter().map(|e| e.index).collect()
}

#[test]
fn commit_to_records_index_and_term() {
    let mut core = store_5_6();
    assert_eq!(core.commit_to(6), Ok(()));
    assert_eq!(core.hard_state().commit, 6);
    assert_eq!(core.hard_state().term, 1);
}

#[test]
fn commit_to_takes_term_of_that_entry() {
    let mut core = store_5_6();
    core.append(&[new_entry(6, 2), new_entry(7, 3)]).unwrap();
    core.commit_to(6).unwrap();
    assert_eq!(*core.hard_state(), HardState { term: 2, vote: 0, commit: 6 });
    core.commit_to(7).unwrap();
    assert_eq!(*core.hard_state(), HardState { term: 3, vote: 0, commit: 7 });
}

#[test]
fn has_entry_at_matches_range() {
    let core = store_5_6();
    assert!(!core.has_entry_at(4));
    assert!(core.has_entry_at(5));
    assert!(core.has_entry_at(6));
    assert!(!core.has_entry_at(10));
    assert!(!MemStorageCore::default().has_entry_at(0));
}

#[test]
fn first_and_last_index() {
    let core = store_5_6();
    assert_eq!(core.first_index(), 5);
    assert_eq!(core.last_index(), 6);
    let fresh = MemStorageCore::default();
    assert!(fresh.raft_state.pending_conf_state_start_index.is_none());
    assert!(fresh.snapshot_metadata.conf_state.voters.is_empty());
    assert_eq!(fresh.first_index(), 1);
    assert_eq!(fresh.last_index(), 0);
    assert_eq!(Storage::first_index(&fresh), Ok(1));
    assert_eq!(Storage::last_index(&fresh), Ok(0));
}

#[test]
fn set_hardstate_and_mut_hard_state() {
    let mut core = MemStorageCore::default();
    core.set_hardstate(HardState { term: 3, vote: 2, commit: 1 });
    assert_eq!(*core.hard_state(), HardState { term: 3, vote: 2, commit: 1 });
    core.mut_hard_state().vote = 7;
    assert_eq!(*core.hard_state(), HardState { term: 3, vote: 7, commit: 1 });
}

#[test]
fn set_conf_state_records_pending_change() {
    let mut core = MemStorageCore::default();
    let cs = ConfState { voters: vec![1, 2, 3], learners: vec![] };
    core.set_conf_state(cs, None);
    assert_eq!(core.raft_state.conf_state.voters, vec![1, 2, 3]);
    assert!(core.raft_state.pending_conf_state.is_none());
    let next = ConfState { voters: vec![1, 2, 3, 4], learners: vec![5] };
    core.set_conf_state(ConfState { voters: vec![1, 2], learners: vec![] }, Some((next, 9)));
    assert_eq!(core.raft_state.conf_state.voters, vec![1, 2]);
    let pending = core.raft_state.pending_conf_state.as_ref().unwrap();
    assert_eq!(pending.voters, vec![1, 2, 3, 4]);
    assert_eq!(pending.learners, vec![5]);
    assert_eq!(core.raft_state.pending_conf_state_start_index, Some(9));
    core.set_conf_state(ConfState { voters: vec![1], learners: vec![] }, None);
    assert_eq!(core.raft_state.pending_conf_state_start_index, Some(9));
}

#[test]
fn raft_state_new_and_initialized() {
    let rs = RaftState::new(HardState { term: 1, vote: 1, commit: 0 }, ConfState::default());
    assert!(!rs.initialized());
    assert!(rs.pending_conf_state.is_none());
    assert!(rs.pending_conf_state_start_index.is_none());
    let rs = RaftState::new(HardState::default(), ConfState { voters: vec![1], learners: vec![] });
    assert!(rs.initialized());
    let rs = RaftState::new(HardState::default(), ConfState { voters: vec![], learners: vec![2] });
    assert!(rs.initialized());
    assert!(!RaftState::default().initialized());
}

#[test]
fn apply_snapshot_out_of_date() {
    let mut core = store_5_6();
    assert_eq!(
        core.apply_snapshot(new_snapshot(3, 1)),
        Err(Error::Store(StorageError::SnapshotOutOfDate))
    );
    assert_eq!(core.first_index(), 5);
    assert_eq!(core.last_index(), 6);
}

#[test]
fn apply_snapshot_compacts_entries() {
    let mut core = store_5_6();
    assert_eq!(core.apply_snapshot(new_snapshot(8, 2)), Ok(()));
    assert_eq!(core.first_index(), 9);
    assert_eq!(core.last_index(), 8);
    assert!(core.entries.is_empty());
    assert_eq!(core.term(8), Ok(2));
}

#[test]
fn append_replaces_conflicting_tail() {
    let mut core = store_5_6();
    core.append(&[new_entry(6, 2), new_entry(7, 2)]).unwrap();
    assert_eq!(indices(&core.entries), vec![5, 6, 7]);
    assert_eq!(core.term(6), Ok(2));
    core.append(&[]).unwrap();
    assert_eq!(core.last_index(), 7);
}

#[test]
fn term_answers_by_range() {
    let core = store_5_6();
    assert_eq!(core.term(4), Ok(1));
    assert_eq!(core.term(3), Err(Error::Store(StorageError::EntryCompacted)));
    assert_eq!(core.term(5), Ok(1));
    assert_eq!(core.term(6), Ok(1));
    assert_eq!(core.term(7), Err(Error::Store(StorageError::Unavailable)));
}

#[test]
fn entries_returns_range() {
    let core = store_5_6();
    assert_eq!(indices(&core.entries(5, 7, None).unwrap()), vec![5, 6]);
    assert_eq!(indices(&core.entries(6, 7, None).unwrap()), vec![6]);
    assert!(core.entries(5, 5, None).unwrap().is_empty());
    assert_eq!(
        core.entries(4, 7, None).map(|v| indices(&v)),
        Err(Error::Store(StorageError::EntryCompacted))
    );
}

#[test]
fn entries_respects_max_size() {
    let mut core = MemStorageCore::default();
    core.append(&[sized_entry(1, 1, 10), sized_entry(2, 1, 10), sized_entry(3, 1, 10)])
        .unwrap();
    assert_eq!(indices(&core.entries(1, 4, Some(25)).unwrap()), vec![1, 2]);
    assert_eq!(indices(&core.entries(1, 4, Some(30)).unwrap()), vec![1, 2, 3]);
    assert_eq!(indices(&core.entries(1, 4, Some(0)).unwrap()), vec![1]);
    assert_eq!(indices(&core.entries(1, 4, Some(5)).unwrap()), vec![1]);
    assert_eq!(indices(&core.entries(1, 4, Some(NO_LIMIT)).unwrap()), vec![1, 2, 3]);
}

#[test]
fn limit_size_keeps_fitting_prefix() {
    let mut v = vec![sized_entry(1, 1, 4), sized_entry(2, 1, 4), sized_entry(3, 1, 4)];
    limit_size(&mut v, Some(8));
    assert_eq!(indices(&v), vec![1, 2]);
    let mut v = vec![sized_entry(1, 1, 100)];
    limit_size(&mut v, Some(1));
    assert_eq!(indices(&v), vec![1]);
    let mut v: Vec<Entry> = vec![];
    limit_size(&mut v, Some(1));
    assert!(v.is_empty());
    let mut v = vec![sized_entry(1, 1, 4), sized_entry(2, 1, 4)];
    limit_size(&mut v, None);
    assert_eq!(indices(&v), vec![1, 2]);
}

#[test]
fn snapshot_availability() {
    let mut core = store_5_6();
    let snap = core.snapshot(4).unwrap();
    assert_eq!((snap.metadata.index, snap.metadata.term), (4, 1));
    assert_eq!(
        core.snapshot(5).map(|s| s.metadata.index),
        Err(Error::Store(StorageError::SnapshotTemporarilyUnavailable))
    );
    core.trigger_snap_unavailable();
    assert_eq!(
        core.snapshot(0).map(|s| s.metadata.index),
        Err(Error::Store(StorageError::SnapshotTemporarilyUnavailable))
    );
}

#[test]
fn initial_state_reports_raft_state() {
    let mut core = store_5_6();
    core.set_hardstate(HardState { term: 4, vote: 3, commit: 5 });
    core.set_conf_state(ConfState { voters: vec![3], learners: vec![] }, None);
    let rs = core.initial_state().unwrap();
    assert_eq!(rs.hard_state, HardState { term: 4, vote: 3, commit: 5 });
    assert_eq!(rs.conf_state.voters, vec![3]);
    assert!(rs.initialized());
}
