use raft_core::eraftpb::{Entry, Snapshot, SnapshotMetadata};
use raft_core::raft::{SoftState, StateRole, INVALID_ID, INVALID_INDEX};
use raft_core::raft_log::RaftLog;
use raft_core::storage::MemStorageCore;

fn new_entry(index: u64, term: u64) -> Entry {
    let mut e = Entry::default();
    e.index = index;
    e.term = term;
    e
}

fn new_snapshot(index: u64, term: u64) -> Snapshot {
    let mut snapshot = Snapshot::default();
    let mut metadata = SnapshotMetadata::default();
    metadata.index = index;
    metadata.term = term;
    snapshot.metadata = metadata;
    snapshot
}

#[test]
fn raft_log_new_starts_after_store() {
    let mut core = MemStorageCore::default();
    core.apply_snapshot(new_snapshot(4, 1)).unwrap();
    core.append(&[new_entry(5, 1), new_entry(6, 1)]).unwrap();
    let log = RaftLog::new(core).unwrap();
    assert_eq!(log.committed, 4);
    assert_eq!(log.applied, 4);
    assert_eq!(log.unstable.offset, 7);
    assert!(log.unstable.entries.is_empty());
    assert!(log.unstable.snapshot.is_none());
}

#[test]
fn raft_log_with_indices_sets_watermarks() {
    let log = RaftLog::with_indices(MemStorageCore::default(), 8, 12);
    assert_eq!(log.committed, 7);
    assert_eq!(log.applied, 7);
    assert_eq!(log.unstable.offset, 13);
    assert!(log.unstable.entries.is_empty());
    assert!(log.unstable.snapshot.is_none());
}

#[test]
fn raft_log_new_on_fresh_store() {
    let log = RaftLog::new(MemStorageCore::default()).unwrap();
    assert_eq!(log.committed, 0);
    assert_eq!(log.applied, 0);
    assert_eq!(log.unstable.offset, 1);
}

#[test]
fn raft_log_to_string() {
    let mut core = MemStorageCore::default();
    core.apply_snapshot(new_snapshot(41, 1)).unwrap();
    let mut log = RaftLog::new(core).unwrap();
    log.unstable.truncate_and_append(&[new_entry(42, 1), new_entry(43, 1)]);
    assert_eq!(
        log.to_string(),
        "commited=41, applied=41, unstable.offset=42, unstable.entries.len()=2"
    );
    log.applied = 0;
    log.committed = 1234567890;
    assert_eq!(
        log.to_string(),
        "commited=1234567890, applied=0, unstable.offset=42, unstable.entries.len()=2"
    );
}

#[test]
fn state_role_defaults_to_follower() {
    assert_eq!(StateRole::default(), StateRole::Follower);
    let s = SoftState::default();
    assert_eq!(s, SoftState { leader_id: INVALID_ID, raft_state: StateRole::Follower });
    assert_eq!(INVALID_INDEX, 0);
}

fn log_over_5_6() -> RaftLog<MemStorageCore> {
    let mut core = MemStorageCore::default();
    core.apply_snapshot(new_snapshot(4, 1)).unwrap();
    core.append(&[new_entry(5, 1), new_entry(6, 1)]).unwrap();
    RaftLog::new(core).unwrap()
}

#[test]
fn raft_log_indices_route_to_store_then_unstable() {
    let mut log = log_over_5_6();
    assert_eq!(log.first_index(), Ok(5));
    assert_eq!(log.last_index(), Ok(6));
    assert_eq!(log.append(&[new_entry(7, 2), new_entry(8, 2)]), 8);
    assert_eq!(log.last_index(), Ok(8));
    assert_eq!(log.first_index(), Ok(5));
}

#[test]
fn raft_log_term_routes_by_offset() {
    let mut log = log_over_5_6();
    log.append(&[new_entry(7, 2)]);
    assert_eq!(log.term(4), Ok(1));
    assert_eq!(log.term(6), Ok(1));
    assert_eq!(log.term(7), Ok(2));
    assert_eq!(log.term(3), Err(raft_core::errors::Error::Store(raft_core::errors::StorageError::EntryCompacted)));
    assert_eq!(log.term(9), Err(raft_core::errors::Error::Store(raft_core::errors::StorageError::Unavailable)));
}

#[test]
fn raft_log_append_replaces_uncommitted_tail() {
    let mut log = log_over_5_6();
    log.append(&[new_entry(7, 2), new_entry(8, 2), new_entry(9, 2)]);
    assert_eq!(log.append(&[new_entry(8, 3)]), 8);
    assert_eq!(log.term(8), Ok(3));
    assert_eq!(log.term(9), Err(raft_core::errors::Error::Store(raft_core::errors::StorageError::Unavailable)));
    assert_eq!(log.unstable.offset, 7);
}

#[test]
fn raft_log_commit_and_apply_move_forward() {
    let mut log = log_over_5_6();
    log.commit_to(6);
    assert_eq!(log.committed, 6);
    log.commit_to(5);
    assert_eq!(log.committed, 6);
    log.applied_to(5);
    assert_eq!(log.applied, 5);
    log.applied_to(0);
    assert_eq!(log.applied, 5);
    log.applied_to(6);
    assert_eq!(log.applied, 6);
}

#[test]
fn raft_log_stable_to_and_stable_snap_to() {
    let mut log = log_over_5_6();
    log.append(&[new_entry(7, 2), new_entry(8, 2)]);
    log.stable_to(7, 1);
    assert_eq!(log.unstable.offset, 7);
    log.stable_to(7, 2);
    assert_eq!(log.unstable.offset, 8);
    assert_eq!(log.unstable.entries.len(), 1);
    log.unstable.restore(new_snapshot(20, 3));
    assert_eq!(log.first_index(), Ok(21));
    assert_eq!(log.last_index(), Ok(20));
    log.stable_snap_to(20);
    assert!(log.unstable.snapshot.is_none());
}
