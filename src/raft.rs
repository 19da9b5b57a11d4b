//! Node roles and the state a consensus driver keeps around the log.
use vstd::prelude::*;

use crate::raft_log::RaftLog;
use crate::storage::Storage;

verus! {

/// The role of the node.
#[derive(Debug, PartialEq, Eq, Structural, Clone, Copy)]
pub enum StateRole {
    /// The node is a follower of the leader.
    Follower,
    /// The node could become a leader.
    Candidate,
    /// The node is a leader.
    Leader,
    /// The node could become a candidate, if `prevote` is enabled.
    PreCandidate,
}

impl Default for StateRole {
    /// A node starts as a follower.
    fn default() -> (r: StateRole)
        ensures
            r == StateRole::Follower,
    {
        StateRole::Follower
    }
}

/// State that is useful for logging and debugging. It is volatile and never
/// written to the log.
#[derive(PartialEq, Eq, Structural, Debug)]
pub struct SoftState {
    /// The leader known to this node.
    pub leader_id: u64,
    /// This node's role.
    pub raft_state: StateRole,
}

impl Default for SoftState {
    fn default() -> (r: SoftState)
        ensures
            r == (SoftState { leader_id: INVALID_ID, raft_state: StateRole::Follower }),
    {
        SoftState { leader_id: INVALID_ID, raft_state: StateRole::default() }
    }
}

/// A linearizable read request that has been answered at a log index.
#[derive(Debug)]
pub struct ReadState {
    /// Commit index at the time the read was requested.
    pub index: u64,
    /// Opaque context of the request.
    pub request_ctx: Vec<u8>,
}

/// The consensus state of one node around its log.
pub struct Raft<T: Storage> {
    /// Current term.
    pub term: u64,
    /// The peer this node voted for in the current term.
    pub vote: u64,
    /// This node's ID.
    pub id: u64,
    /// Reads that can be served.
    pub read_states: Vec<ReadState>,
    /// The node's log.
    pub raft_log: RaftLog<T>,
    /// Maximum number of messages in flight to one peer.
    pub max_inflight: usize,
    /// Maximum size of one append message.
    pub max_msg_size: u64,
    /// Index a peer asked a snapshot for.
    pub pending_request_snapshot: u64,
}

/// An ID that names no node.
pub const INVALID_ID: u64 = 0;

/// A log index that names no entry.
pub const INVALID_INDEX: u64 = 0;

} // verus!
