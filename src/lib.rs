//! Log storage core of a Raft node: the unstable in-memory tail, the
//! in-memory reference storage and the composed log view.

pub mod eraftpb;
pub mod errors;
pub mod log_unstable;
pub mod util;
pub mod storage;
pub mod raft;
pub mod raft_log;
