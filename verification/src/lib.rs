//! Verified core logic of a BitVM2 bridge node: the status machines that the
//! node's persisted rows are meant to follow, the guarded setters that enforce
//! them, and the pure decisions taken by the proving pipeline around them.

pub mod graph_transition;
pub mod instance_bridge_in_transition;
pub mod instance_bridge_out_transition;
pub mod block_proving;
pub mod aggregation;
pub mod persist_report;
pub mod hashing;
