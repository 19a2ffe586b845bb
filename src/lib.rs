//! Lifecycle management of parachain validation code and head data: the
//! current-state tables, the upgrade scheduler, the pruning queue of retired
//! code and the per-session action queue.

pub mod types;
pub mod blob;
pub mod pruning;
pub mod actions;
pub mod paras;
pub mod lemmas;
