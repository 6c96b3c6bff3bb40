//! Two helpers for a working tree: a work-in-progress commit, and the
//! pruning of local branches whose remote branch is gone.

pub mod prune;
pub mod wip;

pub use crate::git::prune::prune;
pub use crate::git::wip::{ensure_success, wip};
