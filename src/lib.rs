//! Single-owner cleanup: a bracket combinator that pairs acquisition, use and
//! release of a resource, and a scope guard that runs a deferred action once.
pub mod bracketing;
pub mod scope_guard;

pub use bracketing::bracket;
pub use scope_guard::{make_scope_guard, GuardState, ScopeGuard};
