//! Lifecycle of a lease on a table lock: acquisition bookkeeping, the
//! jittered renewal protocol with bounded retries, and release.

pub mod lease;
pub mod renewal;
pub mod retry;
pub mod trace;
