use vstd::prelude::*;
use rand::Rng;

verus! {

/// The kind of resource a lock protects.
#[derive(Clone, Copy, Debug, PartialEq, Eq, Structural)]
pub enum LockType {
    Table,
}

/// Identifies the protected resource: a lock kind and a table identifier.
#[derive(Clone, Copy, Debug, PartialEq, Eq, Structural)]
pub struct LockKey {
    pub lock_type: LockType,
    pub table_id: u64,
}

/// What a caller asks for: a lock on `lock_key`, to be kept alive by
/// renewal before `ttl_ms` elapses.
#[derive(Clone, Copy, Debug, PartialEq, Eq, Structural)]
pub struct LockRequest {
    pub lock_key: LockKey,
    pub ttl_ms: u64,
}

/// One lease granted by the catalog. The revision is fixed for the lease's
/// lifetime: extension refreshes the deadline, not the revision.
#[derive(Clone, Debug, PartialEq, Eq)]
pub struct LockLease {
    pub lock_key: LockKey,
    pub revision: u64,
    pub ttl_ms: u64,
    pub owner_query_id: String,
}

/// Request to push the lease's deadline out by another ttl.
#[derive(Clone, Copy, Debug, PartialEq, Eq, Structural)]
pub struct ExtendRequest {
    pub lock_key: LockKey,
    pub revision: u64,
    pub ttl_ms: u64,
    /// Whether the catalog should take the lock anew when it finds none.
    pub acquire_if_missing: bool,
}

/// Request to remove the lease's revision.
#[derive(Clone, Copy, Debug, PartialEq, Eq, Structural)]
pub struct DeleteRequest {
    pub lock_key: LockKey,
    pub revision: u64,
}

impl LockLease {
    /// The lease granted for `req` under `revision`, held by `owner_query_id`.
    pub fn new(owner_query_id: String, req: LockRequest, revision: u64) -> (r: LockLease)
        ensures
            r.lock_key == req.lock_key,
            r.revision == revision,
            r.ttl_ms == req.ttl_ms,
            r.owner_query_id == owner_query_id,
    {
        LockLease { lock_key: req.lock_key, revision, ttl_ms: req.ttl_ms, owner_query_id }
    }

    /// The extension request for this lease; it never asks the catalog to
    /// take a missing lock anew.
    pub fn extend_request(&self) -> (r: ExtendRequest)
        ensures
            r.lock_key == self.lock_key,
            r.revision == self.revision,
            r.ttl_ms == self.ttl_ms,
            !r.acquire_if_missing,
    {
        ExtendRequest {
            lock_key: self.lock_key,
            revision: self.revision,
            ttl_ms: self.ttl_ms,
            acquire_if_missing: false,
        }
    }

    /// The deletion request for this lease.
    pub fn delete_request(&self) -> (r: DeleteRequest)
        ensures
            r.lock_key == self.lock_key,
            r.revision == self.revision,
    {
        DeleteRequest { lock_key: self.lock_key, revision: self.revision }
    }
}

/// Lower end of the renewal sleep range: a third of the lease's ttl.
pub open spec fn sleep_floor(ttl: nat) -> nat {
    ttl / 3
}

/// Upper end of the renewal sleep range: two thirds of the lease's ttl.
pub open spec fn sleep_ceiling(ttl: nat) -> nat {
    (ttl * 2) / 3
}

/// The range `[ttl/3, ttl*2/3]` (milliseconds) from which each renewal sleep
/// is drawn.
pub fn renewal_sleep_range(ttl_ms: u64) -> (r: (u64, u64))
    ensures
        r.0 == sleep_floor(ttl_ms as nat),
        r.1 == sleep_ceiling(ttl_ms as nat),
        r.0 <= r.1 <= ttl_ms,
{
    let q: u64 = ttl_ms / 3;
    let m: u64 = ttl_ms % 3;
    let hi: u64 = 2 * q + (2 * m) / 3;
    proof {
        let t = ttl_ms as int;
        assert(t == 3 * (q as int) + (m as int));
        assert((t * 2) / 3 == 2 * (q as int) + (2 * (m as int)) / 3) by (nonlinear_arith)
            requires t == 3 * (q as int) + (m as int), 0 <= m < 3;
    }
    (q, hi)
}

/// Relies on `rand::Rng::gen_range` over an inclusive range of `u64`, drawn
/// from the thread-local generator: the value lies within the bounds. It
/// panics on an empty range, which `lo <= hi` rules out.
#[verifier::external_body]
fn uniform_between(lo: u64, hi: u64) -> (r: u64)
    requires
        lo <= hi,
    ensures
        lo <= r <= hi,
{
    rand::thread_rng().gen_range(lo..=hi)
}

/// Draws the duration (milliseconds) of the next renewal sleep for a lease
/// of the given ttl; it always lies in `[ttl/3, ttl*2/3]`.
pub fn sample_renewal_sleep(ttl_ms: u64) -> (r: u64)
    ensures
        sleep_floor(ttl_ms as nat) <= r <= sleep_ceiling(ttl_ms as nat),
        r <= ttl_ms,
{
    let (lo, hi) = renewal_sleep_range(ttl_ms);
    uniform_between(lo, hi)
}

} // verus!
