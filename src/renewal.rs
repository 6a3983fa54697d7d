use vstd::prelude::*;
use crate::lease::{
    sample_renewal_sleep, renewal_sleep_range, sleep_ceiling, sleep_floor, LockLease,
    LockRequest,
};
use crate::retry::{delay_within, RetryPolicy};

verus! {

/// First delay of every retry campaign, in milliseconds.
pub const INITIAL_RETRY_INTERVAL_MS: u64 = 2;

/// Cap on a single retry delay, in milliseconds.
pub const MAX_RETRY_INTERVAL_MS: u64 = 20000;

/// A failure reported by the catalog for an extend or delete call.
#[derive(Clone, Debug, PartialEq, Eq)]
pub enum CatalogError {
    /// The service has already reclaimed the revision; retrying is futile.
    LockExpired(String),
    /// Any other failure; worth retrying.
    Transient(String),
}

/// Why a lease was lost or could not be released.
#[derive(Clone, Debug, PartialEq, Eq)]
pub enum LockError {
    /// A catalog failure, passed on as it came.
    Catalog(CatalogError),
    /// The retry budget ran out; holds the last failure seen.
    RetryExhausted(CatalogError),
}

/// What happened since the task last asked for something.
#[derive(Clone, Debug, PartialEq, Eq)]
pub enum Event {
    /// The renewal wait ran its full length.
    IntervalElapsed,
    /// The shutdown signal fired (it may have cut a wait short).
    ShutdownFired,
    ExtendSucceeded,
    ExtendFailed(CatalogError),
    /// A retry delay ran its full length.
    BackoffElapsed,
    DeleteSucceeded,
    DeleteFailed(CatalogError),
}

/// What the task asks its driver to do next.
#[derive(Clone, Debug, PartialEq, Eq)]
pub enum Action {
    /// Wait this many milliseconds, or less if shutdown fires first.
    WaitInterval(u64),
    /// Call the catalog to extend the lease.
    Extend,
    /// Wait this many milliseconds before extending again, or less if
    /// shutdown fires first.
    WaitBackoff(u64),
    /// Call the catalog to delete the lease's revision.
    Delete,
    /// Wait this many milliseconds before deleting again.
    PauseBeforeDelete(u64),
    /// Force-abort the owning query with this error; the task is over and
    /// the revision is left to expire.
    Abort(LockError),
    /// The revision was deleted; the task is over.
    Released,
    /// Deletion gave up; the task is over. The error is reported, never
    /// escalated to the owning query.
    ReleaseFailed(LockError),
    /// Nothing to do for this event.
    Idle,
}

/// Where the task stands.
#[derive(Clone, Copy, Debug, PartialEq, Eq, Structural)]
pub enum Phase {
    /// A renewal wait is pending.
    Waiting,
    /// An extend call is in flight.
    Extending,
    /// A retry delay before the next extend call is pending.
    BackingOff,
    /// A delete call is in flight.
    Releasing,
    /// A retry delay before the next delete call is pending.
    ReleasePause,
    Terminated,
}

/// The task's state as the contracts see it.
pub struct RenewalState {
    pub phase: Phase,
    pub shutdown_requested: bool,
    /// Length of the last renewal sleep, in milliseconds.
    pub sleep_ms: u64,
    pub ttl_ms: u64,
    /// Elapsed-time budget of the current retry campaign.
    pub budget_ms: Option<u64>,
}

impl RenewalState {
    pub open spec fn wf(self) -> bool {
        self.sleep_ms <= self.ttl_ms
    }
}

/// The state once the task turns to releasing the lease: a fresh retry
/// campaign bounded by the full ttl.
pub open spec fn releasing(s: RenewalState) -> RenewalState {
    RenewalState {
        phase: Phase::Releasing,
        shutdown_requested: true,
        budget_ms: Some(s.ttl_ms),
        ..s
    }
}

pub open spec fn with_phase(s: RenewalState, phase: Phase) -> RenewalState {
    RenewalState { phase, ..s }
}

/// One transition of the renewal protocol. `sleep` is the renewal sleep
/// drawn when a new wait begins, `delay` what the retry campaign yielded
/// after a failure (`None` once its budget is spent); each is read only
/// where the transition needs it.
pub open spec fn next(s: RenewalState, e: Event, sleep: u64, delay: Option<u64>) -> (
    RenewalState,
    Action,
) {
    match e {
        Event::ShutdownFired => match s.phase {
            Phase::Waiting | Phase::BackingOff => (releasing(s), Action::Delete),
            _ => (RenewalState { shutdown_requested: true, ..s }, Action::Idle),
        },
        Event::IntervalElapsed => match s.phase {
            Phase::Waiting => (
                RenewalState {
                    phase: Phase::Extending,
                    budget_ms: Some((s.ttl_ms - s.sleep_ms) as u64),
                    ..s
                },
                Action::Extend,
            ),
            _ => (s, Action::Idle),
        },
        Event::ExtendSucceeded => match s.phase {
            Phase::Extending => if s.shutdown_requested {
                (releasing(s), Action::Delete)
            } else {
                (
                    RenewalState { phase: Phase::Waiting, sleep_ms: sleep, ..s },
                    Action::WaitInterval(sleep),
                )
            },
            _ => (s, Action::Idle),
        },
        Event::ExtendFailed(err) => match s.phase {
            Phase::Extending => match err {
                CatalogError::LockExpired(_) => (
                    with_phase(s, Phase::Terminated),
                    Action::Abort(LockError::Catalog(err)),
                ),
                CatalogError::Transient(_) => match delay {
                    None => (
                        with_phase(s, Phase::Terminated),
                        Action::Abort(LockError::RetryExhausted(err)),
                    ),
                    Some(d) => if s.shutdown_requested {
                        (releasing(s), Action::Delete)
                    } else {
                        (with_phase(s, Phase::BackingOff), Action::WaitBackoff(d))
                    },
                },
            },
            _ => (s, Action::Idle),
        },
        Event::BackoffElapsed => match s.phase {
            Phase::BackingOff => (with_phase(s, Phase::Extending), Action::Extend),
            Phase::ReleasePause => (with_phase(s, Phase::Releasing), Action::Delete),
            _ => (s, Action::Idle),
        },
        Event::DeleteSucceeded => match s.phase {
            Phase::Releasing => (with_phase(s, Phase::Terminated), Action::Released),
            _ => (s, Action::Idle),
        },
        Event::DeleteFailed(err) => match s.phase {
            Phase::Releasing => match delay {
                None => (
                    with_phase(s, Phase::Terminated),
                    Action::ReleaseFailed(LockError::RetryExhausted(err)),
                ),
                Some(d) => (with_phase(s, Phase::ReleasePause), Action::PauseBeforeDelete(d)),
            },
            _ => (s, Action::Idle),
        },
    }
}

/// The transition draws a new renewal sleep.
pub open spec fn needs_sleep(s: RenewalState, e: Event) -> bool {
    s.phase == Phase::Extending && e is ExtendSucceeded && !s.shutdown_requested
}

/// The transition asks the retry campaign for its next delay.
pub open spec fn needs_delay(s: RenewalState, e: Event) -> bool {
    (s.phase == Phase::Extending && e matches Event::ExtendFailed(CatalogError::Transient(_)))
        || (s.phase == Phase::Releasing && e is DeleteFailed)
}

/// The values drawn for a transition are ones the outside sources can give:
/// a sleep within `[ttl/3, ttl*2/3]`, a delay within the campaign's budget.
pub open spec fn draws_fit(s: RenewalState, sleep: u64, delay: Option<u64>) -> bool {
    &&& sleep_floor(s.ttl_ms as nat) <= sleep <= sleep_ceiling(s.ttl_ms as nat)
    &&& delay_within(delay, s.budget_ms)
}

/// The background task that keeps one lease alive: it decides, event by
/// event, what its driver does next, and holds the retry campaign under way.
pub struct RenewalTask {
    lease: LockLease,
    phase: Phase,
    shutdown_requested: bool,
    sleep_ms: u64,
    retry: RetryPolicy,
}

impl View for RenewalTask {
    type V = RenewalState;

    closed spec fn view(&self) -> RenewalState {
        RenewalState {
            phase: self.phase,
            shutdown_requested: self.shutdown_requested,
            sleep_ms: self.sleep_ms,
            ttl_ms: self.lease.ttl_ms,
            budget_ms: self.retry.budget(),
        }
    }
}

impl RenewalTask {
    /// The lease being renewed.
    pub closed spec fn spec_lease(&self) -> LockLease {
        self.lease
    }

    /// Begins renewing the lease granted for `req` under `revision`: the
    /// task waits a sleep drawn from `[ttl/3, ttl*2/3]` before its first
    /// extension.
    pub fn start(owner_query_id: String, req: LockRequest, revision: u64) -> (r: (RenewalTask, Action))
        ensures
            r.0.spec_lease() == (LockLease {
                lock_key: req.lock_key,
                revision,
                ttl_ms: req.ttl_ms,
                owner_query_id,
            }),
            r.0@.phase == Phase::Waiting,
            !r.0@.shutdown_requested,
            r.0@.ttl_ms == req.ttl_ms,
            (r.0@.budget_ms is None),
            sleep_floor(req.ttl_ms as nat) <= r.0@.sleep_ms <= sleep_ceiling(req.ttl_ms as nat),
            r.0@.wf(),
            r.1 == Action::WaitInterval(r.0@.sleep_ms),
    {
        let lease = LockLease::new(owner_query_id, req, revision);
        let sleep = sample_renewal_sleep(req.ttl_ms);
        let retry = RetryPolicy::new(INITIAL_RETRY_INTERVAL_MS, MAX_RETRY_INTERVAL_MS, None);
        let task = RenewalTask {
            lease,
            phase: Phase::Waiting,
            shutdown_requested: false,
            sleep_ms: sleep,
            retry,
        };
        (task, Action::WaitInterval(sleep))
    }

    /// The lease being renewed.
    pub fn lease(&self) -> (r: &LockLease)
        ensures
            *r == self.spec_lease(),
            r.ttl_ms == self@.ttl_ms,
    {
        &self.lease
    }

    /// Where the task stands.
    pub fn phase(&self) -> (r: Phase)
        ensures
            r == self@.phase,
    {
        self.phase
    }

    /// Whether the task has ended.
    pub fn is_terminated(&self) -> (r: bool)
        ensures
            r == (self@.phase == Phase::Terminated),
    {
        self.phase == Phase::Terminated
    }

    /// Moves to releasing with a fresh campaign bounded by the ttl.
    fn begin_release(&mut self)
        ensures
            final(self)@ == releasing(old(self)@),
            final(self).spec_lease() == old(self).spec_lease(),
    {
        self.phase = Phase::Releasing;
        self.shutdown_requested = true;
        self.retry = RetryPolicy::new(
            INITIAL_RETRY_INTERVAL_MS,
            MAX_RETRY_INTERVAL_MS,
            Some(self.lease.ttl_ms),
        );
    }

    /// Takes one event, with the sleep and delay drawn for it, and returns
    /// what to do next. The drawn values are arguments here, so the result
    /// is fixed for each of them.
    pub fn apply(&mut self, event: Event, sleep_ms: u64, delay_ms: Option<u64>) -> (r: Action)
        requires
            old(self)@.wf(),
            sleep_floor(old(self)@.ttl_ms as nat) <= sleep_ms <= sleep_ceiling(
                old(self)@.ttl_ms as nat,
            ),
        ensures
            (final(self)@, r) == next(old(self)@, event, sleep_ms, delay_ms),
            final(self)@.wf(),
            final(self).spec_lease() == old(self).spec_lease(),
    {
        match event {
            Event::ShutdownFired => {
                if self.phase == Phase::Waiting || self.phase == Phase::BackingOff {
                    self.begin_release();
                    Action::Delete
                } else {
                    self.shutdown_requested = true;
                    Action::Idle
                }
            },
            Event::IntervalElapsed => {
                if self.phase == Phase::Waiting {
                    self.phase = Phase::Extending;
                    self.retry = RetryPolicy::new(
                        INITIAL_RETRY_INTERVAL_MS,
                        MAX_RETRY_INTERVAL_MS,
                        Some(self.lease.ttl_ms - self.sleep_ms),
                    );
                    Action::Extend
                } else {
                    Action::Idle
                }
            },
            Event::ExtendSucceeded => {
                if self.phase == Phase::Extending {
                    if self.shutdown_requested {
                        self.begin_release();
                        Action::Delete
                    } else {
                        self.phase = Phase::Waiting;
                        self.sleep_ms = sleep_ms;
                        Action::WaitInterval(sleep_ms)
                    }
                } else {
                    Action::Idle
                }
            },
            Event::ExtendFailed(err) => {
                if self.phase == Phase::Extending {
                    match err {
                        CatalogError::LockExpired(_) => {
                            self.phase = Phase::Terminated;
                            Action::Abort(LockError::Catalog(err))
                        },
                        CatalogError::Transient(_) => {
                            match delay_ms {
                                None => {
                                    self.phase = Phase::Terminated;
                                    Action::Abort(LockError::RetryExhausted(err))
                                },
                                Some(d) => {
                                    if self.shutdown_requested {
                                        self.begin_release();
                                        Action::Delete
                                    } else {
                                        self.phase = Phase::BackingOff;
                                        Action::WaitBackoff(d)
                                    }
                                },
                            }
                        },
                    }
                } else {
                    Action::Idle
                }
            },
            Event::BackoffElapsed => {
                if self.phase == Phase::BackingOff {
                    self.phase = Phase::Extending;
                    Action::Extend
                } else if self.phase == Phase::ReleasePause {
                    self.phase = Phase::Releasing;
                    Action::Delete
                } else {
                    Action::Idle
                }
            },
            Event::DeleteSucceeded => {
                if self.phase == Phase::Releasing {
                    self.phase = Phase::Terminated;
                    Action::Released
                } else {
                    Action::Idle
                }
            },
            Event::DeleteFailed(err) => {
                if self.phase == Phase::Releasing {
                    match delay_ms {
                        None => {
                            self.phase = Phase::Terminated;
                            Action::ReleaseFailed(LockError::RetryExhausted(err))
                        },
                        Some(d) => {
                            self.phase = Phase::ReleasePause;
                            Action::PauseBeforeDelete(d)
                        },
                    }
                } else {
                    Action::Idle
                }
            },
        }
    }

    /// Takes one event and returns what to do next, drawing a renewal sleep
    /// or asking the retry campaign for a delay where the transition needs
    /// one. Whatever was drawn, the step is a transition of the protocol on
    /// values the outside sources can give.
    pub fn step(&mut self, event: Event) -> (r: Action)
        requires
            old(self)@.wf(),
        ensures
            exists|sleep: u64, delay: Option<u64>|
                #![trigger next(old(self)@, event, sleep, delay)]
                draws_fit(old(self)@, sleep, delay) && (final(self)@, r) == next(
                    old(self)@,
                    event,
                    sleep,
                    delay,
                ),
            final(self)@.wf(),
            final(self).spec_lease() == old(self).spec_lease(),
    {
        let ghost s0 = self@;
        let ttl = self.lease.ttl_ms;
        let wants_sleep = self.phase == Phase::Extending && !self.shutdown_requested
            && matches!(event, Event::ExtendSucceeded);
        let wants_delay = (self.phase == Phase::Extending && matches!(
            event,
            Event::ExtendFailed(CatalogError::Transient(_))
        )) || (self.phase == Phase::Releasing && matches!(event, Event::DeleteFailed(_)));
        let sleep = if wants_sleep {
            sample_renewal_sleep(ttl)
        } else {
            renewal_sleep_range(ttl).0
        };
        let delay = if wants_delay {
            self.retry.next_delay()
        } else {
            None
        };
        let r = self.apply(event, sleep, delay);
        assert(draws_fit(s0, sleep, delay));
        r
    }
}

} // verus!
