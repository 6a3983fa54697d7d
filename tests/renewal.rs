use lock_lease::lease::{
    renewal_sleep_range, sample_renewal_sleep, LockKey, LockLease, LockRequest, LockType,
};
use lock_lease::renewal::{Action, CatalogError, Event, LockError, Phase, RenewalTask};

fn request(ttl_ms: u64) -> LockRequest {
    LockRequest { lock_key: LockKey { lock_type: LockType::Table, table_id: 42 }, ttl_ms }
}

fn started(ttl_ms: u64) -> RenewalTask {
    let (task, action) = RenewalTask::start("q1".to_string(), request(ttl_ms), 7);
    assert!(matches!(action, Action::WaitInterval(_)));
    task
}

fn transient(m: &str) -> CatalogError {
    CatalogError::Transient(m.to_string())
}

#[test]
fn sleep_range_is_a_third_to_two_thirds() {
    assert_eq!(renewal_sleep_range(3000), (1000, 2000));
    assert_eq!(renewal_sleep_range(10), (3, 6));
    assert_eq!(renewal_sleep_range(11), (3, 7));
    assert_eq!(renewal_sleep_range(1), (0, 0));
    assert_eq!(renewal_sleep_range(0), (0, 0));
    assert_eq!(renewal_sleep_range(u64::MAX), (6148914691236517205, 12297829382473034410));
}

#[test]
fn sampled_sleeps_stay_in_range() {
    for ttl in [0u64, 1, 2, 3, 10, 3000, 60_000, u64::MAX] {
        let (lo, hi) = renewal_sleep_range(ttl);
        for _ in 0..200 {
            let s = sample_renewal_sleep(ttl);
            assert!(lo <= s && s <= hi, "ttl {} sleep {}", ttl, s);
        }
    }
}

#[test]
fn start_waits_a_sampled_interval() {
    let (task, action) = RenewalTask::start("q1".to_string(), request(3000), 7);
    match action {
        Action::WaitInterval(ms) => assert!((1000..=2000).contains(&ms)),
        other => panic!("unexpected {:?}", other),
    }
    assert_eq!(task.phase(), Phase::Waiting);
    assert!(!task.is_terminated());
    let lease = task.lease();
    assert_eq!(lease.revision, 7);
    assert_eq!(lease.ttl_ms, 3000);
    assert_eq!(lease.owner_query_id, "q1");
    assert_eq!(lease.lock_key.table_id, 42);
}

#[test]
fn lease_requests_carry_key_and_revision() {
    let lease = LockLease::new("q9".to_string(), request(500), 11);
    let ext = lease.extend_request();
    assert_eq!(ext.lock_key, request(500).lock_key);
    assert_eq!(ext.revision, 11);
    assert_eq!(ext.ttl_ms, 500);
    assert!(!ext.acquire_if_missing);
    let del = lease.delete_request();
    assert_eq!(del.revision, 11);
    assert_eq!(del.lock_key.table_id, 42);
}

#[test]
fn successful_renewals_then_shutdown_delete_once() {
    let mut task = started(3000);
    let mut deletes = 0;
    for _ in 0..5 {
        assert_eq!(task.step(Event::IntervalElapsed), Action::Extend);
        match task.step(Event::ExtendSucceeded) {
            Action::WaitInterval(ms) => assert!((1000..=2000).contains(&ms)),
            other => panic!("unexpected {:?}", other),
        }
    }
    let a = task.step(Event::ShutdownFired);
    assert_eq!(a, Action::Delete);
    deletes += 1;
    assert_eq!(task.step(Event::DeleteSucceeded), Action::Released);
    assert!(task.is_terminated());
    for e in [Event::ShutdownFired, Event::IntervalElapsed, Event::BackoffElapsed] {
        let a = task.step(e);
        assert_eq!(a, Action::Idle);
        if a == Action::Delete {
            deletes += 1;
        }
    }
    assert_eq!(deletes, 1);
}

#[test]
fn expired_lease_aborts_and_never_deletes() {
    let mut task = started(3000);
    assert_eq!(task.step(Event::IntervalElapsed), Action::Extend);
    let err = CatalogError::LockExpired("lock expired".to_string());
    assert_eq!(
        task.step(Event::ExtendFailed(err.clone())),
        Action::Abort(LockError::Catalog(err))
    );
    assert!(task.is_terminated());
    assert_eq!(task.step(Event::ShutdownFired), Action::Idle);
    assert_eq!(task.step(Event::DeleteSucceeded), Action::Idle);
}

#[test]
fn transient_failures_then_success_extend_k_plus_one_times() {
    let mut task = started(60_000);
    let mut extends = 0;
    assert_eq!(task.step(Event::IntervalElapsed), Action::Extend);
    extends += 1;
    for i in 0..3 {
        match task.step(Event::ExtendFailed(transient(&format!("busy {}", i)))) {
            Action::WaitBackoff(ms) => assert!(ms <= 60_000),
            other => panic!("unexpected {:?}", other),
        }
        assert_eq!(task.phase(), Phase::BackingOff);
        assert_eq!(task.step(Event::BackoffElapsed), Action::Extend);
        extends += 1;
    }
    assert!(matches!(task.step(Event::ExtendSucceeded), Action::WaitInterval(_)));
    assert_eq!(extends, 4);
    assert_eq!(task.phase(), Phase::Waiting);
}

#[test]
fn first_retry_delay_follows_initial_interval() {
    let mut task = started(60_000);
    task.step(Event::IntervalElapsed);
    match task.step(Event::ExtendFailed(transient("busy"))) {
        // 2 ms with a randomization factor of one half, in whole milliseconds.
        Action::WaitBackoff(ms) => assert!((1..=3).contains(&ms), "delay {}", ms),
        other => panic!("unexpected {:?}", other),
    }
}

#[test]
fn zero_budget_exhausts_at_first_transient_failure() {
    let mut task = started(0);
    assert_eq!(task.step(Event::IntervalElapsed), Action::Extend);
    let err = transient("unavailable");
    assert_eq!(
        task.step(Event::ExtendFailed(err.clone())),
        Action::Abort(LockError::RetryExhausted(err))
    );
    assert!(task.is_terminated());
    assert_eq!(task.step(Event::ShutdownFired), Action::Idle);
}

#[test]
fn exhausted_campaign_aborts_with_last_failure() {
    let mut task = started(3000);
    assert_eq!(task.apply(Event::IntervalElapsed, 1000, None), Action::Extend);
    assert_eq!(task.apply(Event::ExtendFailed(transient("a")), 1000, Some(2)), Action::WaitBackoff(2));
    assert_eq!(task.apply(Event::BackoffElapsed, 1000, None), Action::Extend);
    assert_eq!(
        task.apply(Event::ExtendFailed(transient("b")), 1000, None),
        Action::Abort(LockError::RetryExhausted(transient("b")))
    );
    assert_eq!(task.phase(), Phase::Terminated);
}

#[test]
fn shutdown_twice_is_same_as_once() {
    let mut task = started(3000);
    assert_eq!(task.step(Event::ShutdownFired), Action::Delete);
    assert_eq!(task.phase(), Phase::Releasing);
    assert_eq!(task.step(Event::ShutdownFired), Action::Idle);
    assert_eq!(task.phase(), Phase::Releasing);
    assert_eq!(task.step(Event::DeleteSucceeded), Action::Released);
}

#[test]
fn shutdown_during_backoff_releases() {
    let mut task = started(3000);
    task.apply(Event::IntervalElapsed, 1000, None);
    assert_eq!(task.apply(Event::ExtendFailed(transient("a")), 1000, Some(5)), Action::WaitBackoff(5));
    assert_eq!(task.apply(Event::ShutdownFired, 1000, None), Action::Delete);
    assert_eq!(task.phase(), Phase::Releasing);
}

#[test]
fn shutdown_during_extension_releases_after_it() {
    let mut task = started(3000);
    task.step(Event::IntervalElapsed);
    assert_eq!(task.step(Event::ShutdownFired), Action::Idle);
    assert_eq!(task.phase(), Phase::Extending);
    assert_eq!(task.step(Event::ExtendSucceeded), Action::Delete);

    let mut task = started(3000);
    task.apply(Event::IntervalElapsed, 1000, None);
    task.apply(Event::ShutdownFired, 1000, None);
    assert_eq!(task.apply(Event::ExtendFailed(transient("a")), 1000, Some(3)), Action::Delete);

    let mut task = started(3000);
    task.apply(Event::IntervalElapsed, 1000, None);
    task.apply(Event::ShutdownFired, 1000, None);
    let err = CatalogError::LockExpired("gone".to_string());
    assert_eq!(
        task.apply(Event::ExtendFailed(err.clone()), 1000, Some(3)),
        Action::Abort(LockError::Catalog(err))
    );
}

#[test]
fn deletion_retries_then_succeeds() {
    let mut task = started(60_000);
    assert_eq!(task.step(Event::ShutdownFired), Action::Delete);
    match task.step(Event::DeleteFailed(transient("busy"))) {
        Action::PauseBeforeDelete(ms) => assert!((1..=3).contains(&ms), "delay {}", ms),
        other => panic!("unexpected {:?}", other),
    }
    assert_eq!(task.phase(), Phase::ReleasePause);
    assert_eq!(task.step(Event::ShutdownFired), Action::Idle);
    assert_eq!(task.step(Event::BackoffElapsed), Action::Delete);
    assert_eq!(task.step(Event::DeleteSucceeded), Action::Released);
    assert!(task.is_terminated());
}

#[test]
fn deletion_exhaustion_is_reported_not_escalated() {
    let mut task = started(3000);
    task.apply(Event::ShutdownFired, 1000, None);
    assert_eq!(
        task.apply(Event::DeleteFailed(transient("x")), 1000, None),
        Action::ReleaseFailed(LockError::RetryExhausted(transient("x")))
    );
    assert!(task.is_terminated());

    let mut task = started(0);
    task.step(Event::ShutdownFired);
    assert_eq!(
        task.step(Event::DeleteFailed(transient("y"))),
        Action::ReleaseFailed(LockError::RetryExhausted(transient("y")))
    );
}

#[test]
fn renewal_sleep_after_extension_is_the_drawn_one() {
    let mut task = started(3000);
    task.apply(Event::IntervalElapsed, 1000, None);
    assert_eq!(task.apply(Event::ExtendSucceeded, 1500, None), Action::WaitInterval(1500));
    assert_eq!(task.phase(), Phase::Waiting);
}

#[test]
fn unexpected_events_are_ignored() {
    let mut task = started(3000);
    assert_eq!(task.step(Event::ExtendSucceeded), Action::Idle);
    assert_eq!(task.step(Event::BackoffElapsed), Action::Idle);
    assert_eq!(task.step(Event::DeleteSucceeded), Action::Idle);
    assert_eq!(task.step(Event::DeleteFailed(transient("z"))), Action::Idle);
    assert_eq!(task.step(Event::ExtendFailed(transient("z"))), Action::Idle);
    assert_eq!(task.phase(), Phase::Waiting);
}
