use vstd::prelude::*;
use backoff::backoff::Backoff;
use std::time::Duration;

verus! {

#[verifier::external_type_specification]
#[verifier::external_body]
#[verifier::reject_recursive_types(C)]
pub struct ExExponentialBackoff<C>(backoff::exponential::ExponentialBackoff<C>);

#[verifier::external_type_specification]
#[verifier::external_body]
pub struct ExSystemClock(backoff::SystemClock);

/// A retry campaign: successive delays that grow exponentially from an
/// initial interval, with an optional budget on the time elapsed since the
/// campaign began (`None` means unbounded). Each campaign owns its own
/// clock and cursor.
pub struct RetryPolicy {
    inner: backoff::ExponentialBackoff,
    budget_ms: Option<u64>,
}

impl RetryPolicy {
    /// The elapsed-time budget (milliseconds) the campaign was created with.
    pub closed spec fn budget(&self) -> Option<u64> {
        self.budget_ms
    }

    /// Relies on `backoff::ExponentialBackoffBuilder`: `build` starts the
    /// campaign's clock now, with `max_elapsed_time` set to the budget.
    #[verifier::external_body]
    pub(crate) fn new(initial_ms: u64, max_interval_ms: u64, budget_ms: Option<u64>) -> (r: RetryPolicy)
        ensures
            r.budget() == budget_ms,
    {
        let inner = backoff::ExponentialBackoffBuilder::new()
            .with_initial_interval(Duration::from_millis(initial_ms))
            .with_max_interval(Duration::from_millis(max_interval_ms))
            .with_max_elapsed_time(budget_ms.map(Duration::from_millis))
            .build();
        RetryPolicy { inner, budget_ms }
    }

    /// Relies on `Backoff::next_backoff` of `backoff::ExponentialBackoff`:
    /// without a budget it always yields a delay; with one, a delay is
    /// yielded only when the elapsed time plus that delay stays within the
    /// budget, so the delay itself never exceeds it. Delays are in whole
    /// milliseconds.
    #[verifier::external_body]
    pub(crate) fn next_delay(&mut self) -> (r: Option<u64>)
        ensures
            final(self).budget() == old(self).budget(),
            old(self).budget() is None ==> r is Some,
            delay_within(r, old(self).budget()),
    {
        self.inner.next_backoff().map(|d| d.as_millis() as u64)
    }
}

/// A delay, if any, does not exceed the budget, if any.
pub open spec fn delay_within(delay: Option<u64>, budget: Option<u64>) -> bool {
    match (delay, budget) {
        (Some(d), Some(m)) => d <= m,
        _ => true,
    }
}

} // verus!
