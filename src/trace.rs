use vstd::prelude::*;
use crate::lease::{sleep_ceiling, sleep_floor};
use crate::renewal::{next, Action, CatalogError, Event, LockError, Phase, RenewalState};

verus! {

/// One event with the values drawn for it: the renewal sleep and the
/// retry delay (see `next`).
pub type Input = (Event, u64, Option<u64>);

/// Final state and actions after feeding `inputs` one by one.
pub open spec fn run(s: RenewalState, inputs: Seq<Input>) -> (RenewalState, Seq<Action>)
    decreases inputs.len(),
{
    if inputs.len() == 0 {
        (s, Seq::empty())
    } else {
        let first = next(s, inputs[0].0, inputs[0].1, inputs[0].2);
        let rest = run(first.0, inputs.drop_first());
        (rest.0, seq![first.1] + rest.1)
    }
}

/// How many of `acts` satisfy `f`.
pub open spec fn count_where(acts: Seq<Action>, f: spec_fn(Action) -> bool) -> nat
    decreases acts.len(),
{
    if acts.len() == 0 {
        0
    } else {
        (if f(acts[0]) {
            1nat
        } else {
            0nat
        }) + count_where(acts.drop_first(), f)
    }
}

/// Number of extend calls asked for.
pub open spec fn extends(acts: Seq<Action>) -> nat {
    count_where(acts, |a: Action| a is Extend)
}

/// Number of delete calls asked for.
pub open spec fn deletes(acts: Seq<Action>) -> nat {
    count_where(acts, |a: Action| a is Delete)
}

/// Number of force-aborts asked for.
pub open spec fn aborts(acts: Seq<Action>) -> nat {
    count_where(acts, |a: Action| a is Abort)
}

/// `sleeps.len()` renewal rounds, each a full wait and a successful
/// extension after which the next sleep is drawn.
pub open spec fn renewal_rounds(sleeps: Seq<u64>) -> Seq<Input>
    decreases sleeps.len(),
{
    if sleeps.len() == 0 {
        Seq::empty()
    } else {
        seq![(Event::IntervalElapsed, 0u64, None), (Event::ExtendSucceeded, sleeps[0], None)]
            + renewal_rounds(sleeps.drop_first())
    }
}

/// Extension attempts that fail for a transient reason, each followed by
/// the full retry delay that the campaign yielded for it.
pub open spec fn retry_rounds(failures: Seq<(String, u64)>) -> Seq<Input>
    decreases failures.len(),
{
    if failures.len() == 0 {
        Seq::empty()
    } else {
        seq![
            (
                Event::ExtendFailed(CatalogError::Transient(failures[0].0)),
                0u64,
                Some(failures[0].1),
            ),
            (Event::BackoffElapsed, 0u64, None),
        ] + retry_rounds(failures.drop_first())
    }
}

proof fn lemma_count_append(a: Seq<Action>, b: Seq<Action>, f: spec_fn(Action) -> bool)
    ensures
        count_where(a + b, f) == count_where(a, f) + count_where(b, f),
    decreases a.len(),
{
    if a.len() == 0 {
        assert(a + b =~= b);
    } else {
        assert((a + b).drop_first() =~= a.drop_first() + b);
        lemma_count_append(a.drop_first(), b, f);
    }
}

proof fn lemma_count_one(a: Action, f: spec_fn(Action) -> bool)
    ensures
        count_where(seq![a], f) == (if f(a) {
            1nat
        } else {
            0nat
        }),
{
    assert(seq![a].drop_first() =~= Seq::<Action>::empty());
    assert(count_where(Seq::<Action>::empty(), f) == 0);
}

proof fn lemma_run_append(s: RenewalState, a: Seq<Input>, b: Seq<Input>)
    ensures
        run(s, a + b).0 == run(run(s, a).0, b).0,
        run(s, a + b).1 == run(s, a).1 + run(run(s, a).0, b).1,
    decreases a.len(),
{
    if a.len() == 0 {
        assert(a + b =~= b);
        assert(run(s, a).1 + run(s, b).1 =~= run(s, b).1);
    } else {
        let first = next(s, a[0].0, a[0].1, a[0].2);
        assert((a + b).drop_first() =~= a.drop_first() + b);
        assert((a + b)[0] == a[0]);
        lemma_run_append(first.0, a.drop_first(), b);
        let x = run(first.0, a.drop_first()).1;
        let y = run(run(first.0, a.drop_first()).0, b).1;
        assert(seq![first.1] + (x + y) =~= (seq![first.1] + x) + y);
    }
}

proof fn lemma_run_two(s: RenewalState, i: Input, j: Input)
    ensures
        run(s, seq![i, j]).0 == next(next(s, i.0, i.1, i.2).0, j.0, j.1, j.2).0,
        run(s, seq![i, j]).1 == seq![
            next(s, i.0, i.1, i.2).1,
            next(next(s, i.0, i.1, i.2).0, j.0, j.1, j.2).1,
        ],
{
    let s1 = next(s, i.0, i.1, i.2).0;
    assert(seq![i, j].drop_first() =~= seq![j]);
    lemma_run_one(s1, j);
    assert(seq![next(s, i.0, i.1, i.2).1] + seq![next(s1, j.0, j.1, j.2).1] =~= seq![
        next(s, i.0, i.1, i.2).1,
        next(s1, j.0, j.1, j.2).1,
    ]);
}

proof fn lemma_run_one(s: RenewalState, i: Input)
    ensures
        run(s, seq![i]).0 == next(s, i.0, i.1, i.2).0,
        run(s, seq![i]).1 == seq![next(s, i.0, i.1, i.2).1],
{
    let s1 = next(s, i.0, i.1, i.2).0;
    assert(seq![i].drop_first() =~= Seq::<Input>::empty());
    assert(run(s1, Seq::<Input>::empty()).0 == s1);
    assert(seq![next(s, i.0, i.1, i.2).1] + Seq::<Action>::empty() =~= seq![
        next(s, i.0, i.1, i.2).1,
    ]);
}

/// Once terminated, the task asks for nothing more.
proof fn lemma_terminated_is_idle(s: RenewalState, inputs: Seq<Input>)
    requires
        s.phase == Phase::Terminated,
    ensures
        run(s, inputs).0.phase == Phase::Terminated,
        extends(run(s, inputs).1) == 0,
        deletes(run(s, inputs).1) == 0,
        aborts(run(s, inputs).1) == 0,
    decreases inputs.len(),
{
    if inputs.len() > 0 {
        let first = next(s, inputs[0].0, inputs[0].1, inputs[0].2);
        assert(first.1 == Action::Idle);
        lemma_terminated_is_idle(first.0, inputs.drop_first());
        let rest = run(first.0, inputs.drop_first()).1;
        lemma_count_append(seq![first.1], rest, |a: Action| a is Extend);
        lemma_count_append(seq![first.1], rest, |a: Action| a is Delete);
        lemma_count_append(seq![first.1], rest, |a: Action| a is Abort);
        lemma_count_one(first.1, |a: Action| a is Extend);
        lemma_count_one(first.1, |a: Action| a is Delete);
        lemma_count_one(first.1, |a: Action| a is Abort);
    }
}

proof fn lemma_run_len(s: RenewalState, inputs: Seq<Input>)
    ensures
        run(s, inputs).1.len() == inputs.len(),
        run(s, inputs).0.ttl_ms == s.ttl_ms,
    decreases inputs.len(),
{
    if inputs.len() > 0 {
        let first = next(s, inputs[0].0, inputs[0].1, inputs[0].2);
        lemma_run_len(first.0, inputs.drop_first());
    }
}

proof fn lemma_counts_append(a: Seq<Action>, b: Seq<Action>)
    ensures
        extends(a + b) == extends(a) + extends(b),
        deletes(a + b) == deletes(a) + deletes(b),
        aborts(a + b) == aborts(a) + aborts(b),
{
    lemma_count_append(a, b, |a: Action| a is Extend);
    lemma_count_append(a, b, |a: Action| a is Delete);
    lemma_count_append(a, b, |a: Action| a is Abort);
}

proof fn lemma_counts_one(a: Action)
    ensures
        extends(seq![a]) == (if a is Extend {
            1nat
        } else {
            0nat
        }),
        deletes(seq![a]) == (if a is Delete {
            1nat
        } else {
            0nat
        }),
        aborts(seq![a]) == (if a is Abort {
            1nat
        } else {
            0nat
        }),
{
    lemma_count_one(a, |a: Action| a is Extend);
    lemma_count_one(a, |a: Action| a is Delete);
    lemma_count_one(a, |a: Action| a is Abort);
}

proof fn lemma_counts_two(a: Action, b: Action)
    ensures
        extends(seq![a, b]) == extends(seq![a]) + extends(seq![b]),
        deletes(seq![a, b]) == deletes(seq![a]) + deletes(seq![b]),
        aborts(seq![a, b]) == aborts(seq![a]) + aborts(seq![b]),
{
    assert(seq![a, b] =~= seq![a] + seq![b]);
    lemma_counts_append(seq![a], seq![b]);
}

proof fn lemma_counts_empty()
    ensures
        extends(Seq::empty()) == 0,
        deletes(Seq::empty()) == 0,
        aborts(Seq::empty()) == 0,
{
}

proof fn lemma_renewal_rounds(s: RenewalState, sleeps: Seq<u64>)
    requires
        s.phase == Phase::Waiting,
        !s.shutdown_requested,
    ensures
        run(s, renewal_rounds(sleeps)).0.phase == Phase::Waiting,
        !run(s, renewal_rounds(sleeps)).0.shutdown_requested,
        run(s, renewal_rounds(sleeps)).1.len() == 2 * sleeps.len(),
        extends(run(s, renewal_rounds(sleeps)).1) == sleeps.len(),
        deletes(run(s, renewal_rounds(sleeps)).1) == 0,
        aborts(run(s, renewal_rounds(sleeps)).1) == 0,
    decreases sleeps.len(),
{
    if sleeps.len() == 0 {
        lemma_counts_empty();
    } else {
        let i: Input = (Event::IntervalElapsed, 0u64, None);
        let j: Input = (Event::ExtendSucceeded, sleeps[0], None);
        let rest = renewal_rounds(sleeps.drop_first());
        lemma_run_append(s, seq![i, j], rest);
        lemma_run_two(s, i, j);
        let s2 = run(s, seq![i, j]).0;
        lemma_renewal_rounds(s2, sleeps.drop_first());
        let first = run(s, seq![i, j]).1;
        lemma_counts_two(first[0], first[1]);
        lemma_counts_one(first[0]);
        lemma_counts_one(first[1]);
        lemma_counts_append(first, run(s2, rest).1);
    }
}

proof fn lemma_retry_rounds(s: RenewalState, failures: Seq<(String, u64)>)
    requires
        s.phase == Phase::Extending,
        !s.shutdown_requested,
    ensures
        run(s, retry_rounds(failures)).0.phase == Phase::Extending,
        !run(s, retry_rounds(failures)).0.shutdown_requested,
        run(s, retry_rounds(failures)).1.len() == 2 * failures.len(),
        extends(run(s, retry_rounds(failures)).1) == failures.len(),
        deletes(run(s, retry_rounds(failures)).1) == 0,
        aborts(run(s, retry_rounds(failures)).1) == 0,
    decreases failures.len(),
{
    if failures.len() == 0 {
        lemma_counts_empty();
    } else {
        let i: Input = (
            Event::ExtendFailed(CatalogError::Transient(failures[0].0)),
            0u64,
            Some(failures[0].1),
        );
        let j: Input = (Event::BackoffElapsed, 0u64, None);
        let rest = retry_rounds(failures.drop_first());
        lemma_run_append(s, seq![i, j], rest);
        lemma_run_two(s, i, j);
        let s2 = run(s, seq![i, j]).0;
        lemma_retry_rounds(s2, failures.drop_first());
        let first = run(s, seq![i, j]).1;
        lemma_counts_two(first[0], first[1]);
        lemma_counts_one(first[0]);
        lemma_counts_one(first[1]);
        lemma_counts_append(first, run(s2, rest).1);
    }
}

/// Every renewal wait the task asks for lies in `[ttl/3, ttl*2/3]`, over
/// any run whose drawn sleeps come from that range.
pub proof fn renewal_waits_in_range(s: RenewalState, inputs: Seq<Input>, k: int)
    requires
        forall|i: int|
            0 <= i < inputs.len() ==> sleep_floor(s.ttl_ms as nat) <= #[trigger] inputs[i].1
                <= sleep_ceiling(s.ttl_ms as nat),
        0 <= k < inputs.len(),
        run(s, inputs).1[k] is WaitInterval,
    ensures
        sleep_floor(s.ttl_ms as nat) <= run(s, inputs).1[k]->WaitInterval_0 <= sleep_ceiling(
            s.ttl_ms as nat,
        ),
    decreases inputs.len(),
{
    let first = next(s, inputs[0].0, inputs[0].1, inputs[0].2);
    let rest = inputs.drop_first();
    if k > 0 {
        assert(first.0.ttl_ms == s.ttl_ms);
        assert forall|i: int| 0 <= i < rest.len() implies sleep_floor(first.0.ttl_ms as nat)
            <= #[trigger] rest[i].1 <= sleep_ceiling(first.0.ttl_ms as nat) by {
            assert(rest[i] == inputs[i + 1]);
        }
        lemma_run_len(first.0, rest);
        assert(run(s, inputs).1 == seq![first.1] + run(first.0, rest).1);
        assert(run(s, inputs).1[k] == run(first.0, rest).1[k - 1]);
        renewal_waits_in_range(first.0, rest, k - 1);
    } else {
        assert(run(s, inputs).1[0] == first.1);
        assert(inputs[0].1 == inputs[0].1);
    }
}

/// Shutdown is idempotent: a second shutdown changes nothing and asks for
/// nothing, whatever state the first one left.
pub proof fn shutdown_twice_same_as_once(
    s: RenewalState,
    sleep1: u64,
    delay1: Option<u64>,
    sleep2: u64,
    delay2: Option<u64>,
)
    ensures
        next(next(s, Event::ShutdownFired, sleep1, delay1).0, Event::ShutdownFired, sleep2, delay2)
            == (next(s, Event::ShutdownFired, sleep1, delay1).0, Action::Idle),
{
}

/// While every extension succeeds the task never deletes; once shutdown
/// fires during a renewal wait it deletes, and after a successful deletion
/// never again: exactly one deletion in all, and no abort.
pub proof fn renewals_then_shutdown_delete_once(
    s: RenewalState,
    sleeps: Seq<u64>,
    tail: Seq<Input>,
)
    requires
        s.phase == Phase::Waiting,
        !s.shutdown_requested,
    ensures
        deletes(run(s, renewal_rounds(sleeps)).1) == 0,
        extends(run(s, renewal_rounds(sleeps)).1) == sleeps.len(),
        ({
            let inputs = renewal_rounds(sleeps) + seq![
                (Event::ShutdownFired, 0u64, None),
                (Event::DeleteSucceeded, 0u64, None),
            ] + tail;
            &&& run(s, inputs).1[2 * sleeps.len() as int] == Action::Delete
            &&& run(s, inputs).1[2 * sleeps.len() as int + 1] == Action::Released
            &&& deletes(run(s, inputs).1) == 1
            &&& aborts(run(s, inputs).1) == 0
        }),
{
    let a = renewal_rounds(sleeps);
    let i: Input = (Event::ShutdownFired, 0u64, None);
    let j: Input = (Event::DeleteSucceeded, 0u64, None);
    let b = seq![i, j];
    lemma_renewal_rounds(s, sleeps);
    let s1 = run(s, a).0;
    lemma_run_append(s, a, b);
    lemma_run_two(s1, i, j);
    let s2 = run(s, a + b).0;
    lemma_run_append(s, a + b, tail);
    lemma_terminated_is_idle(s2, tail);
    let acts_b = run(s1, b).1;
    lemma_counts_two(acts_b[0], acts_b[1]);
    lemma_counts_one(acts_b[0]);
    lemma_counts_one(acts_b[1]);
    lemma_counts_append(run(s, a).1, acts_b);
    lemma_counts_append(run(s, a + b).1, run(s2, tail).1);
}

/// When the first extension finds the lease expired, the owning query is
/// aborted exactly once, with that error, and no deletion is ever asked for.
pub proof fn expired_lease_aborts_without_delete(
    s: RenewalState,
    message: String,
    tail: Seq<Input>,
)
    requires
        s.phase == Phase::Waiting,
    ensures
        ({
            let err = CatalogError::LockExpired(message);
            let inputs = seq![
                (Event::IntervalElapsed, 0u64, None),
                (Event::ExtendFailed(err), 0u64, None),
            ] + tail;
            &&& run(s, inputs).1[1] == Action::Abort(LockError::Catalog(err))
            &&& aborts(run(s, inputs).1) == 1
            &&& deletes(run(s, inputs).1) == 0
            &&& run(s, inputs).0.phase == Phase::Terminated
        }),
{
    let err = CatalogError::LockExpired(message);
    let i: Input = (Event::IntervalElapsed, 0u64, None);
    let j: Input = (Event::ExtendFailed(err), 0u64, None);
    lemma_run_two(s, i, j);
    lemma_run_append(s, seq![i, j], tail);
    let s2 = run(s, seq![i, j]).0;
    lemma_terminated_is_idle(s2, tail);
    let first = run(s, seq![i, j]).1;
    lemma_counts_two(first[0], first[1]);
    lemma_counts_one(first[0]);
    lemma_counts_one(first[1]);
    lemma_counts_append(first, run(s2, tail).1);
}

/// `k` transient failures, each followed by its retry delay, then a success:
/// the catalog is asked to extend `k + 1` times, with no abort and no
/// deletion, and the task is back to waiting.
pub proof fn transient_failures_then_success(
    s: RenewalState,
    failures: Seq<(String, u64)>,
    sleep: u64,
)
    requires
        s.phase == Phase::Waiting,
        !s.shutdown_requested,
    ensures
        ({
            let inputs = seq![(Event::IntervalElapsed, 0u64, None)] + retry_rounds(failures)
                + seq![(Event::ExtendSucceeded, sleep, None)];
            &&& extends(run(s, inputs).1) == failures.len() + 1
            &&& aborts(run(s, inputs).1) == 0
            &&& deletes(run(s, inputs).1) == 0
            &&& run(s, inputs).0.phase == Phase::Waiting
        }),
{
    let i: Input = (Event::IntervalElapsed, 0u64, None);
    let j: Input = (Event::ExtendSucceeded, sleep, None);
    let a = seq![i];
    let b = retry_rounds(failures);
    let c = seq![j];
    lemma_run_one(s, i);
    let s1 = run(s, a).0;
    lemma_retry_rounds(s1, failures);
    lemma_run_append(s, a, b);
    let s2 = run(s, a + b).0;
    lemma_run_one(s2, j);
    lemma_run_append(s, a + b, c);
    lemma_counts_one(run(s, a).1[0]);
    assert(run(s, a).1 =~= seq![run(s, a).1[0]]);
    lemma_counts_one(run(s2, c).1[0]);
    assert(run(s2, c).1 =~= seq![run(s2, c).1[0]]);
    lemma_counts_append(run(s, a).1, run(s1, b).1);
    lemma_counts_append(run(s, a + b).1, run(s2, c).1);
}

/// Transient failures until the retry campaign yields no more delay: the
/// owning query is aborted exactly once, with a retry-exhaustion error that
/// holds the last failure, and no deletion is ever asked for.
pub proof fn exhausted_retries_abort_without_delete(
    s: RenewalState,
    failures: Seq<(String, u64)>,
    message: String,
    tail: Seq<Input>,
)
    requires
        s.phase == Phase::Waiting,
        !s.shutdown_requested,
    ensures
        ({
            let err = CatalogError::Transient(message);
            let inputs = seq![(Event::IntervalElapsed, 0u64, None)] + retry_rounds(failures)
                + seq![(Event::ExtendFailed(err), 0u64, None)] + tail;
            &&& run(s, inputs).1[2 * failures.len() as int + 1] == Action::Abort(
                LockError::RetryExhausted(err),
            )
            &&& aborts(run(s, inputs).1) == 1
            &&& deletes(run(s, inputs).1) == 0
            &&& run(s, inputs).0.phase == Phase::Terminated
        }),
{
    let err = CatalogError::Transient(message);
    let i: Input = (Event::IntervalElapsed, 0u64, None);
    let j: Input = (Event::ExtendFailed(err), 0u64, None);
    let a = seq![i];
    let b = retry_rounds(failures);
    let c = seq![j];
    lemma_run_one(s, i);
    let s1 = run(s, a).0;
    lemma_retry_rounds(s1, failures);
    lemma_run_append(s, a, b);
    let s2 = run(s, a + b).0;
    lemma_run_one(s2, j);
    lemma_run_append(s, a + b, c);
    let s3 = run(s, a + b + c).0;
    lemma_run_append(s, a + b + c, tail);
    lemma_terminated_is_idle(s3, tail);
    lemma_counts_one(run(s, a).1[0]);
    assert(run(s, a).1 =~= seq![run(s, a).1[0]]);
    lemma_counts_one(run(s2, c).1[0]);
    assert(run(s2, c).1 =~= seq![run(s2, c).1[0]]);
    lemma_counts_append(run(s, a).1, run(s1, b).1);
    lemma_counts_append(run(s, a + b).1, run(s2, c).1);
    lemma_counts_append(run(s, a + b + c).1, run(s3, tail).1);
}

} // verus!
