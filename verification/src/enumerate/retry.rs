//! Retry with exponential backoff around a source that may fail.
//!
//! The caller invokes the source. On failure it asks [`RetryState::on_failure`]
//! what to do: wait and invoke again, or give up with the last error.

use vstd::prelude::*;

verus! {

/// 2 to the power `n`.
pub open spec fn power_of_two(n: nat) -> nat
    decreases n,
{
    if n == 0 {
        1
    } else {
        2 * power_of_two((n - 1) as nat)
    }
}

/// The seconds to wait before attempt `attempt + 1`, after `attempt`
/// failures: 2 to the power `attempt`, or the largest number of seconds
/// that can be told where that is larger.
pub open spec fn backoff_seconds(attempt: nat) -> nat {
    if power_of_two(attempt) <= u64::MAX {
        power_of_two(attempt)
    } else {
        u64::MAX as nat
    }
}

/// Powers of two grow with the exponent.
proof fn lemma_power_of_two_grows(a: nat, b: nat)
    requires
        a < b,
    ensures
        power_of_two(a) < power_of_two(b),
        power_of_two(a) >= 1,
    decreases b,
{
    if a + 1 < b {
        lemma_power_of_two_grows(a, (b - 1) as nat);
    } else if a > 0 {
        lemma_power_of_two_grows((a - 1) as nat, a);
    }
}

/// What to do after a failure.
#[derive(Debug, Clone, Copy, PartialEq, Eq, Structural)]
pub enum RetryDecision {
    /// Wait this many seconds, then invoke the source again.
    RetryAfter(u64),
    /// The budget is spent: surface the last error.
    GiveUp,
}

/// How often a source has been tried again, and how often it may be.
#[derive(Debug, Clone, Copy, PartialEq, Eq, Structural)]
pub struct RetryState {
    pub retries: u32,
    pub max_retries: u32,
}

/// The seconds to wait before the attempt that follows `attempt` failures.
pub fn backoff_delay(attempt: u32) -> (r: u64)
    ensures
        r == backoff_seconds(attempt as nat),
{
    let mut delay: u64 = 1;
    let mut i: u32 = 0;
    while i < attempt
        invariant
            i <= attempt,
            delay == power_of_two(i as nat),
        decreases attempt - i,
    {
        if delay > u64::MAX / 2 {
            proof {
                if i + 1 < attempt {
                    lemma_power_of_two_grows((i + 1) as nat, attempt as nat);
                }
            }
            return u64::MAX;
        }
        delay = delay * 2;
        i += 1;
    }
    delay
}

impl RetryState {
    /// The state before the first invocation.
    pub fn new(max_retries: u32) -> (r: Self)
        ensures
            r == (RetryState { retries: 0, max_retries }),
    {
        RetryState { retries: 0, max_retries }
    }

    /// The decision after a failure, and the state that follows it: with
    /// budget left, one more retry is counted and the wait is 2 to the
    /// power of that count; without, the state stays.
    pub open spec fn after_failure(self) -> (RetryState, RetryDecision) {
        if self.retries >= self.max_retries {
            (self, RetryDecision::GiveUp)
        } else {
            (
                RetryState { retries: (self.retries + 1) as u32, ..self },
                RetryDecision::RetryAfter(backoff_seconds((self.retries + 1) as nat) as u64),
            )
        }
    }

    /// Takes in a failure of the source and decides what to do.
    pub fn on_failure(&mut self) -> (r: RetryDecision)
        ensures
            (*final(self), r) == old(self).after_failure(),
    {
        if self.retries >= self.max_retries {
            RetryDecision::GiveUp
        } else {
            self.retries = self.retries + 1;
            RetryDecision::RetryAfter(backoff_delay(self.retries))
        }
    }
}

/// What a run of invocations came to.
pub struct RetryRun {
    /// How often the source was invoked.
    pub invocations: nat,
    /// The waits between the invocations, in order.
    pub delays: Seq<nat>,
    /// Whether the last invocation succeeded.
    pub succeeded: bool,
}

/// The run that starts in `state` against a source that fails `failures`
/// times in a row and then succeeds.
pub open spec fn run_against(state: RetryState, failures: nat) -> RetryRun
    decreases failures,
{
    if failures == 0 {
        RetryRun { invocations: 1, delays: Seq::empty(), succeeded: true }
    } else {
        match state.after_failure() {
            (_, RetryDecision::GiveUp) => RetryRun {
                invocations: 1,
                delays: Seq::empty(),
                succeeded: false,
            },
            (next, RetryDecision::RetryAfter(delay)) => {
                let rest = run_against(next, (failures - 1) as nat);
                RetryRun {
                    invocations: 1 + rest.invocations,
                    delays: seq![delay as nat] + rest.delays,
                    succeeded: rest.succeeded,
                }
            },
        }
    }
}

/// A source that fails no more often than the budget allows is invoked
/// once more than it fails and its success is returned. The `i`-th wait
/// (counted from 1) is 2 to the power `i` seconds, as far as that many
/// seconds can be told; no wait is shorter than the one before, and each of
/// the first 63 is longer.
pub proof fn lemma_retry_until_success(max_retries: u32, failures: nat)
    requires
        failures <= max_retries,
    ensures
        ({
            let run = run_against(RetryState { retries: 0, max_retries }, failures);
            &&& run.succeeded
            &&& run.invocations == failures + 1
            &&& run.delays.len() == failures
            &&& forall|i: int| 0 <= i < failures ==> run.delays[i] == backoff_seconds((i + 1) as nat)
            &&& forall|i: int|
                0 <= i < failures && i < 63 ==> run.delays[i] == power_of_two((i + 1) as nat)
            &&& forall|i: int, j: int| 0 <= i < j < failures ==> run.delays[i] <= run.delays[j]
            &&& forall|i: int, j: int|
                0 <= i < j < failures && j < 63 ==> run.delays[i] < run.delays[j]
        }),
{
    lemma_run_from(RetryState { retries: 0, max_retries }, failures);
    let run = run_against(RetryState { retries: 0, max_retries }, failures);
    assert forall|i: int| 0 <= i < failures && i < 63 implies run.delays[i] == power_of_two(
        (i + 1) as nat,
    ) by {
        lemma_power_of_two_limit((i + 1) as nat);
    }
    assert forall|i: int, j: int| 0 <= i < j < failures implies run.delays[i] <= run.delays[j] by {
        lemma_power_of_two_grows((i + 1) as nat, (j + 1) as nat);
    }
    assert forall|i: int, j: int| 0 <= i < j < failures && j < 63 implies run.delays[i]
        < run.delays[j] by {
        lemma_power_of_two_grows((i + 1) as nat, (j + 1) as nat);
        lemma_power_of_two_limit((i + 1) as nat);
        lemma_power_of_two_limit((j + 1) as nat);
    }
}

/// A source that fails more often than the budget allows is invoked once
/// more than the budget, and its last error is returned.
pub proof fn lemma_retry_gives_up(max_retries: u32, failures: nat)
    requires
        failures > max_retries,
    ensures
        ({
            let run = run_against(RetryState { retries: 0, max_retries }, failures);
            &&& !run.succeeded
            &&& run.invocations == max_retries + 1
            &&& run.delays.len() == max_retries
        }),
{
    lemma_run_exhausts(RetryState { retries: 0, max_retries }, failures);
}

/// 2 to the power 64 is beyond the largest number of seconds that can be
/// told, and every smaller power is within it.
proof fn lemma_power_of_two_limit(n: nat)
    ensures
        n < 64 ==> power_of_two(n) <= u64::MAX,
        n >= 64 ==> power_of_two(n) > u64::MAX,
{
    assert(power_of_two(8) == 0x100) by {
        reveal_with_fuel(power_of_two, 9);
    }
    assert(power_of_two(16) == 0x1_0000) by {
        lemma_power_of_two_adds(8, 8);
    }
    assert(power_of_two(32) == 0x1_0000_0000) by {
        lemma_power_of_two_adds(16, 16);
    }
    assert(power_of_two(64) == 0x1_0000_0000_0000_0000) by {
        lemma_power_of_two_adds(32, 32);
    }
    if n < 64 {
        lemma_power_of_two_grows(n, 64);
    } else if n > 64 {
        lemma_power_of_two_grows(64, n);
    }
}

/// The power of a sum is the product of the powers.
proof fn lemma_power_of_two_adds(a: nat, b: nat)
    ensures
        power_of_two(a + b) == power_of_two(a) * power_of_two(b),
    decreases b,
{
    if b > 0 {
        lemma_power_of_two_adds(a, (b - 1) as nat);
        assert(power_of_two(a + b) == 2 * power_of_two((a + b - 1) as nat));
        assert(power_of_two(a) * (2 * power_of_two((b - 1) as nat)) == 2 * (power_of_two(a)
            * power_of_two((b - 1) as nat))) by (nonlinear_arith);
    } else {
        assert(power_of_two(a) * 1 == power_of_two(a)) by (nonlinear_arith);
    }
}

/// The run from a state with enough budget left for all the failures.
proof fn lemma_run_from(state: RetryState, failures: nat)
    requires
        state.retries + failures <= state.max_retries,
    ensures
        ({
            let run = run_against(state, failures);
            &&& run.succeeded
            &&& run.invocations == failures + 1
            &&& run.delays.len() == failures
            &&& forall|i: int|
                0 <= i < failures ==> run.delays[i] == backoff_seconds(
                    (state.retries + i + 1) as nat,
                )
        }),
    decreases failures,
{
    if failures > 0 {
        let (next, decision) = state.after_failure();
        lemma_run_from(next, (failures - 1) as nat);
        let rest = run_against(next, (failures - 1) as nat);
        let run = run_against(state, failures);
        assert(run.delays =~= seq![backoff_seconds((state.retries + 1) as nat)] + rest.delays);
        assert forall|i: int| 0 <= i < failures implies run.delays[i] == backoff_seconds(
            (state.retries + i + 1) as nat,
        ) by {
            if i > 0 {
                assert(run.delays[i] == rest.delays[i - 1]);
            }
        }
    }
}

/// The run from a state whose budget ends before the failures do.
proof fn lemma_run_exhausts(state: RetryState, failures: nat)
    requires
        state.retries <= state.max_retries,
        state.retries + failures > state.max_retries,
    ensures
        ({
            let run = run_against(state, failures);
            &&& !run.succeeded
            &&& run.invocations == state.max_retries - state.retries + 1
            &&& run.delays.len() == state.max_retries - state.retries
        }),
    decreases failures,
{
    if state.retries < state.max_retries {
        let (next, decision) = state.after_failure();
        lemma_run_exhausts(next, (failures - 1) as nat);
    }
}

} // verus!
