use vstd::prelude::*;

use std::time::{Duration, Instant};

use crate::clock::{as_nanos, duration_nanos, elapsed_since, now};

verus! {

/// Successes in the half-open state that close the breaker again.
pub const HALF_OPEN_SUCCESSES_TO_CLOSE: u32 = 3;

/// State of a circuit breaker.
#[derive(Debug, Clone, Copy, PartialEq, Eq, Structural)]
pub enum CircuitBreakerState {
    /// Normal operation.
    Closed,
    /// Failing fast.
    Open,
    /// Testing whether the service recovered.
    HalfOpen,
}

/// Circuit breaker that stops calls into a failing test after repeated failures.
#[derive(Debug)]
pub struct CircuitBreaker {
    pub name: String,
    pub state: CircuitBreakerState,
    pub failure_count: u32,
    pub failure_threshold: u32,
    pub last_failure_time: Option<Instant>,
    pub timeout_duration: Duration,
    pub success_count_since_half_open: u32,
}

/// The counters and state of a breaker.
#[derive(Debug, Clone, Copy, PartialEq, Eq, Structural)]
pub struct BreakerView {
    pub state: CircuitBreakerState,
    pub failure_count: u32,
    pub failure_threshold: u32,
    pub success_count_since_half_open: u32,
}

/// The breaker after a success: half-open breakers count successes and close at
/// the third, closed breakers forget their failures, open ones do not change.
pub open spec fn after_success(b: BreakerView) -> BreakerView {
    match b.state {
        CircuitBreakerState::HalfOpen => {
            let n = (b.success_count_since_half_open + 1) as u32;
            if n >= HALF_OPEN_SUCCESSES_TO_CLOSE {
                BreakerView {
                    state: CircuitBreakerState::Closed,
                    failure_count: 0,
                    success_count_since_half_open: n,
                    ..b
                }
            } else {
                BreakerView { success_count_since_half_open: n, ..b }
            }
        },
        CircuitBreakerState::Closed => BreakerView { failure_count: 0, ..b },
        CircuitBreakerState::Open => b,
    }
}

/// The breaker after a failure: one more failure, and open once the count reaches
/// the threshold.
pub open spec fn after_failure(b: BreakerView) -> BreakerView {
    let n = (b.failure_count + 1) as u32;
    if n >= b.failure_threshold {
        BreakerView { state: CircuitBreakerState::Open, failure_count: n, ..b }
    } else {
        BreakerView { failure_count: n, ..b }
    }
}

/// Whether a breaker lets a call through, given whether it has a recorded failure
/// and whether the timeout since that failure has passed, and the breaker afterwards
/// (an open breaker whose timeout passed becomes half-open).
pub open spec fn execution_check(b: BreakerView, has_failure: bool, timed_out: bool) -> (
    bool,
    BreakerView,
) {
    match b.state {
        CircuitBreakerState::Closed => (true, b),
        CircuitBreakerState::HalfOpen => (true, b),
        CircuitBreakerState::Open => {
            if has_failure && timed_out {
                (
                    true,
                    BreakerView {
                        state: CircuitBreakerState::HalfOpen,
                        success_count_since_half_open: 0,
                        ..b
                    },
                )
            } else {
                (false, b)
            }
        },
    }
}

/// `elapsed_nanos` nanoseconds reach the timeout `timeout`.
pub open spec fn timeout_passed(elapsed_nanos: u128, timeout: Duration) -> bool {
    elapsed_nanos >= duration_nanos(timeout)
}

impl CircuitBreaker {
    /// The counters and state.
    pub open spec fn view_state(&self) -> BreakerView {
        BreakerView {
            state: self.state,
            failure_count: self.failure_count,
            failure_threshold: self.failure_threshold,
            success_count_since_half_open: self.success_count_since_half_open,
        }
    }

    /// A closed breaker named `name` with no failures.
    pub fn new(name: String, failure_threshold: u32, timeout_duration: Duration) -> (b: CircuitBreaker)
        ensures
            b.name == name,
            b.view_state() == (BreakerView {
                state: CircuitBreakerState::Closed,
                failure_count: 0,
                failure_threshold,
                success_count_since_half_open: 0,
            }),
            b.last_failure_time is None,
            b.timeout_duration == timeout_duration,
    {
        CircuitBreaker {
            name,
            state: CircuitBreakerState::Closed,
            failure_count: 0,
            failure_threshold,
            last_failure_time: None,
            timeout_duration,
            success_count_since_half_open: 0,
        }
    }

    /// The decision of `can_execute` once it is known whether the timeout since the
    /// last failure has passed: closed and half-open breakers allow the call; an open
    /// breaker allows it only after the timeout, and then becomes half-open.
    pub fn can_execute_with(&mut self, timed_out: bool) -> (r: bool)
        ensures
            (r, final(self).view_state()) == execution_check(
                old(self).view_state(),
                old(self).last_failure_time is Some,
                timed_out,
            ),
            final(self).name == old(self).name,
            final(self).last_failure_time == old(self).last_failure_time,
            final(self).timeout_duration == old(self).timeout_duration,
    {
        match self.state {
            CircuitBreakerState::Closed => true,
            CircuitBreakerState::Open => {
                if self.last_failure_time.is_some() && timed_out {
                    self.state = CircuitBreakerState::HalfOpen;
                    self.success_count_since_half_open = 0;
                    true
                } else {
                    false
                }
            },
            CircuitBreakerState::HalfOpen => true,
        }
    }

    /// The decision of `can_execute` when `elapsed_nanos` nanoseconds have passed
    /// since the last failure: the timeout has passed once the elapsed time reaches
    /// the timeout duration.
    pub fn can_execute_after(&mut self, elapsed_nanos: u128) -> (r: bool)
        ensures
            (r, final(self).view_state()) == execution_check(
                old(self).view_state(),
                old(self).last_failure_time is Some,
                timeout_passed(elapsed_nanos, old(self).timeout_duration),
            ),
            final(self).name == old(self).name,
            final(self).last_failure_time == old(self).last_failure_time,
            final(self).timeout_duration == old(self).timeout_duration,
    {
        let timed_out = elapsed_nanos >= as_nanos(&self.timeout_duration);
        self.can_execute_with(timed_out)
    }

    /// Whether the breaker allows a call now: the time since the last failure, read
    /// from the clock, is held against the timeout (see
    /// [`CircuitBreaker::can_execute_after`]). The clock is read only for an open
    /// breaker with a recorded failure; a zero timeout has always passed.
    pub fn can_execute(&mut self) -> (r: bool)
        ensures
            exists|elapsed_nanos: u128|
                (r, final(self).view_state()) == execution_check(
                    old(self).view_state(),
                    old(self).last_failure_time is Some,
                    #[trigger] timeout_passed(elapsed_nanos, old(self).timeout_duration),
                ),
            old(self).state != CircuitBreakerState::Open ==> r && final(self).view_state()
                == old(self).view_state(),
            old(self).state == CircuitBreakerState::Open && old(self).last_failure_time is None
                ==> !r && final(self).view_state() == old(self).view_state(),
            old(self).state == CircuitBreakerState::Open && old(self).last_failure_time is Some
                && duration_nanos(old(self).timeout_duration) == 0 ==> r && final(self).view_state()
                == (BreakerView {
                state: CircuitBreakerState::HalfOpen,
                success_count_since_half_open: 0,
                ..old(self).view_state()
            }),
            final(self).name == old(self).name,
            final(self).last_failure_time == old(self).last_failure_time,
            final(self).timeout_duration == old(self).timeout_duration,
    {
        let elapsed_nanos: u128 = match &self.last_failure_time {
            Some(last) => {
                if self.state == CircuitBreakerState::Open {
                    let elapsed = elapsed_since(last);
                    as_nanos(&elapsed)
                } else {
                    0
                }
            },
            None => 0,
        };
        self.can_execute_after(elapsed_nanos)
    }

    /// Records a successful call.
    pub fn record_success(&mut self)
        requires
            old(self).state == CircuitBreakerState::HalfOpen ==> old(
                self,
            ).success_count_since_half_open < u32::MAX,
        ensures
            final(self).view_state() == after_success(old(self).view_state()),
            final(self).name == old(self).name,
            final(self).last_failure_time == old(self).last_failure_time,
            final(self).timeout_duration == old(self).timeout_duration,
    {
        match self.state {
            CircuitBreakerState::HalfOpen => {
                self.success_count_since_half_open = self.success_count_since_half_open + 1;
                if self.success_count_since_half_open >= HALF_OPEN_SUCCESSES_TO_CLOSE {
                    self.state = CircuitBreakerState::Closed;
                    self.failure_count = 0;
                }
            },
            CircuitBreakerState::Closed => {
                self.failure_count = 0;
            },
            CircuitBreakerState::Open => {},
        }
    }

    /// Records a failed call at the current time.
    pub fn record_failure(&mut self)
        requires
            old(self).failure_count < u32::MAX,
        ensures
            final(self).view_state() == after_failure(old(self).view_state()),
            final(self).last_failure_time is Some,
            final(self).name == old(self).name,
            final(self).timeout_duration == old(self).timeout_duration,
    {
        self.failure_count = self.failure_count + 1;
        self.last_failure_time = Some(now());
        if self.failure_count >= self.failure_threshold {
            self.state = CircuitBreakerState::Open;
        }
    }
}

/// Failures in a row that bring a breaker's count to its threshold leave it open,
/// with each failure counted.
pub proof fn lemma_threshold_failures_open(b: BreakerView, n: nat)
    requires
        b.failure_count as nat + n < u32::MAX,
        b.failure_count as nat + n >= b.failure_threshold,
        n >= 1,
    ensures
        failures(b, n).state == CircuitBreakerState::Open,
        failures(b, n).failure_count == b.failure_count + n,
{
    lemma_failure_count(b, (n - 1) as nat);
}

/// The breaker after `n` failures in a row.
pub open spec fn failures(b: BreakerView, n: nat) -> BreakerView
    decreases n,
{
    if n == 0 {
        b
    } else {
        after_failure(failures(b, (n - 1) as nat))
    }
}

proof fn lemma_failure_count(b: BreakerView, n: nat)
    requires
        b.failure_count as nat + n < u32::MAX,
    ensures
        failures(b, n).failure_count == b.failure_count + n,
        failures(b, n).failure_threshold == b.failure_threshold,
    decreases n,
{
    if n > 0 {
        lemma_failure_count(b, (n - 1) as nat);
    }
}

/// A closed breaker stays closed while its failures in a row stay below the
/// threshold, opens with the failure that reaches it, and stays open through
/// further failures.
pub proof fn lemma_failures_state(b: BreakerView, n: nat)
    requires
        b.state == CircuitBreakerState::Closed,
        b.failure_count as nat + n < u32::MAX,
    ensures
        b.failure_count + n < b.failure_threshold ==> failures(b, n).state
            == CircuitBreakerState::Closed,
        b.failure_count + n >= b.failure_threshold && n >= 1 ==> failures(b, n).state
            == CircuitBreakerState::Open,
    decreases n,
{
    lemma_failure_count(b, n);
    if n > 0 {
        lemma_failures_state(b, (n - 1) as nat);
        lemma_failure_count(b, (n - 1) as nat);
    }
}

/// Only failures in a row count against a closed breaker: a success after fewer
/// failures than the threshold leaves it closed with no failure counted, so the
/// failures that follow start again from zero and the breaker stays closed until
/// the threshold is reached by them alone.
pub proof fn lemma_success_resets_closed_breaker(b: BreakerView, n: nat, m: nat)
    requires
        b.state == CircuitBreakerState::Closed,
        b.failure_count as nat + n < b.failure_threshold,
        m < b.failure_threshold,
    ensures
        after_success(failures(b, n)).state == CircuitBreakerState::Closed,
        after_success(failures(b, n)).failure_count == 0,
        after_success(failures(b, n)).failure_threshold == b.failure_threshold,
        failures(after_success(failures(b, n)), m).state == CircuitBreakerState::Closed,
        failures(after_success(failures(b, n)), m).failure_count == m,
{
    lemma_failures_state(b, n);
    lemma_failure_count(b, n);
    let c = after_success(failures(b, n));
    lemma_failures_state(c, m);
    lemma_failure_count(c, m);
}

/// A half-open breaker that has not counted a success yet closes, with its failures
/// forgotten, after three successes, and not before.
pub proof fn lemma_half_open_closes_after_three(b: BreakerView)
    requires
        b.state == CircuitBreakerState::HalfOpen,
        b.success_count_since_half_open == 0,
    ensures
        after_success(b).state == CircuitBreakerState::HalfOpen,
        after_success(after_success(b)).state == CircuitBreakerState::HalfOpen,
        after_success(after_success(after_success(b))).state == CircuitBreakerState::Closed,
        after_success(after_success(after_success(b))).failure_count == 0,
{
}

/// Successes never open a breaker, and a breaker that lets a call through is
/// closed or half-open afterwards.
pub proof fn lemma_breaker_transitions(b: BreakerView, has_failure: bool, timed_out: bool)
    ensures
        b.state != CircuitBreakerState::Open ==> after_success(b).state
            != CircuitBreakerState::Open,
        execution_check(b, has_failure, timed_out).0 ==> execution_check(
            b,
            has_failure,
            timed_out,
        ).1.state != CircuitBreakerState::Open,
        !execution_check(b, has_failure, timed_out).0 ==> b.state == CircuitBreakerState::Open,
{
}

} // verus!
