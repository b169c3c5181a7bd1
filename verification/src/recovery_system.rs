use vstd::prelude::*;

use crate::circuit_breaker::{
    after_failure, after_success, timeout_passed, BreakerView, CircuitBreaker, CircuitBreakerState,
};
use crate::clock::{as_nanos, duration_nanos, elapsed_since, from_secs, unix_seconds_now};
use crate::recovery::{
    error_type_name, error_type_of, pow2, retry_delay_millis, retry_delay_ms, ActionPriority,
    RecoveryAction, RecoveryActionResult, RecoveryActionType, RecoveryConfig, RecoveryStrategy,
    TestExecutionStatus, TestingError,
};
use crate::text::{chars_equal, chars_of};

verus! {

/// Where a test was when it failed.
#[derive(Debug)]
pub struct TestContext {
    pub test_suite: String,
    pub test_phase: String,
}

/// A failure kept for pattern analysis.
#[derive(Debug)]
pub struct TestFailureRecord {
    pub test_name: String,
    pub error_type: String,
    /// Unix time of the failure, in seconds.
    pub failure_time: i64,
    pub recovery_attempted: bool,
    pub recovery_successful: bool,
    pub recovery_time_ms: Option<u64>,
    pub context: TestContext,
}

/// The outcome of running a test under the recovery policy.
#[derive(Debug)]
pub struct RecoverableTestResult {
    pub test_name: String,
    pub final_result: TestExecutionStatus,
    pub attempts_made: u32,
    pub total_execution_time_ms: u64,
    pub recovery_actions_taken: Vec<RecoveryActionResult>,
    pub errors_encountered: Vec<TestingError>,
    pub recovery_successful: bool,
}

/// Most failures the history keeps; the oldest leaves first.
pub const MAX_FAILURE_HISTORY: usize = 1000;

/// Recovery policy with its strategies, failure history and one circuit breaker per
/// test name.
pub struct GracefulRecoverySystem {
    config: RecoveryConfig,
    recovery_strategies: Vec<(String, RecoveryStrategy)>,
    failure_history: Vec<TestFailureRecord>,
    circuit_breakers: Vec<CircuitBreaker>,
}

/// Position of the first breaker named `name`, if any.
pub open spec fn find_breaker(bs: Seq<CircuitBreaker>, name: Seq<char>) -> Option<int> {
    if exists|i: int| 0 <= i < bs.len() && bs[i].name@ == name {
        Some(
            choose|i: int|
                0 <= i < bs.len() && bs[i].name@ == name && forall|j: int|
                    0 <= j < i ==> bs[j].name@ != name,
        )
    } else {
        None
    }
}

/// Whether a test named `name` may start, and the breakers afterwards, given whether
/// the timeout of its open breaker has passed: with breakers on, a test whose
/// breaker is open after a recorded failure is refused until the timeout has
/// passed, and then its breaker becomes half-open; every other test starts and
/// nothing changes.
pub open spec fn test_begun(
    old_b: Seq<CircuitBreaker>,
    new_b: Seq<CircuitBreaker>,
    cfg: RecoveryConfig,
    name: Seq<char>,
    timed_out: bool,
    proceed: bool,
) -> bool {
    match find_breaker(old_b, name) {
        Some(i) if cfg.enable_circuit_breaker && old_b[i].state == CircuitBreakerState::Open
            && old_b[i].last_failure_time is Some => {
            if timed_out {
                &&& proceed
                &&& replaced_at(old_b, new_b, i)
                &&& new_b[i].view_state() == (BreakerView {
                    state: CircuitBreakerState::HalfOpen,
                    success_count_since_half_open: 0,
                    ..old_b[i].view_state()
                })
                &&& new_b[i].name == old_b[i].name
                &&& new_b[i].last_failure_time == old_b[i].last_failure_time
            } else {
                !proceed && new_b == old_b
            }
        },
        _ => proceed && new_b == old_b,
    }
}

/// `elapsed_nanos` nanoseconds reach the timeout of the breaker of the test named
/// `name` (false when it has none).
pub open spec fn breaker_timeout_passed(bs: Seq<CircuitBreaker>, name: Seq<char>, elapsed_nanos: u128) -> bool {
    match find_breaker(bs, name) {
        Some(i) => timeout_passed(elapsed_nanos, bs[i].timeout_duration),
        None => false,
    }
}

/// `new` is `old` with position `i` replaced; nothing else moves.
pub open spec fn replaced_at<T>(old: Seq<T>, new: Seq<T>, i: int) -> bool {
    new.len() == old.len() && forall|j: int| 0 <= j < old.len() && j != i ==> new[j] == old[j]
}

/// The history after recording `r`: the oldest record leaves when there are more
/// than [`MAX_FAILURE_HISTORY`].
pub open spec fn history_after(h: Seq<TestFailureRecord>, r: TestFailureRecord) -> Seq<
    TestFailureRecord,
> {
    let pushed = h.push(r);
    if pushed.len() > MAX_FAILURE_HISTORY {
        pushed.drop_first()
    } else {
        pushed
    }
}

/// The breakers after a passed test named `name`: its breaker, when breakers are on
/// and it has one, records a success (see [`after_success`]).
pub open spec fn success_recorded(
    old_bs: Seq<CircuitBreaker>,
    new_bs: Seq<CircuitBreaker>,
    name: Seq<char>,
    cfg: RecoveryConfig,
) -> bool {
    match find_breaker(old_bs, name) {
        Some(i) => if cfg.enable_circuit_breaker {
            &&& replaced_at(old_bs, new_bs, i)
            &&& new_bs[i].view_state() == after_success(old_bs[i].view_state())
            &&& new_bs[i].name == old_bs[i].name
            &&& new_bs[i].last_failure_time == old_bs[i].last_failure_time
            &&& new_bs[i].timeout_duration == old_bs[i].timeout_duration
        } else {
            new_bs == old_bs
        },
        None => new_bs == old_bs,
    }
}

/// The breakers after a failed test named `name`, when breakers are on: its breaker
/// records a failure (see [`after_failure`]), a closed one with the configured
/// threshold and timeout being added first when it has none.
pub open spec fn failure_recorded(
    old_bs: Seq<CircuitBreaker>,
    new_bs: Seq<CircuitBreaker>,
    name: Seq<char>,
    cfg: RecoveryConfig,
) -> bool {
    if !cfg.enable_circuit_breaker {
        new_bs == old_bs
    } else {
        match find_breaker(old_bs, name) {
            Some(i) => {
                &&& replaced_at(old_bs, new_bs, i)
                &&& new_bs[i].view_state() == after_failure(old_bs[i].view_state())
                &&& new_bs[i].name == old_bs[i].name
                &&& new_bs[i].last_failure_time is Some
            },
            None => {
                &&& new_bs.len() == old_bs.len() + 1
                &&& forall|j: int| 0 <= j < old_bs.len() ==> new_bs[j] == old_bs[j]
                &&& new_bs.last().name@ == name
                &&& new_bs.last().view_state() == after_failure(
                    BreakerView {
                        state: CircuitBreakerState::Closed,
                        failure_count: 0,
                        failure_threshold: cfg.circuit_breaker_failure_threshold,
                        success_count_since_half_open: 0,
                    },
                )
                &&& duration_nanos(new_bs.last().timeout_duration)
                    == cfg.circuit_breaker_timeout_seconds as int * 1_000_000_000
                &&& new_bs.last().last_failure_time is Some
            },
        }
    }
}

/// A success can be counted on the breaker of `name` without overflow.
pub open spec fn success_countable(bs: Seq<CircuitBreaker>, name: Seq<char>, cfg: RecoveryConfig) -> bool {
    cfg.enable_circuit_breaker ==> match find_breaker(bs, name) {
        Some(i) => bs[i].state == CircuitBreakerState::HalfOpen ==> bs[i].success_count_since_half_open
            < u32::MAX,
        None => true,
    }
}

/// A failure can be counted on the breaker of `name` without overflow.
pub open spec fn failure_countable(bs: Seq<CircuitBreaker>, name: Seq<char>, cfg: RecoveryConfig) -> bool {
    cfg.enable_circuit_breaker ==> match find_breaker(bs, name) {
        Some(i) => bs[i].failure_count < u32::MAX,
        None => true,
    }
}

proof fn lemma_find_breaker(bs: Seq<CircuitBreaker>, name: Seq<char>, i: int)
    requires
        0 <= i < bs.len(),
        bs[i].name@ == name,
        forall|j: int| 0 <= j < i ==> bs[j].name@ != name,
    ensures
        find_breaker(bs, name) == Some(i),
{
    let k = choose|k: int|
        0 <= k < bs.len() && bs[k].name@ == name && forall|j: int| 0 <= j < k ==> bs[j].name@ != name;
    assert(0 <= k < bs.len() && bs[k].name@ == name && forall|j: int|
        0 <= j < k ==> bs[j].name@ != name);
    if k < i {
        assert(bs[k].name@ != name);
    }
    if i < k {
        assert(bs[i].name@ != name);
    }
}

proof fn lemma_find_breaker_some(bs: Seq<CircuitBreaker>, name: Seq<char>)
    ensures
        find_breaker(bs, name) matches Some(i) ==> 0 <= i < bs.len() && bs[i].name@ == name,
{
    if exists|i: int| 0 <= i < bs.len() && bs[i].name@ == name {
        let w = choose|i: int| 0 <= i < bs.len() && bs[i].name@ == name;
        lemma_first_match(bs, name, w);
    }
}

proof fn lemma_first_match(bs: Seq<CircuitBreaker>, name: Seq<char>, w: int)
    requires
        0 <= w < bs.len(),
        bs[w].name@ == name,
    ensures
        exists|i: int|
            0 <= i < bs.len() && bs[i].name@ == name && forall|j: int|
                0 <= j < i ==> bs[j].name@ != name,
    decreases w,
{
    if exists|j: int| 0 <= j < w && bs[j].name@ == name {
        let j = choose|j: int| 0 <= j < w && bs[j].name@ == name;
        lemma_first_match(bs, name, j);
    } else {
        assert(forall|j: int| 0 <= j < w ==> bs[j].name@ != name);
    }
}

fn succeed_at(bs: &mut Vec<CircuitBreaker>, i: usize)
    requires
        i < old(bs)@.len(),
        old(bs)@[i as int].state == CircuitBreakerState::HalfOpen ==> old(bs)@[i as int].success_count_since_half_open < u32::MAX,
    ensures
        replaced_at(old(bs)@, final(bs)@, i as int),
        final(bs)@[i as int].view_state() == after_success(old(bs)@[i as int].view_state()),
        final(bs)@[i as int].name == old(bs)@[i as int].name,
        final(bs)@[i as int].last_failure_time == old(bs)@[i as int].last_failure_time,
        final(bs)@[i as int].timeout_duration == old(bs)@[i as int].timeout_duration,
{
    let mut b = bs.remove(i);
    b.record_success();
    bs.insert(i, b);
}

fn half_open_at(bs: &mut Vec<CircuitBreaker>, i: usize)
    requires
        i < old(bs)@.len(),
        old(bs)@[i as int].state == CircuitBreakerState::Open,
        old(bs)@[i as int].last_failure_time is Some,
    ensures
        replaced_at(old(bs)@, final(bs)@, i as int),
        final(bs)@[i as int].view_state() == (BreakerView {
            state: CircuitBreakerState::HalfOpen,
            success_count_since_half_open: 0,
            ..old(bs)@[i as int].view_state()
        }),
        final(bs)@[i as int].name == old(bs)@[i as int].name,
        final(bs)@[i as int].last_failure_time == old(bs)@[i as int].last_failure_time,
{
    let mut b = bs.remove(i);
    let _ = b.can_execute_with(true);
    bs.insert(i, b);
}

fn fail_at(bs: &mut Vec<CircuitBreaker>, i: usize)
    requires
        i < old(bs)@.len(),
        old(bs)@[i as int].failure_count < u32::MAX,
    ensures
        replaced_at(old(bs)@, final(bs)@, i as int),
        final(bs)@[i as int].view_state() == after_failure(old(bs)@[i as int].view_state()),
        final(bs)@[i as int].name == old(bs)@[i as int].name,
        final(bs)@[i as int].last_failure_time is Some,
{
    let mut b = bs.remove(i);
    b.record_failure();
    bs.insert(i, b);
}

/// The default strategies: performance failures reduce resource usage, then fall
/// back to an alternative; statistical failures generate more test data.
fn default_strategies() -> (s: Vec<(String, RecoveryStrategy)>)
    ensures
        s@.len() == 2,
        s@[0].0@ == "performance_failure"@,
        s@[0].1.applicable_errors@.len() == 1,
        s@[0].1.applicable_errors@[0]@ == "PerformanceTestError"@,
        s@[0].1.recovery_actions@.len() == 2,
        s@[0].1.recovery_actions@[0].action_type == RecoveryActionType::ReduceResourceUsage,
        s@[0].1.recovery_actions@[1].action_type == RecoveryActionType::FallbackToAlternative,
        s@[1].0@ == "statistical_failure"@,
        s@[1].1.applicable_errors@.len() == 1,
        s@[1].1.applicable_errors@[0]@ == "StatisticalTestError"@,
        s@[1].1.recovery_actions@.len() == 1,
        s@[1].1.recovery_actions@[0].action_type == RecoveryActionType::UpdateTestData,
{
    let mut perf_errors: Vec<String> = Vec::new();
    perf_errors.push("PerformanceTestError".to_owned());
    let mut perf_actions: Vec<RecoveryAction> = Vec::new();
    let mut fx1: Vec<String> = Vec::new();
    fx1.push("May reduce test accuracy".to_owned());
    perf_actions.push(
        RecoveryAction {
            action_type: RecoveryActionType::ReduceResourceUsage,
            description: "Reduce resource usage to improve performance".to_owned(),
            priority: ActionPriority::High,
            estimated_time_minutes: 2,
            success_probability: 0x3f333333,  // 0.7
            side_effects: fx1,
        },
    );
    let mut fx2: Vec<String> = Vec::new();
    fx2.push("Different performance characteristics".to_owned());
    perf_actions.push(
        RecoveryAction {
            action_type: RecoveryActionType::FallbackToAlternative,
            description: "Use alternative algorithm implementation".to_owned(),
            priority: ActionPriority::Medium,
            estimated_time_minutes: 1,
            success_probability: 0x3f4ccccd,  // 0.8
            side_effects: fx2,
        },
    );
    let mut perf_fx: Vec<String> = Vec::new();
    perf_fx.push("May affect subsequent test performance".to_owned());
    let mut stat_errors: Vec<String> = Vec::new();
    stat_errors.push("StatisticalTestError".to_owned());
    let mut stat_actions: Vec<RecoveryAction> = Vec::new();
    let mut fx3: Vec<String> = Vec::new();
    fx3.push("Increased test execution time".to_owned());
    stat_actions.push(
        RecoveryAction {
            action_type: RecoveryActionType::UpdateTestData,
            description: "Generate additional test data for statistical power".to_owned(),
            priority: ActionPriority::High,
            estimated_time_minutes: 5,
            success_probability: 0x3f666666,  // 0.9
            side_effects: fx3,
        },
    );
    let mut stat_fx: Vec<String> = Vec::new();
    stat_fx.push("Longer test execution time".to_owned());
    let mut s: Vec<(String, RecoveryStrategy)> = Vec::new();
    s.push(
        (
            "performance_failure".to_owned(),
            RecoveryStrategy {
                strategy_name: "Performance Optimization Recovery".to_owned(),
                applicable_errors: perf_errors,
                recovery_actions: perf_actions,
                success_rate: 0x3f400000,  // 0.75
                average_recovery_time_ms: 2000,
                side_effects: perf_fx,
            },
        ),
    );
    s.push(
        (
            "statistical_failure".to_owned(),
            RecoveryStrategy {
                strategy_name: "Statistical Test Recovery".to_owned(),
                applicable_errors: stat_errors,
                recovery_actions: stat_actions,
                success_rate: 0x3f59999a,  // 0.85
                average_recovery_time_ms: 5000,
                side_effects: stat_fx,
            },
        ),
    );
    s
}

impl GracefulRecoverySystem {
    pub closed spec fn cfg(&self) -> RecoveryConfig {
        self.config
    }

    /// The recovery strategies, each under its key.
    pub closed spec fn strategies(&self) -> Seq<(String, RecoveryStrategy)> {
        self.recovery_strategies@
    }

    /// The recorded failures, oldest first.
    pub closed spec fn history(&self) -> Seq<TestFailureRecord> {
        self.failure_history@
    }

    /// The circuit breakers, one per test name.
    pub closed spec fn breakers(&self) -> Seq<CircuitBreaker> {
        self.circuit_breakers@
    }

    /// A recovery system with the default strategies, no failures and no breakers.
    pub fn new(config: RecoveryConfig) -> (s: GracefulRecoverySystem)
        ensures
            s.cfg() == config,
            s.strategies().len() == 2,
            s.strategies()[0].0@ == "performance_failure"@,
            s.strategies()[1].0@ == "statistical_failure"@,
            s.history().len() == 0,
            s.breakers().len() == 0,
    {
        GracefulRecoverySystem {
            config,
            recovery_strategies: default_strategies(),
            failure_history: Vec::new(),
            circuit_breakers: Vec::new(),
        }
    }

    /// The configuration.
    pub fn config(&self) -> (c: &RecoveryConfig)
        ensures
            *c == self.cfg(),
    {
        &self.config
    }

    /// Number of recorded failures.
    pub fn failure_count(&self) -> (n: usize)
        ensures
            n == self.history().len(),
    {
        self.failure_history.len()
    }

    /// The state of the breaker named `name`, if there is one.
    pub fn breaker_view(&self, name: &str) -> (v: Option<BreakerView>)
        ensures
            v == match find_breaker(self.breakers(), name@) {
                Some(i) => Some(self.breakers()[i].view_state()),
                None => None::<BreakerView>,
            },
    {
        proof {
            lemma_find_breaker_some(self.circuit_breakers@, name@);
        }
        match self.position_of_breaker(name) {
            Some(i) => Some(
                BreakerView {
                    state: self.circuit_breakers[i].state,
                    failure_count: self.circuit_breakers[i].failure_count,
                    failure_threshold: self.circuit_breakers[i].failure_threshold,
                    success_count_since_half_open: self.circuit_breakers[i].success_count_since_half_open,
                },
            ),
            None => None,
        }
    }

    fn position_of_breaker(&self, name: &str) -> (r: Option<usize>)
        ensures
            match r {
                Some(i) => find_breaker(self.breakers(), name@) == Some(i as int) && i
                    < self.breakers().len() && self.breakers()[i as int].name@ == name@,
                None => find_breaker(self.breakers(), name@) is None,
            },
    {
        proof {
            lemma_find_breaker_some(self.circuit_breakers@, name@);
        }
        let wanted = chars_of(name);
        let mut i: usize = 0;
        while i < self.circuit_breakers.len()
            invariant
                i <= self.circuit_breakers@.len(),
                wanted@ == name@,
                forall|j: int| 0 <= j < i ==> self.circuit_breakers@[j].name@ != name@,
            decreases self.circuit_breakers.len() - i,
        {
            let n = chars_of(self.circuit_breakers[i].name.as_str());
            if chars_equal(&n, &wanted) {
                proof {
                    lemma_find_breaker(self.circuit_breakers@, name@, i as int);
                }
                return Some(i);
            }
            i = i + 1;
        }
        None
    }

    /// Records a passed test on its breaker (when breakers are on and the test has
    /// one): see [`after_success`].
    #[verifier::spinoff_prover]
    pub fn handle_test_success(&mut self, test_name: &str)
        requires
            success_countable(old(self).breakers(), test_name@, old(self).cfg()),
        ensures
            final(self).cfg() == old(self).cfg(),
            final(self).strategies() == old(self).strategies(),
            final(self).history() == old(self).history(),
            success_recorded(old(self).breakers(), final(self).breakers(), test_name@, old(self).cfg()),
    {
        if !self.config.enable_circuit_breaker {
            return;
        }
        proof {
            lemma_find_breaker_some(self.circuit_breakers@, test_name@);
        }
        match self.position_of_breaker(test_name) {
            Some(i) => {
                succeed_at(&mut self.circuit_breakers, i);
            },
            None => {},
        }
    }

    /// Records a failed test on its breaker (when breakers are on), first creating a
    /// closed breaker with the configured threshold and timeout when the test has
    /// none: see [`after_failure`].
    #[verifier::spinoff_prover]
    pub fn handle_test_failure(&mut self, test_name: &str)
        requires
            failure_countable(old(self).breakers(), test_name@, old(self).cfg()),
        ensures
            final(self).cfg() == old(self).cfg(),
            final(self).strategies() == old(self).strategies(),
            final(self).history() == old(self).history(),
            failure_recorded(old(self).breakers(), final(self).breakers(), test_name@, old(self).cfg()),
    {
        if !self.config.enable_circuit_breaker {
            return;
        }
        proof {
            lemma_find_breaker_some(self.circuit_breakers@, test_name@);
        }
        match self.position_of_breaker(test_name) {
            Some(i) => {
                fail_at(&mut self.circuit_breakers, i);
            },
            None => {
                let mut b = CircuitBreaker::new(
                    test_name.to_owned(),
                    self.config.circuit_breaker_failure_threshold,
                    from_secs(self.config.circuit_breaker_timeout_seconds),
                );
                assert(b.failure_count == 0);
                b.record_failure();
                self.circuit_breakers.push(b);
            },
        }
    }

    /// Records a failure at Unix time `failure_time`, keeping the newest
    /// [`MAX_FAILURE_HISTORY`]. The error type is the name the caller gives the
    /// error.
    pub fn record_test_failure_at(
        &mut self,
        test_name: &str,
        error_type: String,
        context: TestContext,
        failure_time: i64,
    )
        ensures
            final(self).cfg() == old(self).cfg(),
            final(self).strategies() == old(self).strategies(),
            final(self).breakers() == old(self).breakers(),
            final(self).history() == history_after(old(self).history(), final(self).history().last()),
            final(self).history().last().test_name@ == test_name@,
            final(self).history().last().error_type == error_type,
            final(self).history().last().failure_time == failure_time,
            final(self).history().last().context == context,
            !final(self).history().last().recovery_attempted,
            !final(self).history().last().recovery_successful,
            final(self).history().last().recovery_time_ms is None,
    {
        let record = TestFailureRecord {
            test_name: test_name.to_owned(),
            error_type,
            failure_time,
            recovery_attempted: false,
            recovery_successful: false,
            recovery_time_ms: None,
            context,
        };
        let ghost h0 = self.failure_history@;
        self.failure_history.push(record);
        if self.failure_history.len() > MAX_FAILURE_HISTORY {
            self.failure_history.remove(0);
            assert(self.failure_history@ =~= h0.push(record).drop_first());
        }
    }

    /// Records a failure now (the time is the clock's); see
    /// [`GracefulRecoverySystem::record_test_failure_at`].
    pub fn record_test_failure(&mut self, test_name: &str, error_type: String, context: TestContext)
        ensures
            final(self).cfg() == old(self).cfg(),
            final(self).strategies() == old(self).strategies(),
            final(self).breakers() == old(self).breakers(),
            final(self).history() == history_after(old(self).history(), final(self).history().last()),
            final(self).history().last().test_name@ == test_name@,
            final(self).history().last().error_type == error_type,
            final(self).history().last().context == context,
            !final(self).history().last().recovery_attempted,
            !final(self).history().last().recovery_successful,
            final(self).history().last().recovery_time_ms is None,
    {
        let now = unix_seconds_now();
        self.record_test_failure_at(test_name, error_type, context, now);
    }
}

// ---------------------------------------------------------------------------
// Strategies and recovery plans
// ---------------------------------------------------------------------------

/// `s` lists the error type `name`.
pub open spec fn applies_to(s: RecoveryStrategy, name: Seq<char>) -> bool {
    exists|k: int| 0 <= k < s.applicable_errors@.len() && s.applicable_errors@[k]@ == name
}

/// Position of the first strategy from `i` on that lists `name`.
pub open spec fn find_strategy_from(ss: Seq<(String, RecoveryStrategy)>, name: Seq<char>, i: int) -> Option<
    int,
>
    decreases ss.len() - i,
{
    if i < 0 || i >= ss.len() {
        None
    } else if applies_to(ss[i].1, name) {
        Some(i)
    } else {
        find_strategy_from(ss, name, i + 1)
    }
}

/// Position of the first strategy that lists `name`.
pub open spec fn find_strategy(ss: Seq<(String, RecoveryStrategy)>, name: Seq<char>) -> Option<int> {
    find_strategy_from(ss, name, 0)
}

/// What a recovery action takes and whether it works: a backoff waits the base
/// retry delay, a fallback 100 ms, a resource reduction 200 ms, a cleanup 500 ms and
/// new test data 1 s, all of which succeed; restarting a component is not
/// available and fails at once.
#[derive(Debug, Clone, Copy, PartialEq, Eq, Structural)]
pub struct PlannedAction {
    pub action_type: RecoveryActionType,
    pub pause_ms: u64,
    pub succeeds: bool,
}

pub open spec fn planned_action(t: RecoveryActionType, base_delay_ms: u64) -> PlannedAction {
    match t {
        RecoveryActionType::RetryWithBackoff => PlannedAction {
            action_type: t,
            pause_ms: base_delay_ms,
            succeeds: true,
        },
        RecoveryActionType::FallbackToAlternative => PlannedAction {
            action_type: t,
            pause_ms: 100,
            succeeds: true,
        },
        RecoveryActionType::ReduceResourceUsage => PlannedAction {
            action_type: t,
            pause_ms: 200,
            succeeds: true,
        },
        RecoveryActionType::CleanupResources => PlannedAction {
            action_type: t,
            pause_ms: 500,
            succeeds: true,
        },
        RecoveryActionType::UpdateTestData => PlannedAction {
            action_type: t,
            pause_ms: 1000,
            succeeds: true,
        },
        RecoveryActionType::RestartComponent => PlannedAction {
            action_type: t,
            pause_ms: 0,
            succeeds: false,
        },
    }
}

/// The plan for one action of a strategy.
pub fn plan_action(t: RecoveryActionType, base_delay_ms: u64) -> (p: PlannedAction)
    ensures
        p == planned_action(t, base_delay_ms),
{
    match t {
        RecoveryActionType::RetryWithBackoff => PlannedAction {
            action_type: t,
            pause_ms: base_delay_ms,
            succeeds: true,
        },
        RecoveryActionType::FallbackToAlternative => PlannedAction {
            action_type: t,
            pause_ms: 100,
            succeeds: true,
        },
        RecoveryActionType::ReduceResourceUsage => PlannedAction {
            action_type: t,
            pause_ms: 200,
            succeeds: true,
        },
        RecoveryActionType::CleanupResources => PlannedAction {
            action_type: t,
            pause_ms: 500,
            succeeds: true,
        },
        RecoveryActionType::UpdateTestData => PlannedAction {
            action_type: t,
            pause_ms: 1000,
            succeeds: true,
        },
        RecoveryActionType::RestartComponent => PlannedAction {
            action_type: t,
            pause_ms: 0,
            succeeds: false,
        },
    }
}

/// The actions a strategy runs, in order, up to and including the first that
/// works.
pub open spec fn planned_actions(acts: Seq<RecoveryAction>, base_delay_ms: u64) -> Seq<PlannedAction>
    decreases acts.len(),
{
    if acts.len() == 0 {
        Seq::empty()
    } else {
        let p = planned_action(acts[0].action_type, base_delay_ms);
        if p.succeeds {
            seq![p]
        } else {
            seq![p] + planned_actions(acts.drop_first(), base_delay_ms)
        }
    }
}

/// Whether some planned action works.
pub open spec fn plan_succeeds(plan: Seq<PlannedAction>) -> bool {
    exists|k: int| 0 <= k < plan.len() && plan[k].succeeds
}

/// What a recovery attempt will do, and whether it will succeed.
#[derive(Debug)]
pub struct RecoveryPlan {
    pub actions: Vec<PlannedAction>,
    pub success: bool,
}

/// The plan for an error under strategies `ss`: the actions of the first strategy
/// that lists the error's type, or else one backoff of the base delay.
pub open spec fn recovery_plan(
    ss: Seq<(String, RecoveryStrategy)>,
    e: TestingError,
    base_delay_ms: u64,
) -> Seq<PlannedAction> {
    match find_strategy(ss, error_type_name(e)) {
        Some(i) => planned_actions(ss[i].1.recovery_actions@, base_delay_ms),
        None => seq![planned_action(RecoveryActionType::RetryWithBackoff, base_delay_ms)],
    }
}

fn plan_strategy_actions(acts: &Vec<RecoveryAction>, base_delay_ms: u64) -> (out: Vec<PlannedAction>)
    ensures
        out@ == planned_actions(acts@, base_delay_ms),
{
    let mut out: Vec<PlannedAction> = Vec::new();
    let mut i: usize = 0;
    assert(acts@.skip(0) =~= acts@);
    assert(out@ + planned_actions(acts@.skip(0), base_delay_ms) =~= planned_actions(
        acts@,
        base_delay_ms,
    ));
    while i < acts.len()
        invariant
            i <= acts@.len(),
            planned_actions(acts@, base_delay_ms) == out@ + planned_actions(
                acts@.skip(i as int),
                base_delay_ms,
            ),
        decreases acts.len() - i,
    {
        let p = plan_action(acts[i].action_type, base_delay_ms);
        let ghost rest = acts@.skip(i as int);
        assert(rest[0] == acts@[i as int]);
        assert(rest.drop_first() =~= acts@.skip(i as int + 1));
        let ghost before = out@;
        out.push(p);
        if p.succeeds {
            assert(planned_actions(rest, base_delay_ms) == seq![p]);
            assert(out@ =~= before + seq![p]);
            return out;
        }
        assert(planned_actions(rest, base_delay_ms) == seq![p] + planned_actions(
            acts@.skip(i as int + 1),
            base_delay_ms,
        ));
        assert(out@ + planned_actions(acts@.skip(i as int + 1), base_delay_ms) =~= before + (seq![p]
            + planned_actions(acts@.skip(i as int + 1), base_delay_ms)));
        i = i + 1;
    }
    assert(acts@.skip(i as int) =~= Seq::<RecoveryAction>::empty());
    assert(out@ + Seq::<PlannedAction>::empty() =~= out@);
    out
}

// ---------------------------------------------------------------------------
// Running a test under the policy
// ---------------------------------------------------------------------------

/// A test run in progress: the attempts so far, the recovery actions taken and the
/// errors met.
#[derive(Debug)]
pub struct RecoveryRun {
    pub test_name: String,
    pub attempts_made: u32,
    pub recovery_actions_taken: Vec<RecoveryActionResult>,
    pub errors_encountered: Vec<TestingError>,
}

impl RecoveryRun {
    /// A run of `test_name` with nothing done yet.
    pub fn new(test_name: String) -> (r: RecoveryRun)
        ensures
            r.test_name == test_name,
            r.attempts_made == 0,
            r.recovery_actions_taken@.len() == 0,
            r.errors_encountered@.len() == 0,
    {
        RecoveryRun {
            test_name,
            attempts_made: 0,
            recovery_actions_taken: Vec::new(),
            errors_encountered: Vec::new(),
        }
    }

    /// The outcome of the run, once it ends with `status` after `total_ms`
    /// milliseconds; recovery counts as successful exactly when the test passed
    /// after recovery actions.
    pub fn finish(self, status: TestExecutionStatus, total_ms: u64) -> (r: RecoverableTestResult)
        ensures
            r.test_name == self.test_name,
            r.final_result == status,
            r.attempts_made == self.attempts_made,
            r.total_execution_time_ms == total_ms,
            r.recovery_actions_taken == self.recovery_actions_taken,
            r.errors_encountered == self.errors_encountered,
            r.recovery_successful == (status == TestExecutionStatus::Recovered),
    {
        RecoverableTestResult {
            test_name: self.test_name,
            final_result: status,
            attempts_made: self.attempts_made,
            total_execution_time_ms: total_ms,
            recovery_actions_taken: self.recovery_actions_taken,
            errors_encountered: self.errors_encountered,
            recovery_successful: status == TestExecutionStatus::Recovered,
        }
    }
}

/// What follows a failed attempt.
#[derive(Debug)]
pub enum AttemptDecision {
    /// The run ends with this status.
    Finish(TestExecutionStatus),
    /// Run the recovery plan, wait `delay_ms`, then try again.
    Retry { plan: RecoveryPlan, delay_ms: u64 },
}

/// The result of a recovery action that took `elapsed_ms`; one that did not work
/// says it is not available.
pub fn action_result(action_type: RecoveryActionType, succeeded: bool, elapsed_ms: u64) -> (r:
    RecoveryActionResult)
    ensures
        r.action_type == action_type,
        r.success == succeeded,
        r.execution_time_ms == elapsed_ms,
        succeeded ==> r.error_message is None,
        !succeeded ==> (r.error_message matches Some(m) && m@
            == "Recovery action not fully implemented"@),
{
    RecoveryActionResult {
        action_type,
        success: succeeded,
        execution_time_ms: elapsed_ms,
        error_message: if succeeded {
            None
        } else {
            Some("Recovery action not fully implemented".to_owned())
        },
    }
}

impl GracefulRecoverySystem {
    /// Position of the first strategy that lists the error's type.
    pub fn find_recovery_strategy(&self, error: &TestingError) -> (r: Option<usize>)
        ensures
            match r {
                Some(i) => find_strategy(self.strategies(), error_type_name(*error)) == Some(
                    i as int,
                ) && i < self.strategies().len(),
                None => find_strategy(self.strategies(), error_type_name(*error)) is None,
            },
    {
        let name = error_type_of(error);
        let wanted = name.to_owned();
        let mut i: usize = 0;
        while i < self.recovery_strategies.len()
            invariant
                i <= self.recovery_strategies@.len(),
                wanted@ == error_type_name(*error),
                find_strategy(self.recovery_strategies@, wanted@) == find_strategy_from(
                    self.recovery_strategies@,
                    wanted@,
                    i as int,
                ),
            decreases self.recovery_strategies.len() - i,
        {
            let errs = &self.recovery_strategies[i].1.applicable_errors;
            let mut k: usize = 0;
            let mut found = false;
            while k < errs.len()
                invariant
                    k <= errs@.len(),
                    found == exists|m: int| 0 <= m < k && errs@[m]@ == wanted@,
                decreases errs.len() - k,
            {
                if errs[k] == wanted {
                    found = true;
                }
                k = k + 1;
            }
            if found {
                return Some(i);
            }
            i = i + 1;
        }
        None
    }

    /// What recovering from `error` will do: the actions of the first strategy for
    /// its type, or one backoff; the plan succeeds when one of its actions works.
    pub fn plan_recovery(&self, error: &TestingError) -> (p: RecoveryPlan)
        ensures
            p.actions@ == recovery_plan(self.strategies(), *error, self.cfg().base_retry_delay_ms),
            p.success == plan_succeeds(p.actions@),
    {
        let actions = match self.find_recovery_strategy(error) {
            Some(i) => plan_strategy_actions(
                &self.recovery_strategies[i].1.recovery_actions,
                self.config.base_retry_delay_ms,
            ),
            None => {
                let mut v: Vec<PlannedAction> = Vec::new();
                v.push(plan_action(RecoveryActionType::RetryWithBackoff, self.config.base_retry_delay_ms));
                v
            },
        };
        let mut success = false;
        let mut k: usize = 0;
        while k < actions.len()
            invariant
                k <= actions@.len(),
                success == exists|m: int| 0 <= m < k && actions@[m].succeeds,
            decreases actions.len() - k,
        {
            if actions[k].succeeds {
                success = true;
            }
            k = k + 1;
        }
        RecoveryPlan { actions, success }
    }

    /// Whether a test may start, once it is known whether the timeout of its open
    /// breaker has passed: with breakers on, a test whose breaker is open after a
    /// recorded failure is refused until the timeout has passed, and then its
    /// breaker becomes half-open. Every other test starts and nothing changes.
    #[verifier::spinoff_prover]
    pub fn begin_test_with(&mut self, test_name: &str, timed_out: bool) -> (proceed: bool)
        ensures
            final(self).cfg() == old(self).cfg(),
            final(self).strategies() == old(self).strategies(),
            final(self).history() == old(self).history(),
            test_begun(
                old(self).breakers(),
                final(self).breakers(),
                old(self).cfg(),
                test_name@,
                timed_out,
                proceed,
            ),
    {
        if !self.config.enable_circuit_breaker {
            return true;
        }
        match self.position_of_breaker(test_name) {
            Some(i) => {
                let open = self.circuit_breakers[i].state == CircuitBreakerState::Open
                    && self.circuit_breakers[i].last_failure_time.is_some();
                if !open {
                    return true;
                }
                if !timed_out {
                    return false;
                }
                half_open_at(&mut self.circuit_breakers, i);
                true
            },
            None => true,
        }
    }

    /// Whether a test may start when `elapsed_nanos` nanoseconds have passed since
    /// its breaker's last failure: the timeout has passed once that time reaches the
    /// breaker's timeout duration (see [`GracefulRecoverySystem::begin_test_with`]).
    pub fn begin_test_after(&mut self, test_name: &str, elapsed_nanos: u128) -> (proceed: bool)
        ensures
            final(self).cfg() == old(self).cfg(),
            final(self).strategies() == old(self).strategies(),
            final(self).history() == old(self).history(),
            test_begun(
                old(self).breakers(),
                final(self).breakers(),
                old(self).cfg(),
                test_name@,
                breaker_timeout_passed(old(self).breakers(), test_name@, elapsed_nanos),
                proceed,
            ),
    {
        let timed_out = match self.position_of_breaker(test_name) {
            Some(i) => elapsed_nanos >= as_nanos(&self.circuit_breakers[i].timeout_duration),
            None => false,
        };
        self.begin_test_with(test_name, timed_out)
    }

    /// Whether a test may start now: the time since its breaker's last failure, read
    /// from the clock, is held against the breaker's timeout (see
    /// [`GracefulRecoverySystem::begin_test_after`]). The clock is read only for an
    /// open breaker with a recorded failure; a zero timeout has always passed.
    pub fn begin_test(&mut self, test_name: &str) -> (proceed: bool)
        ensures
            final(self).cfg() == old(self).cfg(),
            final(self).strategies() == old(self).strategies(),
            final(self).history() == old(self).history(),
            exists|elapsed_nanos: u128|
                test_begun(
                    old(self).breakers(),
                    final(self).breakers(),
                    old(self).cfg(),
                    test_name@,
                    #[trigger] breaker_timeout_passed(old(self).breakers(), test_name@, elapsed_nanos),
                    proceed,
                ),
            match find_breaker(old(self).breakers(), test_name@) {
                Some(i) if old(self).cfg().enable_circuit_breaker && old(self).breakers()[i].state
                    == CircuitBreakerState::Open && old(self).breakers()[i].last_failure_time is Some => {
                    &&& proceed ==> final(self).breakers()[i].state == CircuitBreakerState::HalfOpen
                    &&& duration_nanos(old(self).breakers()[i].timeout_duration) == 0 ==> proceed
                },
                _ => proceed && final(self).breakers() == old(self).breakers(),
            },
    {
        let mut elapsed_nanos: u128 = 0;
        if self.config.enable_circuit_breaker {
            match self.position_of_breaker(test_name) {
                Some(i) => {
                    match &self.circuit_breakers[i].last_failure_time {
                        Some(last) => {
                            if self.circuit_breakers[i].state == CircuitBreakerState::Open {
                                let elapsed = elapsed_since(last);
                                elapsed_nanos = as_nanos(&elapsed);
                            }
                        },
                        None => {},
                    }
                },
                None => {},
            }
        }
        self.begin_test_after(test_name, elapsed_nanos)
    }

    /// Ends an attempt that passed: the test's breaker records the success, and the
    /// run ends as a success, or as recovered when recovery actions were taken.
    pub fn on_test_passed(&mut self, run: &mut RecoveryRun) -> (status: TestExecutionStatus)
        requires
            old(run).attempts_made < u32::MAX,
            success_countable(old(self).breakers(), old(run).test_name@, old(self).cfg()),
        ensures
            final(run).attempts_made == old(run).attempts_made + 1,
            final(run).test_name == old(run).test_name,
            final(run).recovery_actions_taken == old(run).recovery_actions_taken,
            final(run).errors_encountered == old(run).errors_encountered,
            status == (if old(run).recovery_actions_taken@.len() == 0 {
                TestExecutionStatus::Success
            } else {
                TestExecutionStatus::Recovered
            }),
            final(self).cfg() == old(self).cfg(),
            final(self).strategies() == old(self).strategies(),
            final(self).history() == old(self).history(),
            success_recorded(
                old(self).breakers(),
                final(self).breakers(),
                old(run).test_name@,
                old(self).cfg(),
            ),
    {
        run.attempts_made = run.attempts_made + 1;
        self.handle_test_success(run.test_name.as_str());
        if run.recovery_actions_taken.len() == 0 {
            TestExecutionStatus::Success
        } else {
            TestExecutionStatus::Recovered
        }
    }

    /// Ends an attempt that failed with `error`: the error is kept and recorded in
    /// the history at `failure_time` under `error_type`. When the attempts reach the
    /// configured maximum, the test's breaker records the failure and the run fails;
    /// otherwise the recovery plan for the error is returned with the backoff delay
    /// for this attempt.
    pub fn on_test_failed(
        &mut self,
        run: &mut RecoveryRun,
        error: TestingError,
        error_type: String,
        context: TestContext,
        failure_time: i64,
    ) -> (d: AttemptDecision)
        requires
            old(run).attempts_made < u32::MAX,
            old(run).attempts_made + 1 < old(self).cfg().max_retry_attempts ==> old(run).attempts_made
                < 64 && old(self).cfg().base_retry_delay_ms * pow2(old(run).attempts_made as nat)
                <= u64::MAX,
            old(run).attempts_made + 1 >= old(self).cfg().max_retry_attempts ==> failure_countable(
                old(self).breakers(),
                old(run).test_name@,
                old(self).cfg(),
            ),
        ensures
            final(run).attempts_made == old(run).attempts_made + 1,
            final(run).test_name == old(run).test_name,
            final(run).recovery_actions_taken == old(run).recovery_actions_taken,
            final(run).errors_encountered@ == old(run).errors_encountered@.push(error),
            final(self).cfg() == old(self).cfg(),
            final(self).strategies() == old(self).strategies(),
            final(self).history() == history_after(old(self).history(), final(self).history().last()),
            final(self).history().last().test_name@ == old(run).test_name@,
            final(self).history().last().error_type == error_type,
            final(self).history().last().failure_time == failure_time,
            final(self).history().last().context == context,
            !final(self).history().last().recovery_attempted,
            !final(self).history().last().recovery_successful,
            final(self).history().last().recovery_time_ms is None,
            final(run).attempts_made >= old(self).cfg().max_retry_attempts ==> {
                &&& d == AttemptDecision::Finish(TestExecutionStatus::Failed)
                &&& failure_recorded(
                    old(self).breakers(),
                    final(self).breakers(),
                    old(run).test_name@,
                    old(self).cfg(),
                )
            },
            final(run).attempts_made < old(self).cfg().max_retry_attempts ==> {
                &&& d matches AttemptDecision::Retry { plan, delay_ms }
                &&& plan.actions@ == recovery_plan(
                    old(self).strategies(),
                    error,
                    old(self).cfg().base_retry_delay_ms,
                )
                &&& plan.success == plan_succeeds(plan.actions@)
                &&& delay_ms == retry_delay_ms(
                    old(self).cfg().base_retry_delay_ms as nat,
                    old(self).cfg().max_retry_delay_ms as nat,
                    final(run).attempts_made as nat,
                )
                &&& final(self).breakers() == old(self).breakers()
            },
    {
        run.attempts_made = run.attempts_made + 1;
        let plan = self.plan_recovery(&error);
        run.errors_encountered.push(error);
        self.record_test_failure_at(run.test_name.as_str(), error_type, context, failure_time);
        if run.attempts_made >= self.config.max_retry_attempts {
            self.handle_test_failure(run.test_name.as_str());
            return AttemptDecision::Finish(TestExecutionStatus::Failed);
        }
        let delay_ms = retry_delay_millis(&self.config, run.attempts_made);
        AttemptDecision::Retry { plan, delay_ms }
    }

    /// With adaptive strategies on and a failure rate above the configured threshold
    /// (the caller compares the two rates), every strategy whose success rate is
    /// below one half gets a component restart as its last action. Rates are
    /// non-negative, so their bit patterns order as their values.
    pub fn update_adaptive_strategies(&mut self, failure_rate_above_threshold: bool)
        ensures
            final(self).cfg() == old(self).cfg(),
            final(self).history() == old(self).history(),
            final(self).breakers() == old(self).breakers(),
            final(self).strategies().len() == old(self).strategies().len(),
            forall|i: int|
                0 <= i < old(self).strategies().len() ==> strategy_adapted(
                    old(self).strategies()[i],
                    #[trigger] final(self).strategies()[i],
                    old(self).cfg().enable_adaptive_strategies && failure_rate_above_threshold,
                ),
    {
        if !self.config.enable_adaptive_strategies || !failure_rate_above_threshold {
            return;
        }
        let n = self.recovery_strategies.len();
        let mut i: usize = 0;
        while i < n
            invariant
                n == old(self).recovery_strategies@.len(),
                i <= n,
                self.config == old(self).config,
                self.failure_history == old(self).failure_history,
                self.circuit_breakers == old(self).circuit_breakers,
                self.recovery_strategies@.len() == n,
                old(self).config.enable_adaptive_strategies,
                failure_rate_above_threshold,
                forall|j: int|
                    i <= j < n ==> self.recovery_strategies@[j] == old(self).recovery_strategies@[j],
                forall|j: int|
                    0 <= j < i ==> strategy_adapted(
                        old(self).recovery_strategies@[j],
                        #[trigger] self.recovery_strategies@[j],
                        true,
                    ),
            decreases n - i,
        {
            if self.recovery_strategies[i].1.success_rate < F32_HALF {
                let (key, mut strategy) = self.recovery_strategies.remove(i);
                let ghost before = strategy.recovery_actions@;
                let mut fx: Vec<String> = Vec::new();
                fx.push("May affect other tests".to_owned());
                strategy.recovery_actions.push(
                    RecoveryAction {
                        action_type: RecoveryActionType::RestartComponent,
                        description: "Restart component due to repeated failures".to_owned(),
                        priority: ActionPriority::High,
                        estimated_time_minutes: 5,
                        success_probability: 0x3f4ccccd,  // 0.8
                        side_effects: fx,
                    },
                );
                assert(strategy.recovery_actions@.drop_last() =~= before);
                self.recovery_strategies.insert(i, (key, strategy));
            }
            i = i + 1;
        }
    }
}

/// `s1` is the strategy `s0` after adaptation: when `adapt` holds and its success
/// rate is below one half, a high-priority component restart is added as its last
/// action; nothing else changes.
pub open spec fn strategy_adapted(
    s0: (String, RecoveryStrategy),
    s1: (String, RecoveryStrategy),
    adapt: bool,
) -> bool {
    &&& s1.0 == s0.0
    &&& s1.1.strategy_name == s0.1.strategy_name
    &&& s1.1.applicable_errors == s0.1.applicable_errors
    &&& s1.1.success_rate == s0.1.success_rate
    &&& if adapt && s0.1.success_rate < F32_HALF {
        &&& s1.1.recovery_actions@.len() == s0.1.recovery_actions@.len() + 1
        &&& s1.1.recovery_actions@.drop_last() == s0.1.recovery_actions@
        &&& s1.1.recovery_actions@.last().action_type == RecoveryActionType::RestartComponent
        &&& s1.1.recovery_actions@.last().priority == ActionPriority::High
    } else {
        s1.1.recovery_actions@ == s0.1.recovery_actions@
    }
}

/// Bit pattern of the `f32` value 0.5.
pub const F32_HALF: u32 = 0x3f000000;

// ---------------------------------------------------------------------------
// Failure statistics
// ---------------------------------------------------------------------------

/// Seconds in the window of recent failures.
pub const RECENT_WINDOW_SECONDS: i64 = 86400;

/// The failure happened less than a day before `now`.
pub open spec fn is_recent(r: TestFailureRecord, now: i64) -> bool {
    now - r.failure_time < RECENT_WINDOW_SECONDS
}

/// Number of recent failures with `pred`.
pub open spec fn count_recent(
    h: Seq<TestFailureRecord>,
    now: i64,
    pred: spec_fn(TestFailureRecord) -> bool,
) -> nat
    decreases h.len(),
{
    if h.len() == 0 {
        0
    } else {
        count_recent(h.drop_last(), now, pred) + if is_recent(h.last(), now) && pred(h.last()) {
            1nat
        } else {
            0nat
        }
    }
}

/// Total recovery time of the recent failures that have one.
pub open spec fn recent_recovery_time(h: Seq<TestFailureRecord>, now: i64) -> nat
    decreases h.len(),
{
    if h.len() == 0 {
        0
    } else {
        recent_recovery_time(h.drop_last(), now) + match h.last().recovery_time_ms {
            Some(t) if is_recent(h.last(), now) => t as nat,
            _ => 0nat,
        }
    }
}

/// The counts the failure statistics are computed from.
#[derive(Debug, Clone, Copy, PartialEq, Eq, Structural)]
pub struct FailureCounts {
    pub total_failures: usize,
    /// Failures in the last day.
    pub recent_failures: usize,
    pub recovery_attempts: usize,
    pub successful_recoveries: usize,
    pub total_recovery_time_ms: u64,
}

proof fn lemma_count_recent_le(h: Seq<TestFailureRecord>, now: i64, pred: spec_fn(TestFailureRecord) -> bool)
    ensures
        count_recent(h, now, pred) <= h.len(),
    decreases h.len(),
{
    if h.len() > 0 {
        lemma_count_recent_le(h.drop_last(), now, pred);
    }
}

impl GracefulRecoverySystem {
    /// The counts of all failures and, among those of the last day before `now`,
    /// of failures, recovery attempts, successful recoveries and the total recovery
    /// time.
    pub fn failure_counts(&self, now: i64) -> (c: FailureCounts)
        requires
            recent_recovery_time(self.history(), now) <= u64::MAX,
        ensures
            c.total_failures == self.history().len(),
            c.recent_failures == count_recent(self.history(), now, |r: TestFailureRecord| true),
            c.recovery_attempts == count_recent(
                self.history(),
                now,
                |r: TestFailureRecord| r.recovery_attempted,
            ),
            c.successful_recoveries == count_recent(
                self.history(),
                now,
                |r: TestFailureRecord| r.recovery_successful,
            ),
            c.total_recovery_time_ms == recent_recovery_time(self.history(), now),
    {
        let ghost h = self.failure_history@;
        let ghost all = |r: TestFailureRecord| true;
        let ghost attempted = |r: TestFailureRecord| r.recovery_attempted;
        let ghost succeeded = |r: TestFailureRecord| r.recovery_successful;
        let mut recent: usize = 0;
        let mut attempts: usize = 0;
        let mut successes: usize = 0;
        let mut time: u64 = 0;
        let mut i: usize = 0;
        proof {
            lemma_recovery_time_monotone(h, now, h.len() as int);
            assert(h.take(h.len() as int) =~= h);
        }
        while i < self.failure_history.len()
            invariant
                h == self.failure_history@,
                all == (|r: TestFailureRecord| true),
                attempted == (|r: TestFailureRecord| r.recovery_attempted),
                succeeded == (|r: TestFailureRecord| r.recovery_successful),
                i <= h.len(),
                recent == count_recent(h.take(i as int), now, all),
                attempts == count_recent(h.take(i as int), now, attempted),
                successes == count_recent(h.take(i as int), now, succeeded),
                time == recent_recovery_time(h.take(i as int), now),
                recent_recovery_time(h, now) <= u64::MAX,
                forall|k: int| 0 <= k <= h.len() ==> recent_recovery_time(#[trigger] h.take(k), now)
                    <= recent_recovery_time(h, now),
            decreases h.len() - i,
        {
            proof {
                lemma_count_recent_le(h.take(i as int), now, all);
                lemma_count_recent_le(h.take(i as int), now, attempted);
                lemma_count_recent_le(h.take(i as int), now, succeeded);
                assert(h.take(i as int + 1).drop_last() =~= h.take(i as int));
                assert(h.take(i as int + 1).last() == h[i as int]);
                assert(recent_recovery_time(h.take(i as int + 1), now) <= recent_recovery_time(h, now));
            }
            let r = &self.failure_history[i];
            let age: i128 = now as i128 - r.failure_time as i128;
            if age < RECENT_WINDOW_SECONDS as i128 {
                recent = recent + 1;
                if r.recovery_attempted {
                    attempts = attempts + 1;
                }
                if r.recovery_successful {
                    successes = successes + 1;
                }
                match r.recovery_time_ms {
                    Some(t) => {
                        time = time + t;
                    },
                    None => {},
                }
            }
            i = i + 1;
        }
        assert(h.take(i as int) =~= h);
        FailureCounts {
            total_failures: self.failure_history.len(),
            recent_failures: recent,
            recovery_attempts: attempts,
            successful_recoveries: successes,
            total_recovery_time_ms: time,
        }
    }
}

proof fn lemma_recovery_time_monotone(h: Seq<TestFailureRecord>, now: i64, n: int)
    requires
        0 <= n <= h.len(),
    ensures
        forall|k: int| 0 <= k <= n ==> recent_recovery_time(#[trigger] h.take(k), now)
            <= recent_recovery_time(h.take(n), now),
    decreases n,
{
    if n > 0 {
        lemma_recovery_time_monotone(h, now, n - 1);
        assert(h.take(n).drop_last() =~= h.take(n - 1));
    }
    assert(h.take(n) =~= h.take(n));
}

// ---------------------------------------------------------------------------
// Most common errors
// ---------------------------------------------------------------------------

/// An error type and how often it occurred.
pub type ErrorCount = (Seq<char>, nat);

/// The tally `t` after one more error of type `name`: its count goes up, or it is
/// added at the end with a count of one.
pub open spec fn tally_add(t: Seq<ErrorCount>, name: Seq<char>) -> Seq<ErrorCount> {
    if exists|i: int| 0 <= i < t.len() && t[i].0 == name {
        let i = choose|i: int| 0 <= i < t.len() && t[i].0 == name;
        t.update(i, (name, t[i].1 + 1))
    } else {
        t.push((name, 1nat))
    }
}

/// The error types of the failures of the last day before `now`, in the order
/// they first occur, each with its number of failures.
pub open spec fn error_tally(h: Seq<TestFailureRecord>, now: i64) -> Seq<ErrorCount>
    decreases h.len(),
{
    if h.len() == 0 {
        Seq::empty()
    } else {
        let t = error_tally(h.drop_last(), now);
        if is_recent(h.last(), now) {
            tally_add(t, h.last().error_type@)
        } else {
            t
        }
    }
}

/// Inserts `x` after every entry whose count is at least `x`'s, scanning from the
/// back: a step of a stable insertion sort by descending count.
pub open spec fn insert_ranked(s: Seq<ErrorCount>, x: ErrorCount) -> Seq<ErrorCount>
    decreases s.len(),
{
    if s.len() == 0 {
        seq![x]
    } else if s.last().1 >= x.1 {
        s.push(x)
    } else {
        insert_ranked(s.drop_last(), x).push(s.last())
    }
}

/// The tally ordered by descending count; equal counts keep their order.
pub open spec fn ranked(s: Seq<ErrorCount>) -> Seq<ErrorCount>
    decreases s.len(),
{
    if s.len() == 0 {
        Seq::empty()
    } else {
        insert_ranked(ranked(s.drop_last()), s.last())
    }
}

/// The five most common error types of the last day, most common first.
pub open spec fn most_common_errors(h: Seq<TestFailureRecord>, now: i64) -> Seq<ErrorCount> {
    let r = ranked(error_tally(h, now));
    if r.len() > 5 {
        r.take(5)
    } else {
        r
    }
}

/// Counts never increase along `s`.
pub open spec fn counts_descending(s: Seq<ErrorCount>) -> bool {
    forall|i: int, j: int| 0 <= i < j < s.len() ==> s[i].1 >= s[j].1
}

proof fn lemma_insert_ranked(s: Seq<ErrorCount>, x: ErrorCount, lo: nat)
    requires
        counts_descending(s),
        forall|i: int| 0 <= i < s.len() ==> s[i].1 >= lo,
        x.1 >= lo,
    ensures
        counts_descending(insert_ranked(s, x)),
        insert_ranked(s, x).len() == s.len() + 1,
        forall|k: int| 0 <= k < insert_ranked(s, x).len() ==> insert_ranked(s, x)[k].1 >= lo,
    decreases s.len(),
{
    if s.len() > 0 && s.last().1 < x.1 {
        let rest = s.drop_last();
        lemma_insert_ranked(rest, x, s.last().1);
        let r = insert_ranked(rest, x);
        assert(insert_ranked(s, x) == r.push(s.last()));
        assert forall|i: int, j: int| 0 <= i < j < r.len() + 1 implies r.push(s.last())[i].1 >= r.push(
            s.last(),
        )[j].1 by {
            if j == r.len() {
                assert(r[i].1 >= s.last().1);
            }
        }
    }
}

proof fn lemma_ranked_descending(s: Seq<ErrorCount>)
    ensures
        counts_descending(ranked(s)),
        ranked(s).len() == s.len(),
    decreases s.len(),
{
    if s.len() > 0 {
        lemma_ranked_descending(s.drop_last());
        lemma_insert_ranked(ranked(s.drop_last()), s.last(), 0);
    }
}

/// The most common error types come most common first, and there are at most five.
pub proof fn lemma_most_common_errors_ranked(h: Seq<TestFailureRecord>, now: i64)
    ensures
        most_common_errors(h, now).len() <= 5,
        counts_descending(most_common_errors(h, now)),
{
    lemma_ranked_descending(error_tally(h, now));
}

/// Views of counted error types.
pub open spec fn count_views(v: Seq<(String, u32)>) -> Seq<ErrorCount> {
    v.map_values(|e: (String, u32)| (e.0@, e.1 as nat))
}

pub open spec fn distinct_names(t: Seq<ErrorCount>) -> bool {
    forall|i: int, j: int| 0 <= i < j < t.len() ==> t[i].0 != t[j].0
}

proof fn lemma_tally_distinct(h: Seq<TestFailureRecord>, now: i64)
    ensures
        distinct_names(error_tally(h, now)),
        error_tally(h, now).len() <= h.len(),
        forall|i: int| 0 <= i < error_tally(h, now).len() ==> #[trigger] error_tally(h, now)[i].1 <= h.len(),
    decreases h.len(),
{
    if h.len() > 0 {
        lemma_tally_distinct(h.drop_last(), now);
        let t = error_tally(h.drop_last(), now);
        if is_recent(h.last(), now) {
            let name = h.last().error_type@;
            if exists|i: int| 0 <= i < t.len() && t[i].0 == name {
                let i = choose|i: int| 0 <= i < t.len() && t[i].0 == name;
                let u = t.update(i, (name, t[i].1 + 1));
                assert forall|a: int, b: int| 0 <= a < b < u.len() implies u[a].0 != u[b].0 by {
                    assert(t[a].0 != t[b].0);
                }
            }
        }
    }
}

proof fn lemma_insert_ranked_at(s: Seq<ErrorCount>, x: ErrorCount, p: int)
    requires
        0 <= p <= s.len(),
        forall|j: int| p <= j < s.len() ==> s[j].1 < x.1,
        p > 0 ==> s[p - 1].1 >= x.1,
    ensures
        insert_ranked(s, x) =~= s.insert(p, x),
    decreases s.len(),
{
    if s.len() == 0 {
    } else if p == s.len() {
    } else {
        lemma_insert_ranked_at(s.drop_last(), x, p);
        assert(s.insert(p, x) =~= s.drop_last().insert(p, x).push(s.last()));
    }
}

fn insert_ranked_exec(v: &mut Vec<(String, u32)>, x: (String, u32))
    ensures
        count_views(final(v)@) == insert_ranked(count_views(old(v)@), (x.0@, x.1 as nat)),
{
    let mut p = v.len();
    while p > 0 && v[p - 1].1 < x.1
        invariant
            p <= v@.len(),
            forall|j: int| p <= j < v@.len() ==> v@[j].1 < x.1,
        decreases p,
    {
        p = p - 1;
    }
    let ghost before = v@;
    proof {
        lemma_insert_ranked_at(count_views(v@), (x.0@, x.1 as nat), p as int);
    }
    v.insert(p, x);
    assert(count_views(v@) =~= count_views(before).insert(p as int, (x.0@, x.1 as nat)));
}

impl GracefulRecoverySystem {
    /// The error types of the failures of the last day before `now`, in the order
    /// they first occur, with their counts.
    pub fn error_counts(&self, now: i64) -> (out: Vec<(String, u32)>)
        requires
            self.history().len() <= u32::MAX,
        ensures
            count_views(out@) == error_tally(self.history(), now),
    {
        let ghost h = self.failure_history@;
        let mut out: Vec<(String, u32)> = Vec::new();
        let mut i: usize = 0;
        while i < self.failure_history.len()
            invariant
                h == self.failure_history@,
                h.len() <= u32::MAX,
                i <= h.len(),
                count_views(out@) == error_tally(h.take(i as int), now),
            decreases h.len() - i,
        {
            proof {
                lemma_tally_distinct(h.take(i as int), now);
                assert(h.take(i as int + 1).drop_last() =~= h.take(i as int));
                assert(h.take(i as int + 1).last() == h[i as int]);
            }
            let r = &self.failure_history[i];
            let age: i128 = now as i128 - r.failure_time as i128;
            if age < RECENT_WINDOW_SECONDS as i128 {
                let ghost t = count_views(out@);
                let mut j: usize = 0;
                while j < out.len()
                    invariant
                        j <= out@.len(),
                        t == count_views(out@),
                        forall|k: int| 0 <= k < j ==> out@[k].0@ != r.error_type@,
                    ensures
                        j <= out@.len(),
                        t == count_views(out@),
                        forall|k: int| 0 <= k < j ==> out@[k].0@ != r.error_type@,
                        j < out@.len() ==> out@[j as int].0@ == r.error_type@,
                    decreases out.len() - j,
                {
                    if out[j].0 == r.error_type {
                        break;
                    }
                    j = j + 1;
                }
                let found = j < out.len();
                if found {
                    proof {
                        assert(t[j as int] == (out@[j as int].0@, out@[j as int].1 as nat));
                        assert(t[j as int].0 == r.error_type@);
                        let c = choose|c: int| 0 <= c < t.len() && t[c].0 == r.error_type@;
                        if c != j as int {
                            assert(t[c].0 != t[j as int].0);
                        }
                        assert(t[j as int].1 <= i);
                    }
                    let name = out[j].0.clone();
                    let count = out[j].1 + 1;
                    out.set(j, (name, count));
                    assert(count_views(out@) =~= t.update(j as int, (r.error_type@, t[j as int].1 + 1)));
                } else {
                    proof {
                        assert forall|c: int| 0 <= c < t.len() implies t[c].0 != r.error_type@ by {
                            assert(t[c] == (out@[c].0@, out@[c].1 as nat));
                            assert(out@[c].0@ != r.error_type@);
                        }
                    }
                    let ghost before = out@;
                    out.push((r.error_type.clone(), 1));
                    assert(count_views(out@) =~= t.push((r.error_type@, 1nat)));
                }
            }
            i = i + 1;
        }
        assert(h.take(i as int) =~= h);
        out
    }

    /// The five most common error types of the last day before `now`, most common
    /// first; equal counts keep the order in which the types first occurred.
    pub fn most_common_errors(&self, now: i64) -> (out: Vec<(String, u32)>)
        requires
            self.history().len() <= u32::MAX,
        ensures
            count_views(out@) == most_common_errors(self.history(), now),
    {
        let tally = self.error_counts(now);
        let ghost t = count_views(tally@);
        let mut sorted: Vec<(String, u32)> = Vec::new();
        let mut rest = tally;
        let ghost all = rest@;
        assert(all.len() == rest.len());
        let mut i: usize = 0;
        assert(count_views(sorted@) =~= ranked(t.take(0)));
        while rest.len() > 0
            invariant
                t == count_views(all),
                all.len() <= usize::MAX,
                i + rest@.len() == all.len(),
                rest@ == all.skip(i as int),
                count_views(sorted@) == ranked(t.take(i as int)),
            decreases rest.len(),
        {
            let x = rest.remove(0);
            proof {
                assert(x == all[i as int]);
                assert(t.take(i as int + 1).drop_last() =~= t.take(i as int));
                assert(t.take(i as int + 1).last() == (x.0@, x.1 as nat));
                assert(rest@ =~= all.skip(i as int + 1));
            }
            insert_ranked_exec(&mut sorted, x);
            i = i + 1;
        }
        assert(t.take(i as int) =~= t);
        if sorted.len() > 5 {
            sorted.truncate(5);
            assert(count_views(sorted@) =~= ranked(t).take(5));
        }
        sorted
    }
}

/// The history never holds more than [`MAX_FAILURE_HISTORY`] failures once it
/// holds no more than that.
pub proof fn lemma_history_bounded(h: Seq<TestFailureRecord>, r: TestFailureRecord)
    requires
        h.len() <= MAX_FAILURE_HISTORY,
    ensures
        history_after(h, r).len() <= MAX_FAILURE_HISTORY,
        history_after(h, r).last() == r,
        h.len() < MAX_FAILURE_HISTORY ==> history_after(h, r) == h.push(r),
{
}

} // verus!
