use vstd::prelude::*;

use std::time::Duration;

use crate::circuit_breaker::{
    after_failure, after_success, BreakerView, CircuitBreaker, CircuitBreakerState,
};
use crate::clock::{duration_nanos, from_millis, from_secs};
use crate::text::{chars_of, contains, seq_contains};

verus! {

/// Configuration of the recovery policy.
#[derive(Debug, Clone, Copy, PartialEq, Eq, Structural)]
pub struct RecoveryConfig {
    /// Maximum number of attempts per test.
    pub max_retry_attempts: u32,
    /// First delay of the exponential backoff, in milliseconds.
    pub base_retry_delay_ms: u64,
    /// Largest backoff delay, in milliseconds.
    pub max_retry_delay_ms: u64,
    pub enable_circuit_breaker: bool,
    /// Failures that open a test's circuit breaker.
    pub circuit_breaker_failure_threshold: u32,
    /// Seconds an open breaker waits before letting a call through.
    pub circuit_breaker_timeout_seconds: u64,
    pub enable_test_isolation: bool,
    pub max_concurrent_recoveries: usize,
    pub enable_adaptive_strategies: bool,
    /// Failure rate above which strategies adapt: bit pattern of an `f32` (0.3 by default).
    pub adaptive_failure_threshold: u32,
}

/// Bit pattern of the `f32` value 0.3.
pub const F32_0_3: u32 = 0x3e99999a;

impl RecoveryConfig {
    /// The default policy: three attempts, 100 ms to 5 s backoff, breakers that open
    /// after five failures for a minute, isolation and adaptation on.
    pub fn default() -> (c: RecoveryConfig)
        ensures
            c == (RecoveryConfig {
                max_retry_attempts: 3,
                base_retry_delay_ms: 100,
                max_retry_delay_ms: 5000,
                enable_circuit_breaker: true,
                circuit_breaker_failure_threshold: 5,
                circuit_breaker_timeout_seconds: 60,
                enable_test_isolation: true,
                max_concurrent_recoveries: 4,
                enable_adaptive_strategies: true,
                adaptive_failure_threshold: F32_0_3,
            }),
    {
        RecoveryConfig {
            max_retry_attempts: 3,
            base_retry_delay_ms: 100,
            max_retry_delay_ms: 5000,
            enable_circuit_breaker: true,
            circuit_breaker_failure_threshold: 5,
            circuit_breaker_timeout_seconds: 60,
            enable_test_isolation: true,
            max_concurrent_recoveries: 4,
            enable_adaptive_strategies: true,
            adaptive_failure_threshold: F32_0_3,
        }
    }
}

/// `2^e`.
pub open spec fn pow2(e: nat) -> nat {
    vstd::arithmetic::power2::pow2(e)
}

/// Backoff delay in milliseconds before the retry that follows attempt `attempt`:
/// `base * 2^(attempt - 1)` (attempt 0 counts as 1), capped at `max`.
pub open spec fn retry_delay_ms(base: nat, max: nat, attempt: nat) -> nat {
    let e: nat = if attempt == 0 {
        0
    } else {
        (attempt - 1) as nat
    };
    let d = base * pow2(e);
    if d < max {
        d
    } else {
        max
    }
}

/// Backoff delay in milliseconds for the retry after attempt `attempt`.
pub fn retry_delay_millis(config: &RecoveryConfig, attempt: u32) -> (ms: u64)
    requires
        (if attempt == 0 {
            0
        } else {
            attempt - 1
        }) < 64,
        config.base_retry_delay_ms * pow2(
            (if attempt == 0 {
                0
            } else {
                attempt - 1
            }) as nat,
        ) <= u64::MAX,
    ensures
        ms == retry_delay_ms(
            config.base_retry_delay_ms as nat,
            config.max_retry_delay_ms as nat,
            attempt as nat,
        ),
{
    let e: u32 = if attempt == 0 {
        0
    } else {
        attempt - 1
    };
    let mut p: u64 = 1;
    let mut i: u32 = 0;
    proof {
        vstd::arithmetic::power2::lemma2_to64();
    }
    while i < e
        invariant
            i <= e,
            e < 64,
            p == pow2(i as nat),
            config.base_retry_delay_ms * pow2(e as nat) <= u64::MAX,
        decreases e - i,
    {
        proof {
            lemma_pow2_monotone((i + 1) as nat, 63);
            vstd::arithmetic::power2::lemma2_to64_rest();
            vstd::arithmetic::power2::lemma_pow2_unfold((i + 1) as nat);
        }
        p = p * 2;
        i = i + 1;
    }
    let d = config.base_retry_delay_ms * p;
    if d < config.max_retry_delay_ms {
        d
    } else {
        config.max_retry_delay_ms
    }
}

proof fn lemma_pow2_monotone(a: nat, b: nat)
    requires
        a <= b,
    ensures
        pow2(a) <= pow2(b),
{
    if a < b {
        vstd::arithmetic::power2::lemma_pow2_strictly_increases(a, b);
    }
}

/// The backoff delay before the retry that follows attempt `attempt`.
pub fn calculate_retry_delay(config: &RecoveryConfig, attempt: u32) -> (d: Duration)
    requires
        (if attempt == 0 {
            0
        } else {
            attempt - 1
        }) < 64,
        config.base_retry_delay_ms * pow2(
            (if attempt == 0 {
                0
            } else {
                attempt - 1
            }) as nat,
        ) <= u64::MAX,
    ensures
        duration_nanos(d) == retry_delay_ms(
            config.base_retry_delay_ms as nat,
            config.max_retry_delay_ms as nat,
            attempt as nat,
        ) * 1_000_000,
{
    from_millis(retry_delay_millis(config, attempt))
}

/// The backoff never exceeds its cap and never shrinks as attempts go on.
pub proof fn lemma_retry_delay_capped_and_growing(base: nat, max: nat, a: nat, b: nat)
    requires
        1 <= a <= b,
    ensures
        retry_delay_ms(base, max, a) <= max,
        retry_delay_ms(base, max, a) <= retry_delay_ms(base, max, b),
{
    lemma_pow2_monotone((a - 1) as nat, (b - 1) as nat);
    assert(base * pow2((a - 1) as nat) <= base * pow2((b - 1) as nat)) by (nonlinear_arith)
        requires
            pow2((a - 1) as nat) <= pow2((b - 1) as nat),
    ;
}

// ---------------------------------------------------------------------------
// Test outcomes
// ---------------------------------------------------------------------------

/// Final status of a test run under the recovery policy.
#[derive(Debug, Clone, Copy, PartialEq, Eq, Structural)]
pub enum TestExecutionStatus {
    Success,
    Failed,
    Recovered,
    Skipped,
    CircuitBreakerOpen,
    IsolationFailure,
}

/// Kinds of recovery action.
#[derive(Debug, Clone, Copy, PartialEq, Eq, Structural)]
pub enum RecoveryActionType {
    RetryWithBackoff,
    FallbackToAlternative,
    ReduceResourceUsage,
    CleanupResources,
    UpdateTestData,
    RestartComponent,
}

/// Priority of a recovery action.
#[derive(Debug, Clone, Copy, PartialEq, Eq, Structural)]
pub enum ActionPriority {
    Low,
    Medium,
    High,
    Critical,
}

/// A recovery action of a strategy.
#[derive(Debug, Clone)]
pub struct RecoveryAction {
    pub action_type: RecoveryActionType,
    pub description: String,
    pub priority: ActionPriority,
    pub estimated_time_minutes: u32,
    /// Bit pattern of an `f32` probability.
    pub success_probability: u32,
    pub side_effects: Vec<String>,
}

/// The result of one recovery action.
#[derive(Debug, Clone)]
pub struct RecoveryActionResult {
    pub action_type: RecoveryActionType,
    pub success: bool,
    pub execution_time_ms: u64,
    pub error_message: Option<String>,
}

/// The result of a recovery attempt.
#[derive(Debug, Clone)]
pub struct RecoveryResult {
    pub success: bool,
    pub attempted_actions: Vec<RecoveryActionResult>,
    pub recovery_time_seconds: u64,
    pub error_message: Option<String>,
}

/// A strategy: the error types it applies to and the actions it tries in order.
#[derive(Debug, Clone)]
pub struct RecoveryStrategy {
    pub strategy_name: String,
    pub applicable_errors: Vec<String>,
    pub recovery_actions: Vec<RecoveryAction>,
    /// Bit pattern of an `f32` rate.
    pub success_rate: u32,
    pub average_recovery_time_ms: u64,
    pub side_effects: Vec<String>,
}

/// Errors a test run can end with (the variants the recovery policy tells apart).
#[derive(Debug, Clone)]
pub enum TestingError {
    PerformanceTestError { test_name: String, message: String },
    StatisticalTestError { test_name: String, message: String },
    MathematicalAccuracyError { test_name: String, message: String },
    IntegrationTestError {
        test_name: String,
        component: String,
        error_message: String,
        interactions: Vec<String>,
        recovery_suggestions: Vec<String>,
    },
    TestDataValidationError { test_name: String, message: String },
    /// `usage_percent` and `threshold_percent` are `f32` bit patterns.
    ResourceExhaustionError {
        resource: String,
        usage_percent: u32,
        threshold_percent: u32,
        adaptive_actions: Vec<String>,
    },
    /// `progress_percent` is an `f32` bit pattern.
    TestTimeoutError {
        test_name: String,
        timeout_seconds: u64,
        execution_phase: String,
        progress_percent: u32,
        suggestions: Vec<String>,
    },
}

/// The name of an error's type, as recovery strategies list them.
pub open spec fn error_type_name(e: TestingError) -> Seq<char> {
    match e {
        TestingError::PerformanceTestError { .. } => "PerformanceTestError"@,
        TestingError::StatisticalTestError { .. } => "StatisticalTestError"@,
        TestingError::MathematicalAccuracyError { .. } => "MathematicalAccuracyError"@,
        TestingError::IntegrationTestError { .. } => "IntegrationTestError"@,
        TestingError::TestDataValidationError { .. } => "TestDataValidationError"@,
        TestingError::ResourceExhaustionError { .. } => "ResourceExhaustionError"@,
        _ => "GenericError"@,
    }
}

/// The name of an error's type.
pub fn error_type_of(e: &TestingError) -> (s: &'static str)
    ensures
        s@ == error_type_name(*e),
{
    match e {
        TestingError::PerformanceTestError { .. } => "PerformanceTestError",
        TestingError::StatisticalTestError { .. } => "StatisticalTestError",
        TestingError::MathematicalAccuracyError { .. } => "MathematicalAccuracyError",
        TestingError::IntegrationTestError { .. } => "IntegrationTestError",
        TestingError::TestDataValidationError { .. } => "TestDataValidationError",
        TestingError::ResourceExhaustionError { .. } => "ResourceExhaustionError",
        _ => "GenericError",
    }
}

/// Bit pattern of the `f32` value 50.0.
pub const F32_50: u32 = 0x42480000;

/// Bit pattern of the `f32` value 95.0.
pub const F32_95: u32 = 0x42be0000;

/// Bit pattern of the `f32` value 90.0.
pub const F32_90: u32 = 0x42b40000;

/// Which kind of error a failure message is taken for.
#[derive(Debug, Clone, Copy, PartialEq, Eq, Structural)]
pub enum FailureKind {
    Timeout,
    ResourceExhaustion,
    Integration,
}

/// A message mentioning "timeout" is a timeout; one mentioning "memory" or
/// "allocation" is resource exhaustion; any other is an integration failure.
pub open spec fn failure_kind(message: Seq<char>) -> FailureKind {
    if seq_contains(message, "timeout"@) {
        FailureKind::Timeout
    } else if seq_contains(message, "memory"@) || seq_contains(message, "allocation"@) {
        FailureKind::ResourceExhaustion
    } else {
        FailureKind::Integration
    }
}

/// Classifies a failure message.
pub fn classify_failure(message: &str) -> (k: FailureKind)
    ensures
        k == failure_kind(message@),
{
    let m = chars_of(message);
    let t = chars_of("timeout");
    proof {
        reveal_strlit("timeout");
    }
    if contains(&m, &t) {
        return FailureKind::Timeout;
    }
    let mem = chars_of("memory");
    let alloc = chars_of("allocation");
    if contains(&m, &mem) || contains(&m, &alloc) {
        FailureKind::ResourceExhaustion
    } else {
        FailureKind::Integration
    }
}

/// Turns a failure message into the testing error the recovery policy works with:
/// a five-minute timeout at half progress, memory exhaustion at 95% of a 90%
/// threshold, or an integration failure of an unknown component carrying the message.
pub fn convert_to_testing_error(message: String, test_suite: String, test_phase: String) -> (e:
    TestingError)
    ensures
        failure_kind(message@) == FailureKind::Timeout ==> (e matches TestingError::TestTimeoutError {
            test_name,
            timeout_seconds,
            execution_phase,
            progress_percent,
            ..
        } && test_name == test_suite && timeout_seconds == 300 && execution_phase == test_phase
            && progress_percent == F32_50),
        failure_kind(message@) == FailureKind::ResourceExhaustion ==> (e matches TestingError::ResourceExhaustionError {
            resource,
            usage_percent,
            threshold_percent,
            ..
        } && resource@ == "Memory"@ && usage_percent == F32_95 && threshold_percent == F32_90),
        failure_kind(message@) == FailureKind::Integration ==> (e matches TestingError::IntegrationTestError {
            test_name,
            component,
            error_message,
            interactions,
            ..
        } && test_name == test_suite && component@ == "Unknown"@ && error_message == message
            && interactions@.len() == 0),
{
    match classify_failure(message.as_str()) {
        FailureKind::Timeout => {
            let mut suggestions: Vec<String> = Vec::new();
            suggestions.push("Increase test timeout".to_owned());
            suggestions.push("Optimize test performance".to_owned());
            TestingError::TestTimeoutError {
                test_name: test_suite,
                timeout_seconds: 300,
                execution_phase: test_phase,
                progress_percent: F32_50,
                suggestions,
            }
        },
        FailureKind::ResourceExhaustion => {
            let mut actions: Vec<String> = Vec::new();
            actions.push("Reduce memory usage".to_owned());
            actions.push("Enable garbage collection".to_owned());
            proof {
                reveal_strlit("Memory");
            }
            TestingError::ResourceExhaustionError {
                resource: "Memory".to_owned(),
                usage_percent: F32_95,
                threshold_percent: F32_90,
                adaptive_actions: actions,
            }
        },
        FailureKind::Integration => {
            let mut suggestions: Vec<String> = Vec::new();
            suggestions.push("Check component dependencies".to_owned());
            suggestions.push("Verify configuration".to_owned());
            proof {
                reveal_strlit("Unknown");
            }
            TestingError::IntegrationTestError {
                test_name: test_suite,
                component: "Unknown".to_owned(),
                error_message: message,
                interactions: Vec::new(),
                recovery_suggestions: suggestions,
            }
        },
    }
}

} // verus!
