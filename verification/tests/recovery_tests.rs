use ldc_engine::circuit_breaker::{CircuitBreaker, CircuitBreakerState};
use ldc_engine::recovery::{
    calculate_retry_delay, convert_to_testing_error, retry_delay_millis, RecoveryActionType,
    RecoveryConfig, TestExecutionStatus, TestingError,
};
use ldc_engine::recovery_system::{
    action_result, AttemptDecision, GracefulRecoverySystem, RecoveryRun, TestContext,
};
use std::time::Duration;

fn context() -> TestContext {
    TestContext { test_suite: "suite".to_string(), test_phase: "phase".to_string() }
}

fn perf_error() -> TestingError {
    TestingError::PerformanceTestError { test_name: "t".to_string(), message: "slow".to_string() }
}

#[test]
fn breaker_opens_at_threshold_and_half_opens_after_timeout() {
    let mut b = CircuitBreaker::new("t".to_string(), 3, Duration::from_secs(60));
    assert!(b.can_execute());
    b.record_failure();
    b.record_failure();
    assert_eq!(b.state, CircuitBreakerState::Closed);
    b.record_failure();
    assert_eq!(b.state, CircuitBreakerState::Open);
    assert!(!b.can_execute_with(false));
    assert!(b.can_execute_with(true));
    assert_eq!(b.state, CircuitBreakerState::HalfOpen);
    b.record_success();
    b.record_success();
    assert_eq!(b.state, CircuitBreakerState::HalfOpen);
    b.record_success();
    assert_eq!(b.state, CircuitBreakerState::Closed);
    assert_eq!(b.failure_count, 0);
}

#[test]
fn open_breaker_without_failure_time_refuses() {
    let mut b = CircuitBreaker::new("t".to_string(), 1, Duration::from_secs(0));
    b.state = CircuitBreakerState::Open;
    assert!(!b.can_execute());
}

#[test]
fn retry_delay_doubles_then_caps() {
    let config = RecoveryConfig::default();
    assert_eq!(retry_delay_millis(&config, 0), 100);
    assert_eq!(retry_delay_millis(&config, 1), 100);
    assert_eq!(retry_delay_millis(&config, 2), 200);
    assert_eq!(retry_delay_millis(&config, 3), 400);
    assert_eq!(retry_delay_millis(&config, 7), 5000);
    assert_eq!(calculate_retry_delay(&config, 4), Duration::from_millis(800));
}

#[test]
fn failures_are_classified_by_message() {
    match convert_to_testing_error("a timeout occurred".to_string(), "s".to_string(), "p".to_string()) {
        TestingError::TestTimeoutError { timeout_seconds, test_name, execution_phase, .. } => {
            assert_eq!(timeout_seconds, 300);
            assert_eq!(test_name, "s");
            assert_eq!(execution_phase, "p");
        },
        other => panic!("unexpected {:?}", other),
    }
    match convert_to_testing_error("out of memory".to_string(), "s".to_string(), "p".to_string()) {
        TestingError::ResourceExhaustionError { resource, usage_percent, .. } => {
            assert_eq!(resource, "Memory");
            assert_eq!(f32::from_bits(usage_percent), 95.0);
        },
        other => panic!("unexpected {:?}", other),
    }
    match convert_to_testing_error("boom".to_string(), "s".to_string(), "p".to_string()) {
        TestingError::IntegrationTestError { component, error_message, .. } => {
            assert_eq!(component, "Unknown");
            assert_eq!(error_message, "boom");
        },
        other => panic!("unexpected {:?}", other),
    }
}

#[test]
fn failed_attempts_retry_until_the_maximum() {
    let mut system = GracefulRecoverySystem::new(RecoveryConfig::default());
    let mut run = RecoveryRun::new("perf".to_string());
    assert!(system.begin_test("perf"));
    let d1 = system.on_test_failed(&mut run, perf_error(), "PerformanceTestError".to_string(), context(), 10);
    match d1 {
        AttemptDecision::Retry { plan, delay_ms } => {
            assert_eq!(delay_ms, 100);
            assert!(plan.success);
            assert_eq!(plan.actions.len(), 1);
            assert_eq!(plan.actions[0].action_type, RecoveryActionType::ReduceResourceUsage);
            assert_eq!(plan.actions[0].pause_ms, 200);
        },
        _ => panic!("expected a retry"),
    }
    let d2 = system.on_test_failed(&mut run, perf_error(), "PerformanceTestError".to_string(), context(), 11);
    match d2 {
        AttemptDecision::Retry { delay_ms, .. } => assert_eq!(delay_ms, 200),
        _ => panic!("expected a retry"),
    }
    let d3 = system.on_test_failed(&mut run, perf_error(), "PerformanceTestError".to_string(), context(), 12);
    assert!(matches!(d3, AttemptDecision::Finish(TestExecutionStatus::Failed)));
    assert_eq!(run.attempts_made, 3);
    assert_eq!(run.errors_encountered.len(), 3);
    assert_eq!(system.failure_count(), 3);
    let view = system.breaker_view("perf").unwrap();
    assert_eq!(view.failure_count, 1);
    assert_eq!(view.state, CircuitBreakerState::Closed);
    let result = run.finish(TestExecutionStatus::Failed, 5);
    assert!(!result.recovery_successful);
}

#[test]
fn pass_after_recovery_is_recovered() {
    let mut system = GracefulRecoverySystem::new(RecoveryConfig::default());
    let mut run = RecoveryRun::new("stat".to_string());
    let err = TestingError::StatisticalTestError { test_name: "t".to_string(), message: "m".to_string() };
    match system.on_test_failed(&mut run, err, "StatisticalTestError".to_string(), context(), 0) {
        AttemptDecision::Retry { plan, .. } => {
            assert_eq!(plan.actions[0].action_type, RecoveryActionType::UpdateTestData);
            for a in plan.actions.iter() {
                run.recovery_actions_taken.push(action_result(a.action_type, a.succeeds, a.pause_ms));
            }
        },
        _ => panic!("expected a retry"),
    }
    let status = system.on_test_passed(&mut run);
    assert_eq!(status, TestExecutionStatus::Recovered);
    let result = run.finish(status, 1);
    assert!(result.recovery_successful);
    assert_eq!(result.attempts_made, 2);
}

#[test]
fn unknown_error_gets_generic_backoff() {
    let system = GracefulRecoverySystem::new(RecoveryConfig::default());
    let err = convert_to_testing_error("boom".to_string(), "s".to_string(), "p".to_string());
    assert_eq!(system.find_recovery_strategy(&err), None);
    let plan = system.plan_recovery(&err);
    assert_eq!(plan.actions.len(), 1);
    assert_eq!(plan.actions[0].action_type, RecoveryActionType::RetryWithBackoff);
    assert_eq!(plan.actions[0].pause_ms, 100);
    assert_eq!(system.find_recovery_strategy(&perf_error()), Some(0));
}

#[test]
fn breaker_blocks_until_timeout() {
    let mut config = RecoveryConfig::default();
    config.circuit_breaker_failure_threshold = 1;
    config.max_retry_attempts = 1;
    let mut system = GracefulRecoverySystem::new(config);
    let mut run = RecoveryRun::new("flaky".to_string());
    let d = system.on_test_failed(&mut run, perf_error(), "PerformanceTestError".to_string(), context(), 0);
    assert!(matches!(d, AttemptDecision::Finish(TestExecutionStatus::Failed)));
    assert_eq!(system.breaker_view("flaky").unwrap().state, CircuitBreakerState::Open);
    assert!(!system.begin_test_with("flaky", false));
    assert!(system.begin_test_with("flaky", true));
    assert_eq!(system.breaker_view("flaky").unwrap().state, CircuitBreakerState::HalfOpen);
    assert!(system.begin_test_with("other", false));
}

#[test]
fn history_keeps_the_newest_thousand() {
    let mut system = GracefulRecoverySystem::new(RecoveryConfig::default());
    for i in 0..1005 {
        system.record_test_failure_at("t", "E".to_string(), context(), i);
    }
    assert_eq!(system.failure_count(), 1000);
    let counts = system.failure_counts(1004);
    assert_eq!(counts.total_failures, 1000);
    assert_eq!(counts.recent_failures, 1000);
    assert_eq!(counts.recovery_attempts, 0);
    let later = system.failure_counts(1004 + 86400);
    // A day later every kept failure is at least a day old.
    assert_eq!(later.recent_failures, 0);
}

#[test]
fn adaptive_strategies_add_restart_to_weak_ones() {
    let mut system = GracefulRecoverySystem::new(RecoveryConfig::default());
    system.update_adaptive_strategies(true);
    // Both default strategies succeed more than half the time: nothing changes.
    let err = perf_error();
    assert_eq!(system.plan_recovery(&err).actions.len(), 1);
}

#[test]
fn most_common_errors_ranked_by_count() {
    let mut system = GracefulRecoverySystem::new(RecoveryConfig::default());
    let kinds = ["A", "B", "B", "C", "C", "D", "E", "F", "G", "C", "OLD"];
    for (i, k) in kinds.iter().enumerate() {
        let at = if *k == "OLD" { 0 } else { 100_000 + i as i64 };
        system.record_test_failure_at("t", k.to_string(), context(), at);
    }
    let top = system.most_common_errors(100_100);
    let names: Vec<(&str, u32)> = top.iter().map(|(n, c)| (n.as_str(), *c)).collect();
    assert_eq!(names, vec![("C", 3), ("B", 2), ("A", 1), ("D", 1), ("E", 1)]);
    let all = system.error_counts(100_100);
    assert_eq!(all.len(), 7);
}

#[test]
fn breaker_holds_the_elapsed_time_against_its_timeout() {
    let mut b = CircuitBreaker::new("t".to_string(), 1, Duration::from_secs(60));
    b.record_failure();
    assert_eq!(b.state, CircuitBreakerState::Open);
    assert!(!b.can_execute_after(59_999_999_999));
    assert_eq!(b.state, CircuitBreakerState::Open);
    assert!(b.can_execute_after(60_000_000_000));
    assert_eq!(b.state, CircuitBreakerState::HalfOpen);
    assert_eq!(b.success_count_since_half_open, 0);
}

#[test]
fn a_zero_timeout_has_always_passed() {
    let mut b = CircuitBreaker::new("t".to_string(), 5, Duration::ZERO);
    for _ in 0..5 {
        b.record_failure();
    }
    b.success_count_since_half_open = 7;
    assert_eq!(b.state, CircuitBreakerState::Open);
    assert!(b.can_execute());
    assert_eq!(b.state, CircuitBreakerState::HalfOpen);
    assert_eq!(b.success_count_since_half_open, 0);
    assert_eq!(b.failure_count, 5);
}

#[test]
fn a_breaker_stays_closed_until_the_threshold_failure() {
    let mut b = CircuitBreaker::new("t".to_string(), 4, Duration::from_secs(60));
    for _ in 0..3 {
        b.record_failure();
        assert_eq!(b.state, CircuitBreakerState::Closed);
    }
    b.record_failure();
    assert_eq!(b.state, CircuitBreakerState::Open);
    assert_eq!(b.failure_count, 4);
    b.record_failure();
    assert_eq!(b.state, CircuitBreakerState::Open);
}

#[test]
fn test_start_waits_for_the_breaker_timeout() {
    let mut config = RecoveryConfig::default();
    config.circuit_breaker_failure_threshold = 1;
    config.max_retry_attempts = 1;
    let mut system = GracefulRecoverySystem::new(config);
    let mut run = RecoveryRun::new("flaky".to_string());
    let _ = system.on_test_failed(&mut run, perf_error(), "PerformanceTestError".to_string(), context(), 0);
    assert_eq!(system.breaker_view("flaky").unwrap().state, CircuitBreakerState::Open);
    assert!(!system.begin_test_after("flaky", 0));
    assert_eq!(system.breaker_view("flaky").unwrap().state, CircuitBreakerState::Open);
    assert!(!system.begin_test("flaky"));
    assert!(system.begin_test_after("flaky", u128::MAX));
    assert_eq!(system.breaker_view("flaky").unwrap().state, CircuitBreakerState::HalfOpen);
}
