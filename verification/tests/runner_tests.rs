use ldc_engine::test_runner::{
    baseline_results, can_execute_suite, discover_test_suites, generate_recommendations, get_exit_code,
    matches_pattern, partition_by_parallel_safety, select_test_suites, SuiteQueue, summarize_statuses, RegressionSeverity, TestCategory,
    SuiteMetrics, TestExecutionRecord, TestHistory, TestSelectionStrategy, TestStatus, TestSuiteResult,
};

fn result(name: &str, status: TestStatus, duration_ms: u64) -> TestSuiteResult {
    TestSuiteResult {
        suite_name: name.to_string(),
        category: TestCategory::Unit,
        status,
        start_time: 0,
        end_time: 0,
        duration_ms,
        exit_code: None,
        stdout: String::new(),
        stderr: String::new(),
        performance_metrics: None,
        error_details: None,
    }
}

#[test]
fn patterns_match_as_documented() {
    assert!(matches_pattern("src/lib.rs", "src/**/*.rs"));
    assert!(matches_pattern("src/a/b.rs", "src/**/*.rs"));
    assert!(!matches_pattern("tests/a.rs", "src/**/*.rs"));
    assert!(!matches_pattern("src/readme.md", "src/**/*.rs"));
    assert!(matches_pattern("benches/x/y.rs", "benches/**"));
    assert!(matches_pattern("src/backtesting.rs", "src/backtesting.rs"));
    assert!(matches_pattern("a/src/backtesting.rs.bak", "src/backtesting.rs"));
    assert!(matches_pattern("src/main.rs", "src/*.rs"));
    assert!(!matches_pattern("lib/main.rs", "src/*.rs"));
}

#[test]
fn discovered_suites() {
    let suites = discover_test_suites();
    assert_eq!(suites.len(), 8);
    assert_eq!(suites[0].name, "unit_tests");
    assert_eq!(suites[0].args, vec!["test".to_string(), "--lib".to_string()]);
    assert_eq!(suites[3].dependencies, vec!["unit_tests".to_string()]);
    assert!(!suites[2].parallel_safe);
    assert_eq!(suites[7].timeout_seconds, Some(600));
}

#[test]
fn selection_strategies() {
    let suites = discover_test_suites();
    assert_eq!(select_test_suites(&suites, &TestSelectionStrategy::All), vec![0, 1, 2, 3, 4, 5, 6, 7]);
    assert_eq!(
        select_test_suites(&suites, &TestSelectionStrategy::Categories(vec![TestCategory::Performance])),
        vec![2, 7]
    );
    assert_eq!(
        select_test_suites(&suites, &TestSelectionStrategy::Pattern("test".to_string())),
        vec![0, 3, 4]
    );
    // A change under tests/ affects the integration tests; the unit tests are added.
    assert_eq!(
        select_test_suites(&suites, &TestSelectionStrategy::ChangedFiles(vec!["tests/foo.rs".to_string()])),
        vec![3, 0]
    );
    assert_eq!(
        select_test_suites(&suites, &TestSelectionStrategy::ChangedFiles(vec!["README.md".to_string()])),
        vec![0]
    );
    assert_eq!(select_test_suites(&suites, &TestSelectionStrategy::ChangedFiles(vec![])), Vec::<usize>::new());
}

#[test]
fn dependencies_gate_execution() {
    let suites = discover_test_suites();
    assert!(can_execute_suite(&suites[0], &vec![]));
    assert!(!can_execute_suite(&suites[3], &vec![]));
    assert!(can_execute_suite(&suites[3], &vec!["unit_tests".to_string()]));
}

#[test]
fn summary_and_exit_codes() {
    let c = summarize_statuses(&vec![TestStatus::Passed, TestStatus::Passed]);
    assert_eq!(c.overall_status, TestStatus::Passed);
    assert_eq!(get_exit_code(c.overall_status), 0);
    let c = summarize_statuses(&vec![TestStatus::Passed, TestStatus::Failed, TestStatus::Skipped]);
    assert_eq!((c.passed_suites, c.failed_suites, c.skipped_suites), (1, 1, 1));
    assert_eq!(get_exit_code(c.overall_status), 1);
    let c = summarize_statuses(&vec![TestStatus::Passed, TestStatus::Timeout]);
    assert_eq!(c.overall_status, TestStatus::Error);
    assert_eq!(get_exit_code(c.overall_status), 2);
    assert_eq!(get_exit_code(TestStatus::Timeout), 3);
    assert_eq!(get_exit_code(TestStatus::Skipped), 0);
    let c = summarize_statuses(&vec![]);
    assert_eq!(c.overall_status, TestStatus::Passed);
}

#[test]
fn recommendations_text() {
    let results = vec![
        result("a", TestStatus::Failed, 10),
        result("b", TestStatus::Timeout, 70000),
        result("c", TestStatus::Failed, 61000),
        result("d", TestStatus::Passed, 5),
    ];
    let regressions = vec![RegressionSeverity::Critical, RegressionSeverity::Minor, RegressionSeverity::Major];
    let recs = generate_recommendations(&results, &regressions, true, 25);
    assert_eq!(
        recs,
        vec![
            "Fix 2 failed test suite(s): a, c".to_string(),
            "Investigate timeout issues in 1 test suite(s): b. Consider increasing timeout or optimizing test performance.".to_string(),
            "Address 1 critical performance regression(s) immediately. Performance has degraded by more than 50%.".to_string(),
            "Investigate 1 major performance regression(s). Performance has degraded by 20-50%.".to_string(),
            "Consider optimizing 2 slow test suite(s): b (70000ms), c (61000ms)".to_string(),
            "Test success rate is 25%. Aim for >95% success rate in CI/CD pipeline.".to_string(),
        ]
    );
    assert!(generate_recommendations(&vec![result("x", TestStatus::Passed, 1)], &vec![], false, 100).is_empty());
}

#[test]
fn history_is_trimmed_to_limit() {
    let mut h = TestHistory { executions: Vec::new(), max_history_entries: 2 };
    for t in 0..4 {
        h.update_test_history(TestExecutionRecord {
            timestamp: t,
            git_commit: None,
            results: Vec::new(),
            overall_status: TestStatus::Passed,
            total_duration_ms: 0,
        });
    }
    let times: Vec<i64> = h.executions.iter().map(|r| r.timestamp).collect();
    assert_eq!(times, vec![2, 3]);
}

#[test]
fn baseline_takes_passed_results_with_metrics() {
    let metrics = || SuiteMetrics { execution_time_ms: 10, memory_usage_mb: 0, cpu_usage_percent: 0, custom_metrics: Vec::new() };
    let mut passed_with = result("a", TestStatus::Passed, 10);
    passed_with.performance_metrics = Some(metrics());
    let passed_without = result("b", TestStatus::Passed, 10);
    let mut failed_with = result("c", TestStatus::Failed, 10);
    failed_with.performance_metrics = Some(metrics());
    let mut passed_again = result("d", TestStatus::Passed, 10);
    passed_again.performance_metrics = Some(metrics());
    let results = vec![passed_with, passed_without, failed_with, passed_again];
    assert_eq!(baseline_results(&results), vec![0, 3]);
    assert!(baseline_results(&Vec::new()).is_empty());
}

#[test]
fn suites_that_are_not_parallel_safe_run_first() {
    let suites = discover_test_suites();
    let all = select_test_suites(&suites, &TestSelectionStrategy::All);
    let (sequential, parallel) = partition_by_parallel_safety(&suites, &all);
    for &i in &sequential {
        assert!(!suites[i].parallel_safe);
    }
    for &i in &parallel {
        assert!(suites[i].parallel_safe);
    }
    assert_eq!(sequential.len() + parallel.len(), 8);
    assert!(sequential.windows(2).all(|w| w[0] < w[1]));
    assert!(parallel.windows(2).all(|w| w[0] < w[1]));
    assert_eq!(sequential, vec![2, 7]);
    assert_eq!(parallel, vec![0, 1, 3, 4, 5, 6]);
}

#[test]
fn queue_passes_over_suites_whose_dependencies_have_not_run() {
    let suites = discover_test_suites();
    // Suite 3 depends on the unit tests (suite 0), which have not run yet.
    let mut queue = SuiteQueue::new(vec![3, 0, 3], false, Vec::new());
    assert_eq!(queue.next_runnable(&suites), Some(0));
    queue.record("unit_tests".to_string(), TestStatus::Passed);
    assert_eq!(queue.next_runnable(&suites), Some(3));
    queue.record(suites[3].name.clone(), TestStatus::Passed);
    assert_eq!(queue.next_runnable(&suites), None);
    assert_eq!(queue.into_completed(), vec!["unit_tests".to_string(), suites[3].name.clone()]);
}

#[test]
fn fail_fast_queue_stops_at_the_first_failure() {
    let suites = discover_test_suites();
    let mut queue = SuiteQueue::new(vec![0, 1], true, Vec::new());
    assert_eq!(queue.next_runnable(&suites), Some(0));
    queue.record("unit_tests".to_string(), TestStatus::Error);
    assert_eq!(queue.next_runnable(&suites), None);

    let mut patient = SuiteQueue::new(vec![0, 1], false, Vec::new());
    assert_eq!(patient.next_runnable(&suites), Some(0));
    patient.record("unit_tests".to_string(), TestStatus::Failed);
    assert_eq!(patient.next_runnable(&suites), Some(1));
}
