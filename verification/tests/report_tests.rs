use ldc_engine::junit::generate_junit_xml;
use ldc_engine::test_runner::{StatusCounts, TestCategory, TestStatus, TestSuiteResult};

fn result(name: &str, category: TestCategory, status: TestStatus, ms: u64, stderr: &str, details: Option<&str>) -> TestSuiteResult {
    TestSuiteResult {
        suite_name: name.to_string(),
        category,
        status,
        start_time: 0,
        end_time: 0,
        duration_ms: ms,
        exit_code: None,
        stdout: String::new(),
        stderr: stderr.to_string(),
        performance_metrics: None,
        error_details: details.map(|d| d.to_string()),
    }
}

#[test]
fn junit_report_of_passed_and_failed_suites() {
    let results = vec![
        result("unit_tests", TestCategory::Unit, TestStatus::Passed, 1234, "", None),
        result("integration_tests", TestCategory::Integration, TestStatus::Failed, 5, "a<b & c>d", None),
    ];
    let summary = StatusCounts {
        total_suites: 2,
        passed_suites: 1,
        failed_suites: 1,
        skipped_suites: 0,
        error_suites: 0,
        overall_status: TestStatus::Failed,
    };
    let xml = generate_junit_xml(&results, &summary, 1239);
    let expected = [
        "<?xml version=\"1.0\" encoding=\"UTF-8\"?>\n",
        "<testsuites name=\"LDC Engine Tests\" tests=\"2\" failures=\"1\" errors=\"0\" time=\"1.239\">\n",
        "  <testsuite name=\"unit_tests\" tests=\"1\" failures=\"0\" errors=\"0\" time=\"1.234\">\n",
        "    <testcase name=\"unit_tests\" classname=\"Unit\" time=\"1.234\" />\n",
        "  </testsuite>\n",
        "  <testsuite name=\"integration_tests\" tests=\"1\" failures=\"1\" errors=\"0\" time=\"0.005\">\n",
        "    <testcase name=\"integration_tests\" classname=\"Integration\" time=\"0.005\">\n",
        "      <failure message=\"Test suite failed\" type=\"TestFailure\">a&lt;b &amp; c&gt;d</failure>\n",
        "    </testcase>\n",
        "  </testsuite>\n",
        "</testsuites>\n",
    ]
    .concat();
    assert_eq!(xml, expected);
}

#[test]
fn junit_report_of_error_timeout_and_skip() {
    let results = vec![
        result("a", TestCategory::Performance, TestStatus::Error, 2000, "", None),
        result("b", TestCategory::Statistical, TestStatus::Error, 10, "", Some("x > y")),
        result("c", TestCategory::Backtesting, TestStatus::Timeout, 120000, "", None),
        result("d", TestCategory::Compatibility, TestStatus::Skipped, 0, "", None),
    ];
    let summary = StatusCounts {
        total_suites: 4,
        passed_suites: 0,
        failed_suites: 0,
        skipped_suites: 1,
        error_suites: 2,
        overall_status: TestStatus::Failed,
    };
    let xml = generate_junit_xml(&results, &summary, 122010);
    assert!(xml.contains("tests=\"4\" failures=\"0\" errors=\"2\" time=\"122.010\">"));
    assert!(xml.contains("<testsuite name=\"a\" tests=\"1\" failures=\"0\" errors=\"1\" time=\"2.000\">"));
    assert!(xml.contains("<error message=\"Test suite error\" type=\"TestError\">Unknown error</error>"));
    assert!(xml.contains("<error message=\"Test suite error\" type=\"TestError\">x &gt; y</error>"));
    assert!(xml.contains("classname=\"Backtesting\" time=\"120.000\">\n      <error message=\"Test suite timeout\" type=\"TestTimeout\">Test suite exceeded timeout limit</error>"));
    assert!(xml.contains("classname=\"Compatibility\" time=\"0.000\">\n      <skipped />\n    </testcase>"));
    assert_eq!(format!("{:.3}", 122010u64 as f64 / 1000.0), "122.010");
}
