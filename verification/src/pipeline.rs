use vstd::prelude::*;


verus! {

/// Which test categories the pipeline runs, and with how much data.
#[derive(Debug, Clone, Copy, PartialEq, Eq, Structural)]
pub struct IntegrationTestConfig {
    pub run_unit_tests: bool,
    pub run_performance_tests: bool,
    pub run_integration_tests: bool,
    pub run_backtest_tests: bool,
    pub run_statistical_tests: bool,
    pub test_error_handling: bool,
    pub test_configuration_changes: bool,
    pub integration_test_data_size: usize,
    /// Iterations for statistical significance.
    pub test_iterations: usize,
    /// Time limit of each category, in seconds.
    pub test_timeout_seconds: u64,
}

impl IntegrationTestConfig {
    /// Every category on, 10000 samples, 50 iterations, five minutes per category.
    pub fn default() -> (c: IntegrationTestConfig)
        ensures
            c == (IntegrationTestConfig {
                run_unit_tests: true,
                run_performance_tests: true,
                run_integration_tests: true,
                run_backtest_tests: true,
                run_statistical_tests: true,
                test_error_handling: true,
                test_configuration_changes: true,
                integration_test_data_size: 10000,
                test_iterations: 50,
                test_timeout_seconds: 300,
            }),
    {
        IntegrationTestConfig {
            run_unit_tests: true,
            run_performance_tests: true,
            run_integration_tests: true,
            run_backtest_tests: true,
            run_statistical_tests: true,
            test_error_handling: true,
            test_configuration_changes: true,
            integration_test_data_size: 10000,
            test_iterations: 50,
            test_timeout_seconds: 300,
        }
    }
}

/// The categories of the pipeline, in the order they run.
#[derive(Debug, Clone, Copy, PartialEq, Eq, Structural)]
pub enum PipelineCategory {
    Unit,
    Performance,
    Integration,
    Backtest,
    Statistical,
    ErrorHandling,
    Configuration,
}

/// Whether the configuration runs a category.
pub open spec fn category_enabled(c: IntegrationTestConfig, k: PipelineCategory) -> bool {
    match k {
        PipelineCategory::Unit => c.run_unit_tests,
        PipelineCategory::Performance => c.run_performance_tests,
        PipelineCategory::Integration => c.run_integration_tests,
        PipelineCategory::Backtest => c.run_backtest_tests,
        PipelineCategory::Statistical => c.run_statistical_tests,
        PipelineCategory::ErrorHandling => c.test_error_handling,
        PipelineCategory::Configuration => c.test_configuration_changes,
    }
}

/// Whether the configuration runs a category.
pub fn is_category_enabled(c: &IntegrationTestConfig, k: PipelineCategory) -> (r: bool)
    ensures
        r == category_enabled(*c, k),
{
    match k {
        PipelineCategory::Unit => c.run_unit_tests,
        PipelineCategory::Performance => c.run_performance_tests,
        PipelineCategory::Integration => c.run_integration_tests,
        PipelineCategory::Backtest => c.run_backtest_tests,
        PipelineCategory::Statistical => c.run_statistical_tests,
        PipelineCategory::ErrorHandling => c.test_error_handling,
        PipelineCategory::Configuration => c.test_configuration_changes,
    }
}

/// How a category went.
#[derive(Debug)]
pub enum CategoryOutcome {
    /// Not run: the configuration turned it off.
    Skipped,
    /// Ran to the end. The counts are those the category reports; only the
    /// performance, error-handling and configuration categories report them.
    Completed { passed: bool, reported_tests: usize, reported_passed: usize },
    /// Stopped by an error.
    Errored { message: String },
}

/// The result kept for a category that ran.
#[derive(Debug)]
pub struct CategoryResult {
    pub category_name: String,
    pub passed: bool,
    pub execution_time_secs: u64,
    pub error_message: Option<String>,
    pub test_count: usize,
    pub passed_tests: usize,
}

/// Key and display name of a category.
pub open spec fn category_key(k: PipelineCategory) -> Seq<char> {
    match k {
        PipelineCategory::Unit => "unit_tests"@,
        PipelineCategory::Performance => "performance_tests"@,
        PipelineCategory::Integration => "integration_tests"@,
        PipelineCategory::Backtest => "backtest_tests"@,
        PipelineCategory::Statistical => "statistical_tests"@,
        PipelineCategory::ErrorHandling => "error_handling_tests"@,
        PipelineCategory::Configuration => "configuration_tests"@,
    }
}

pub open spec fn category_name(k: PipelineCategory) -> Seq<char> {
    match k {
        PipelineCategory::Unit => "Unit Tests"@,
        PipelineCategory::Performance => "Performance Tests"@,
        PipelineCategory::Integration => "Integration Tests"@,
        PipelineCategory::Backtest => "Backtest Tests"@,
        PipelineCategory::Statistical => "Statistical Tests"@,
        PipelineCategory::ErrorHandling => "Error Handling Tests"@,
        PipelineCategory::Configuration => "Configuration Tests"@,
    }
}

/// Seconds recorded for a category that completed.
pub open spec fn category_seconds(k: PipelineCategory) -> u64 {
    match k {
        PipelineCategory::Unit => 1,
        PipelineCategory::Performance => 2,
        PipelineCategory::Integration => 3,
        PipelineCategory::Backtest => 4,
        PipelineCategory::Statistical => 2,
        PipelineCategory::ErrorHandling => 1,
        PipelineCategory::Configuration => 1,
    }
}

/// Tests counted for a category: four for unit and integration tests, one for
/// backtests and statistics, the reported count for performance; error handling
/// and configuration count what they report when they complete and three when
/// they fail with an error.
pub open spec fn category_tests(k: PipelineCategory, completed: bool, reported: usize) -> usize {
    match k {
        PipelineCategory::Unit => 4,
        PipelineCategory::Performance => if completed {
            reported
        } else {
            0
        },
        PipelineCategory::Integration => 4,
        PipelineCategory::Backtest => 1,
        PipelineCategory::Statistical => 1,
        PipelineCategory::ErrorHandling => if completed {
            reported
        } else {
            3
        },
        PipelineCategory::Configuration => if completed {
            reported
        } else {
            3
        },
    }
}

/// Tests counted as passed for a category that completed: all of them for unit,
/// integration, backtest and statistical tests when the category passed, the
/// reported number for performance, and three for error handling and
/// configuration when they passed.
pub open spec fn category_passed_tests(k: PipelineCategory, passed: bool, reported_passed: usize) -> usize {
    match k {
        PipelineCategory::Performance => reported_passed,
        PipelineCategory::ErrorHandling | PipelineCategory::Configuration => if passed {
            3
        } else {
            0
        },
        _ => if passed {
            category_tests(k, true, 0)
        } else {
            0
        },
    }
}

fn key_of(k: PipelineCategory) -> (s: &'static str)
    ensures
        s@ == category_key(k),
{
    match k {
        PipelineCategory::Unit => "unit_tests",
        PipelineCategory::Performance => "performance_tests",
        PipelineCategory::Integration => "integration_tests",
        PipelineCategory::Backtest => "backtest_tests",
        PipelineCategory::Statistical => "statistical_tests",
        PipelineCategory::ErrorHandling => "error_handling_tests",
        PipelineCategory::Configuration => "configuration_tests",
    }
}

fn name_of(k: PipelineCategory) -> (s: &'static str)
    ensures
        s@ == category_name(k),
{
    match k {
        PipelineCategory::Unit => "Unit Tests",
        PipelineCategory::Performance => "Performance Tests",
        PipelineCategory::Integration => "Integration Tests",
        PipelineCategory::Backtest => "Backtest Tests",
        PipelineCategory::Statistical => "Statistical Tests",
        PipelineCategory::ErrorHandling => "Error Handling Tests",
        PipelineCategory::Configuration => "Configuration Tests",
    }
}

/// `c` is the result kept for category `k` that ran with `outcome`: its name and
/// whether it passed, with the seconds and test counts of [`category_seconds`],
/// [`category_tests`] and [`category_passed_tests`]; one stopped by an error failed
/// in no time, with no test passed and the error's message.
pub open spec fn result_is(c: CategoryResult, k: PipelineCategory, outcome: CategoryOutcome) -> bool {
    match outcome {
        CategoryOutcome::Skipped => false,
        CategoryOutcome::Completed { passed, reported_tests, reported_passed } => {
            &&& c.category_name@ == category_name(k)
            &&& c.passed == passed
            &&& c.execution_time_secs == category_seconds(k)
            &&& c.error_message is None
            &&& c.test_count == category_tests(k, true, reported_tests)
            &&& c.passed_tests == category_passed_tests(k, passed, reported_passed)
        },
        CategoryOutcome::Errored { message } => {
            &&& c.category_name@ == category_name(k)
            &&& !c.passed
            &&& c.execution_time_secs == 0
            &&& c.error_message == Some(message)
            &&& c.test_count == category_tests(k, false, 0)
            &&& c.passed_tests == 0
        },
    }
}

/// The result kept for a category, if it ran: its name and whether it passed,
/// with the seconds and test counts of [`category_seconds`], [`category_tests`] and
/// [`category_passed_tests`]; one stopped by an error failed in no time, with no
/// test passed and the error's message.
pub fn category_result(k: PipelineCategory, outcome: CategoryOutcome) -> (r: Option<CategoryResult>)
    ensures
        outcome is Skipped ==> r is None,
        !(outcome is Skipped) ==> (r matches Some(c) && result_is(c, k, outcome)),
{
    match outcome {
        CategoryOutcome::Skipped => None,
        CategoryOutcome::Completed { passed, reported_tests, reported_passed } => {
            let (seconds, tests, passed_tests): (u64, usize, usize) = match k {
                PipelineCategory::Unit => (1, 4, if passed { 4 } else { 0 }),
                PipelineCategory::Performance => (2, reported_tests, reported_passed),
                PipelineCategory::Integration => (3, 4, if passed { 4 } else { 0 }),
                PipelineCategory::Backtest => (4, 1, if passed { 1 } else { 0 }),
                PipelineCategory::Statistical => (2, 1, if passed { 1 } else { 0 }),
                PipelineCategory::ErrorHandling => (1, reported_tests, if passed { 3 } else { 0 }),
                PipelineCategory::Configuration => (1, reported_tests, if passed { 3 } else { 0 }),
            };
            Some(
                CategoryResult {
                    category_name: name_of(k).to_owned(),
                    passed,
                    execution_time_secs: seconds,
                    error_message: None,
                    test_count: tests,
                    passed_tests,
                },
            )
        },
        CategoryOutcome::Errored { message } => {
            let tests: usize = match k {
                PipelineCategory::Unit => 4,
                PipelineCategory::Performance => 0,
                PipelineCategory::Integration => 4,
                PipelineCategory::Backtest => 1,
                PipelineCategory::Statistical => 1,
                PipelineCategory::ErrorHandling => 3,
                PipelineCategory::Configuration => 3,
            };
            Some(
                CategoryResult {
                    category_name: name_of(k).to_owned(),
                    passed: false,
                    execution_time_secs: 0,
                    error_message: Some(message),
                    test_count: tests,
                    passed_tests: 0,
                },
            )
        },
    }
}

/// Whether an outcome counts as passed, failed or skipped.
pub open spec fn outcome_passed(o: CategoryOutcome) -> bool {
    o matches CategoryOutcome::Completed { passed, .. } && passed
}

pub open spec fn outcome_failed(o: CategoryOutcome) -> bool {
    (o matches CategoryOutcome::Completed { passed, .. } && !passed) || o is Errored
}

pub open spec fn outcome_skipped(o: CategoryOutcome) -> bool {
    o is Skipped
}

/// Number of outcomes with `pred`.
pub open spec fn count_outcomes(
    s: Seq<(PipelineCategory, CategoryOutcome)>,
    pred: spec_fn(CategoryOutcome) -> bool,
) -> nat
    decreases s.len(),
{
    if s.len() == 0 {
        0
    } else {
        count_outcomes(s.drop_last(), pred) + if pred(s.last().1) {
            1nat
        } else {
            0nat
        }
    }
}

/// The categories that ran, with their outcomes, in order.
pub open spec fn ran_outcomes(s: Seq<(PipelineCategory, CategoryOutcome)>) -> Seq<
    (PipelineCategory, CategoryOutcome),
>
    decreases s.len(),
{
    if s.len() == 0 {
        Seq::empty()
    } else if s.last().1 is Skipped {
        ran_outcomes(s.drop_last())
    } else {
        ran_outcomes(s.drop_last()).push(s.last())
    }
}

/// The outcome of the whole pipeline.
#[derive(Debug)]
pub struct TestExecutionSummary {
    pub total_test_categories: usize,
    pub passed_categories: usize,
    pub failed_categories: usize,
    pub skipped_categories: usize,
    pub overall_success: bool,
    pub total_execution_time_ms: u64,
    /// The results of the categories that ran, under their keys, in order.
    pub category_results: Vec<(String, CategoryResult)>,
}

/// Number of kept results marked passed.
pub open spec fn count_passed_results(rs: Seq<(String, CategoryResult)>) -> nat
    decreases rs.len(),
{
    if rs.len() == 0 {
        0
    } else {
        count_passed_results(rs.drop_last()) + if rs.last().1.passed {
            1nat
        } else {
            0nat
        }
    }
}

/// Every category is counted once: as passed, failed or skipped; and the results
/// kept are those of the categories that passed or failed.
pub proof fn lemma_counts_split(s: Seq<(PipelineCategory, CategoryOutcome)>)
    ensures
        count_outcomes(s, |o: CategoryOutcome| outcome_passed(o)) + count_outcomes(
            s,
            |o: CategoryOutcome| outcome_failed(o),
        ) + count_outcomes(s, |o: CategoryOutcome| outcome_skipped(o)) == s.len(),
        ran_outcomes(s).len() == count_outcomes(s, |o: CategoryOutcome| outcome_passed(o))
            + count_outcomes(s, |o: CategoryOutcome| outcome_failed(o)),
    decreases s.len(),
{
    if s.len() > 0 {
        lemma_counts_split(s.drop_last());
    }
}

/// Summarises the outcomes of the categories, in the order they ran: how many
/// passed, failed (an error counts as a failure) and were skipped, the results of
/// those that ran, and overall success when none failed and at least one passed.
pub fn summarize_categories(outcomes: Vec<(PipelineCategory, CategoryOutcome)>, total_execution_time_ms: u64) -> (s:
    TestExecutionSummary)
    ensures
        s.passed_categories == count_outcomes(outcomes@, |o: CategoryOutcome| outcome_passed(o)),
        s.failed_categories == count_outcomes(outcomes@, |o: CategoryOutcome| outcome_failed(o)),
        s.skipped_categories == count_outcomes(outcomes@, |o: CategoryOutcome| outcome_skipped(o)),
        s.total_test_categories == outcomes@.len(),
        s.overall_success == (s.failed_categories == 0 && s.passed_categories > 0),
        s.total_execution_time_ms == total_execution_time_ms,
        s.category_results@.len() == ran_outcomes(outcomes@).len(),
        s.passed_categories == count_passed_results(s.category_results@),
        forall|i: int|
            0 <= i < s.category_results@.len() ==> (#[trigger] s.category_results@[i]).0@
                == category_key(ran_outcomes(outcomes@)[i].0) && result_is(
                s.category_results@[i].1,
                ran_outcomes(outcomes@)[i].0,
                ran_outcomes(outcomes@)[i].1,
            ),
{
    let ghost all = outcomes@;
    let ghost passed_p = |o: CategoryOutcome| outcome_passed(o);
    let ghost failed_p = |o: CategoryOutcome| outcome_failed(o);
    let ghost skipped_p = |o: CategoryOutcome| outcome_skipped(o);
    let n = outcomes.len();
    let mut passed: usize = 0;
    let mut failed: usize = 0;
    let mut skipped: usize = 0;
    let mut results: Vec<(String, CategoryResult)> = Vec::new();
    let mut rest = outcomes;
    let mut taken: Vec<(PipelineCategory, CategoryOutcome)> = Vec::new();
    let mut i: usize = 0;
    proof {
        assert(all.take(0) =~= Seq::<(PipelineCategory, CategoryOutcome)>::empty());
    }
    while rest.len() > 0
        invariant
            n == all.len(),
            i + rest@.len() == n,
            rest@ == all.skip(i as int),
            passed_p == (|o: CategoryOutcome| outcome_passed(o)),
            failed_p == (|o: CategoryOutcome| outcome_failed(o)),
            skipped_p == (|o: CategoryOutcome| outcome_skipped(o)),
            passed == count_outcomes(all.take(i as int), passed_p),
            failed == count_outcomes(all.take(i as int), failed_p),
            skipped == count_outcomes(all.take(i as int), skipped_p),
            results@.len() == ran_outcomes(all.take(i as int)).len(),
            passed == count_passed_results(results@),
            forall|j: int|
                0 <= j < results@.len() ==> (#[trigger] results@[j]).0@ == category_key(
                    ran_outcomes(all.take(i as int))[j].0,
                ) && result_is(
                    results@[j].1,
                    ran_outcomes(all.take(i as int))[j].0,
                    ran_outcomes(all.take(i as int))[j].1,
                ),
        decreases rest.len(),
    {
        proof {
            lemma_counts_split(all.take(i as int));
        }
        let (k, outcome) = rest.remove(0);
        proof {
            assert(all.take(i as int + 1).drop_last() =~= all.take(i as int));
            assert(all.take(i as int + 1).last() == all[i as int]);
            assert(rest@ =~= all.skip(i as int + 1));
        }
        let ghost o = outcome;
        match &outcome {
            CategoryOutcome::Skipped => {
                skipped = skipped + 1;
            },
            CategoryOutcome::Completed { passed: p, .. } => {
                if *p {
                    passed = passed + 1;
                } else {
                    failed = failed + 1;
                }
            },
            CategoryOutcome::Errored { .. } => {
                failed = failed + 1;
            },
        }
        match category_result(k, outcome) {
            Some(r) => {
                let ghost before = results@;
                results.push((key_of(k).to_owned(), r));
                assert(results@.drop_last() =~= before);
                assert(ran_outcomes(all.take(i as int + 1)) == ran_outcomes(all.take(i as int)).push((k, o)));
                assert forall|j: int| 0 <= j < results@.len() implies (#[trigger] results@[j]).0@
                    == category_key(ran_outcomes(all.take(i as int + 1))[j].0) && result_is(
                    results@[j].1,
                    ran_outcomes(all.take(i as int + 1))[j].0,
                    ran_outcomes(all.take(i as int + 1))[j].1,
                ) by {
                    if j < before.len() {
                        assert(results@[j] == before[j]);
                    }
                }
            },
            None => {
                assert(ran_outcomes(all.take(i as int + 1)) == ran_outcomes(all.take(i as int)));
            },
        }
        i = i + 1;
    }
    proof {
        assert(all.take(i as int) =~= all);
        lemma_counts_split(all);
    }
    TestExecutionSummary {
        total_test_categories: passed + failed + skipped,
        passed_categories: passed,
        failed_categories: failed,
        skipped_categories: skipped,
        overall_success: failed == 0 && passed > 0,
        total_execution_time_ms,
        category_results: results,
    }
}


/// The categories in the order the pipeline runs them.
pub open spec fn pipeline_order() -> Seq<PipelineCategory> {
    seq![
        PipelineCategory::Unit,
        PipelineCategory::Performance,
        PipelineCategory::Integration,
        PipelineCategory::Backtest,
        PipelineCategory::Statistical,
        PipelineCategory::ErrorHandling,
        PipelineCategory::Configuration,
    ]
}

/// The category the pipeline runs in place `i` (0 to 6).
pub fn category_at(i: usize) -> (k: PipelineCategory)
    requires
        i < 7,
    ensures
        k == pipeline_order()[i as int],
{
    if i == 0 {
        PipelineCategory::Unit
    } else if i == 1 {
        PipelineCategory::Performance
    } else if i == 2 {
        PipelineCategory::Integration
    } else if i == 3 {
        PipelineCategory::Backtest
    } else if i == 4 {
        PipelineCategory::Statistical
    } else if i == 5 {
        PipelineCategory::ErrorHandling
    } else {
        PipelineCategory::Configuration
    }
}

/// The outcome of each category in pipeline order: what its run reported when the
/// configuration enables it, skipped otherwise.
pub open spec fn pipeline_outcomes(c: IntegrationTestConfig, reports: Seq<CategoryOutcome>) -> Seq<
    (PipelineCategory, CategoryOutcome),
> {
    Seq::new(
        7,
        |i: int|
            (
                pipeline_order()[i],
                if category_enabled(c, pipeline_order()[i]) {
                    reports[i]
                } else {
                    CategoryOutcome::Skipped
                },
            ),
    )
}

/// Number of categories the configuration turns off.
pub open spec fn disabled_count(c: IntegrationTestConfig) -> nat {
    (if c.run_unit_tests { 0nat } else { 1nat }) + (if c.run_performance_tests { 0nat } else { 1nat })
        + (if c.run_integration_tests { 0nat } else { 1nat }) + (if c.run_backtest_tests { 0nat } else { 1nat })
        + (if c.run_statistical_tests { 0nat } else { 1nat }) + (if c.test_error_handling { 0nat } else { 1nat })
        + (if c.test_configuration_changes { 0nat } else { 1nat })
}

/// Number of categories among the first `i` of the pipeline that are turned off.
pub open spec fn disabled_prefix(c: IntegrationTestConfig, i: nat) -> nat
    decreases i,
{
    if i == 0 {
        0
    } else {
        disabled_prefix(c, (i - 1) as nat) + if category_enabled(c, pipeline_order()[i - 1]) {
            0nat
        } else {
            1nat
        }
    }
}

/// Summarises a pipeline run under `config`: `reports` holds, in pipeline order,
/// what each enabled category's run reported (a run always completes or stops with
/// an error). The disabled categories are the skipped ones, and the summary is that
/// of [`summarize_categories`] over [`pipeline_outcomes`].
pub fn summarize_pipeline(config: &IntegrationTestConfig, reports: Vec<CategoryOutcome>, total_execution_time_ms: u64) -> (s:
    TestExecutionSummary)
    requires
        reports@.len() == 7,
        forall|i: int|
            0 <= i < 7 && category_enabled(*config, #[trigger] pipeline_order()[i]) ==> !(
            reports@[i] is Skipped),
    ensures
        s.total_test_categories == 7,
        s.skipped_categories == disabled_count(*config),
        s.passed_categories + s.failed_categories + s.skipped_categories == 7,
        s.category_results@.len() == 7 - disabled_count(*config),
        s.passed_categories == count_outcomes(
            pipeline_outcomes(*config, reports@),
            |o: CategoryOutcome| outcome_passed(o),
        ),
        s.failed_categories == count_outcomes(
            pipeline_outcomes(*config, reports@),
            |o: CategoryOutcome| outcome_failed(o),
        ),
        s.passed_categories == count_passed_results(s.category_results@),
        s.overall_success == (s.failed_categories == 0 && s.passed_categories > 0),
        s.total_execution_time_ms == total_execution_time_ms,
        s.category_results@.len() == ran_outcomes(pipeline_outcomes(*config, reports@)).len(),
        forall|i: int|
            0 <= i < s.category_results@.len() ==> (#[trigger] s.category_results@[i]).0@
                == category_key(ran_outcomes(pipeline_outcomes(*config, reports@))[i].0) && result_is(
                s.category_results@[i].1,
                ran_outcomes(pipeline_outcomes(*config, reports@))[i].0,
                ran_outcomes(pipeline_outcomes(*config, reports@))[i].1,
            ),
{
    let ghost all = reports@;
    let ghost target = pipeline_outcomes(*config, all);
    let ghost skipped_p = |o: CategoryOutcome| outcome_skipped(o);
    let mut rest = reports;
    let mut outs: Vec<(PipelineCategory, CategoryOutcome)> = Vec::new();
    let mut i: usize = 0;
    while i < 7
        invariant
            i <= 7,
            all.len() == 7,
            target == pipeline_outcomes(*config, all),
            skipped_p == (|o: CategoryOutcome| outcome_skipped(o)),
            rest@ == all.skip(i as int),
            outs@ == target.take(i as int),
            count_outcomes(outs@, skipped_p) == disabled_prefix(*config, i as nat),
            forall|j: int|
                0 <= j < 7 && category_enabled(*config, #[trigger] pipeline_order()[j]) ==> !(
                all[j] is Skipped),
        decreases 7 - i,
    {
        let k = category_at(i);
        let report = rest.remove(0);
        assert(report == all[i as int]);
        assert(rest@ =~= all.skip(i as int + 1));
        let outcome = if is_category_enabled(config, k) {
            report
        } else {
            CategoryOutcome::Skipped
        };
        let ghost before = outs@;
        outs.push((k, outcome));
        proof {
            assert(target[i as int] == (k, outcome));
            assert(outs@ =~= target.take(i as int + 1));
            assert(outs@.drop_last() =~= before);
            if category_enabled(*config, k) {
                assert(!(all[i as int] is Skipped));
            }
        }
        i = i + 1;
    }
    proof {
        assert(outs@ =~= target);
        reveal_with_fuel(disabled_prefix, 8);
        assert(disabled_prefix(*config, 7) == disabled_count(*config));
        lemma_counts_split(target);
    }
    summarize_categories(outs, total_execution_time_ms)
}

} // verus!
