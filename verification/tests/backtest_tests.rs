use ldc_engine::backtest::{
    calculate_consecutive_streaks, determine_exit_reason, initial_training_samples,
    may_open_position, positions_to_close, should_enter_position, should_exit_position,
    should_update_training, BacktestingEngine, ExitChecks, ExitReason, Position, TradeOutcome,
};
use ldc_engine::direction::Direction;
use ldc_engine::pipeline::{
    category_result, is_category_enabled, summarize_categories, summarize_pipeline, CategoryOutcome,
    IntegrationTestConfig, PipelineCategory,
};

fn outcome(pnl: f64) -> TradeOutcome {
    if pnl > 0.0 {
        TradeOutcome::Win
    } else if pnl < 0.0 {
        TradeOutcome::Loss
    } else {
        TradeOutcome::Breakeven
    }
}

#[test]
fn test_consecutive_streaks() {
    let pnls = [10.0, 5.0, 15.0, -8.0, -12.0, 20.0, -5.0, -3.0, -7.0, 25.0];
    let trades: Vec<TradeOutcome> = pnls.iter().map(|p| outcome(*p)).collect();
    let (max_wins, max_losses) = calculate_consecutive_streaks(&trades);
    assert_eq!(max_wins, 3);
    assert_eq!(max_losses, 3);

    let all_wins: Vec<TradeOutcome> = (0..5).map(|_| outcome(10.0)).collect();
    assert_eq!(calculate_consecutive_streaks(&all_wins), (5, 0));

    assert_eq!(calculate_consecutive_streaks(&Vec::new()), (0, 0));
}

#[test]
fn test_position_exit_conditions() {
    let entry_time: i64 = 1_700_000_000;
    let position = Position {
        direction: Direction::Long,
        entry_price: 100.0f64.to_bits(),
        entry_time,
        quantity: 10.0f64.to_bits(),
        signal_strength: 0.8f32.to_bits(),
        confidence: 0.9f32.to_bits(),
        stop_loss_price: 95.0f64.to_bits(),
        take_profit_price: 110.0f64.to_bits(),
        position_id: 1,
    };
    // Held 25 hours against a 24-hour maximum.
    assert!(position.should_force_exit(entry_time + 25 * 3600, 24 * 3600));
    // Held 10 minutes against a 15-minute minimum.
    assert!(!position.can_exit(entry_time + 10 * 60, 15 * 60));
}

#[test]
fn test_backtesting_engine_creation() {
    let mut engine = BacktestingEngine::new();
    assert_eq!(engine.open_position_id(), 1);
    assert_eq!(engine.open_position_id(), 2);
}

#[test]
fn exit_priority() {
    let all = ExitChecks { stop_loss_hit: true, take_profit_hit: true, max_holding_reached: true, min_holding_reached: true };
    assert_eq!(determine_exit_reason(&all), ExitReason::StopLoss);
    let tp = ExitChecks { stop_loss_hit: false, ..all };
    assert_eq!(determine_exit_reason(&tp), ExitReason::TakeProfit);
    let hold = ExitChecks { take_profit_hit: false, ..tp };
    assert_eq!(determine_exit_reason(&hold), ExitReason::MaxHoldingPeriod);
    let none = ExitChecks { max_holding_reached: false, ..hold };
    assert!(should_exit_position(Direction::Long, &none, Direction::Short, true));
    assert!(!should_exit_position(Direction::Long, &none, Direction::Short, false));
    assert!(!should_exit_position(Direction::Long, &none, Direction::Long, true));
    let young = ExitChecks { min_holding_reached: false, ..none };
    assert!(!should_exit_position(Direction::Short, &young, Direction::Long, true));
    assert_eq!(determine_exit_reason(&none), ExitReason::OppositeSignal);
}

#[test]
fn entry_rules() {
    assert!(should_enter_position(true, true, true, Direction::Long));
    assert!(!should_enter_position(true, true, true, Direction::Neutral));
    assert!(!should_enter_position(false, true, true, Direction::Short));
    assert!(may_open_position(0, 1, true));
    assert!(!may_open_position(1, 1, true));
}

#[test]
fn close_from_last_to_first() {
    assert_eq!(positions_to_close(&vec![true, false, true, true]), vec![3, 2, 0]);
    assert!(positions_to_close(&vec![false, false]).is_empty());
}

#[test]
fn training_sizes() {
    assert_eq!(initial_training_samples(3), 0);
    assert_eq!(initial_training_samples(50), 46);
    assert_eq!(initial_training_samples(1000), 200);
    assert_eq!(initial_training_samples(100_000), 2000);
    assert!(should_update_training(300));
    assert!(!should_update_training(200));
    assert!(!should_update_training(301));
}

#[test]
fn pipeline_summary() {
    let config = IntegrationTestConfig::default();
    assert!(is_category_enabled(&config, PipelineCategory::Backtest));
    let outcomes = vec![
        (PipelineCategory::Unit, CategoryOutcome::Completed { passed: true, reported_tests: 0, reported_passed: 0 }),
        (PipelineCategory::Performance, CategoryOutcome::Completed { passed: false, reported_tests: 5, reported_passed: 3 }),
        (PipelineCategory::Integration, CategoryOutcome::Skipped),
        (PipelineCategory::Backtest, CategoryOutcome::Errored { message: "no data".to_string() }),
    ];
    let s = summarize_categories(outcomes, 42);
    assert_eq!((s.passed_categories, s.failed_categories, s.skipped_categories), (1, 2, 1));
    assert_eq!(s.total_test_categories, 4);
    assert!(!s.overall_success);
    let keys: Vec<&str> = s.category_results.iter().map(|(k, _)| k.as_str()).collect();
    assert_eq!(keys, vec!["unit_tests", "performance_tests", "backtest_tests"]);
    assert_eq!(s.category_results[0].1.passed_tests, 4);
    assert_eq!(s.category_results[1].1.test_count, 5);
    assert_eq!(s.category_results[2].1.error_message, Some("no data".to_string()));

    let ok = summarize_categories(
        vec![(PipelineCategory::Statistical, CategoryOutcome::Completed { passed: true, reported_tests: 0, reported_passed: 0 })],
        1,
    );
    assert!(ok.overall_success);
    let none = summarize_categories(vec![(PipelineCategory::Unit, CategoryOutcome::Skipped)], 0);
    assert!(!none.overall_success);
    assert!(category_result(PipelineCategory::Unit, CategoryOutcome::Skipped).is_none());
    let e = category_result(PipelineCategory::ErrorHandling, CategoryOutcome::Errored { message: "x".to_string() }).unwrap();
    assert_eq!(e.test_count, 3);
    assert_eq!(e.execution_time_secs, 0);
}

#[test]
fn pipeline_skips_exactly_the_disabled_categories() {
    let mut config = IntegrationTestConfig::default();
    config.run_performance_tests = false;
    config.test_configuration_changes = false;
    let done = || CategoryOutcome::Completed { passed: true, reported_tests: 0, reported_passed: 0 };
    let reports = vec![
        done(),
        CategoryOutcome::Skipped,
        CategoryOutcome::Errored { message: "boom".to_string() },
        done(),
        done(),
        CategoryOutcome::Completed { passed: true, reported_tests: 3, reported_passed: 3 },
        CategoryOutcome::Skipped,
    ];
    let s = summarize_pipeline(&config, reports, 7);
    assert_eq!(s.total_test_categories, 7);
    assert_eq!(s.skipped_categories, 2);
    assert_eq!((s.passed_categories, s.failed_categories), (4, 1));
    assert_eq!(s.category_results.len(), 5);
    let passed = s.category_results.iter().filter(|(_, r)| r.passed).count();
    assert_eq!(passed, s.passed_categories);
    let (key, integration) = &s.category_results[1];
    assert_eq!(key, "integration_tests");
    assert!(!integration.passed);
    assert_eq!(integration.error_message, Some("boom".to_string()));
    assert!(!s.overall_success);
}
