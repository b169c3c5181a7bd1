use vstd::prelude::*;

use crate::direction::Direction;

verus! {

/// Why a position was closed.
#[derive(Debug, Clone, Copy, PartialEq, Eq, Structural, Hash)]
pub enum ExitReason {
    /// A strong enough opposite signal.
    OppositeSignal,
    StopLoss,
    TakeProfit,
    /// Held for the maximum holding period.
    MaxHoldingPeriod,
    /// The data ended.
    EndOfData,
    Manual,
}

/// An open position. Prices and sizes are `f64` and the prediction's strength and
/// confidence `f32`, each held as its bits; times are Unix seconds.
#[derive(Debug, Clone, Copy, PartialEq, Eq, Structural)]
pub struct Position {
    pub direction: Direction,
    pub entry_price: u64,
    pub entry_time: i64,
    pub quantity: u64,
    pub signal_strength: u32,
    pub confidence: u32,
    pub stop_loss_price: u64,
    pub take_profit_price: u64,
    pub position_id: u64,
}

impl Position {
    /// The position has been held for at least `max_holding_period` seconds at
    /// `current_time`.
    pub fn should_force_exit(&self, current_time: i64, max_holding_period: i64) -> (r: bool)
        ensures
            r == (current_time - self.entry_time >= max_holding_period),
    {
        current_time as i128 - self.entry_time as i128 >= max_holding_period as i128
    }

    /// The position has been held for at least `min_holding_period` seconds at
    /// `current_time`.
    pub fn can_exit(&self, current_time: i64, min_holding_period: i64) -> (r: bool)
        ensures
            r == (current_time - self.entry_time >= min_holding_period),
    {
        current_time as i128 - self.entry_time as i128 >= min_holding_period as i128
    }
}

/// What is known of an open position at a bar: whether the price reached its stop
/// loss or take profit (comparisons of prices), whether it has been held for the
/// maximum and for the minimum holding period.
#[derive(Debug, Clone, Copy, PartialEq, Eq, Structural)]
pub struct ExitChecks {
    pub stop_loss_hit: bool,
    pub take_profit_hit: bool,
    pub max_holding_reached: bool,
    pub min_holding_reached: bool,
}

/// The prediction opposes the position: short against long or long against short.
pub open spec fn opposes(position: Direction, predicted: Direction) -> bool {
    (position == Direction::Long && predicted == Direction::Short) || (position == Direction::Short
        && predicted == Direction::Long)
}

/// Whether and why a position is closed: the stop loss first, then the take profit,
/// then the maximum holding period, then, once the minimum holding period has
/// passed, a prediction against it whose signal is strong enough.
pub open spec fn exit_for(
    position: Direction,
    checks: ExitChecks,
    predicted: Direction,
    strong_signal: bool,
) -> Option<ExitReason> {
    if checks.stop_loss_hit {
        Some(ExitReason::StopLoss)
    } else if checks.take_profit_hit {
        Some(ExitReason::TakeProfit)
    } else if checks.max_holding_reached {
        Some(ExitReason::MaxHoldingPeriod)
    } else if checks.min_holding_reached && opposes(position, predicted) && strong_signal {
        Some(ExitReason::OppositeSignal)
    } else {
        None
    }
}

fn opposes_exec(position: Direction, predicted: Direction) -> (r: bool)
    ensures
        r == opposes(position, predicted),
{
    match (position, predicted) {
        (Direction::Long, Direction::Short) => true,
        (Direction::Short, Direction::Long) => true,
        _ => false,
    }
}

/// Whether an open position is closed at this bar.
pub fn should_exit_position(
    position: Direction,
    checks: &ExitChecks,
    predicted: Direction,
    strong_signal: bool,
) -> (r: bool)
    ensures
        r == exit_for(position, *checks, predicted, strong_signal) is Some,
{
    if checks.stop_loss_hit || checks.take_profit_hit || checks.max_holding_reached {
        return true;
    }
    checks.min_holding_reached && opposes_exec(position, predicted) && strong_signal
}

/// Why a position that is closed at this bar is closed: the first of stop loss,
/// take profit and maximum holding period that applies, else the opposite signal.
pub fn determine_exit_reason(checks: &ExitChecks) -> (r: ExitReason)
    ensures
        r == (if checks.stop_loss_hit {
            ExitReason::StopLoss
        } else if checks.take_profit_hit {
            ExitReason::TakeProfit
        } else if checks.max_holding_reached {
            ExitReason::MaxHoldingPeriod
        } else {
            ExitReason::OppositeSignal
        }),
{
    if checks.stop_loss_hit {
        ExitReason::StopLoss
    } else if checks.take_profit_hit {
        ExitReason::TakeProfit
    } else if checks.max_holding_reached {
        ExitReason::MaxHoldingPeriod
    } else {
        ExitReason::OppositeSignal
    }
}

/// The reason given for a closed position is the reason it was closed for.
pub proof fn lemma_exit_reason_matches(
    position: Direction,
    checks: ExitChecks,
    predicted: Direction,
    strong_signal: bool,
)
    requires
        exit_for(position, checks, predicted, strong_signal) is Some,
    ensures
        exit_for(position, checks, predicted, strong_signal) == Some(
            if checks.stop_loss_hit {
                ExitReason::StopLoss
            } else if checks.take_profit_hit {
                ExitReason::TakeProfit
            } else if checks.max_holding_reached {
                ExitReason::MaxHoldingPeriod
            } else {
                ExitReason::OppositeSignal
            },
        ),
{
}

/// The opposite-signal exit is symmetric. When no stop loss, take profit or maximum
/// holding period closes a position and its minimum holding period has passed, a
/// long position facing a short prediction and a short position facing a long
/// prediction both close exactly when the signal is strong; a prediction in the
/// position's own direction, or a neutral one, never closes it.
pub proof fn lemma_opposite_signal_exit_symmetric(checks: ExitChecks, strong_signal: bool)
    requires
        !checks.stop_loss_hit,
        !checks.take_profit_hit,
        !checks.max_holding_reached,
        checks.min_holding_reached,
    ensures
        (exit_for(Direction::Long, checks, Direction::Short, strong_signal) is Some) == strong_signal,
        (exit_for(Direction::Short, checks, Direction::Long, strong_signal) is Some) == strong_signal,
        exit_for(Direction::Long, checks, Direction::Short, strong_signal) == exit_for(
            Direction::Short,
            checks,
            Direction::Long,
            strong_signal,
        ),
        forall|d: Direction| exit_for(d, checks, d, strong_signal) is None,
        forall|d: Direction| exit_for(d, checks, Direction::Neutral, strong_signal) is None,
{
}

/// Whether a new position is opened: the signal is strong enough, the confidence
/// is at least 0.3, the cash covers a position, and the prediction is not neutral.
pub fn should_enter_position(
    strong_signal: bool,
    confident: bool,
    cash_sufficient: bool,
    predicted: Direction,
) -> (r: bool)
    ensures
        r == (strong_signal && confident && cash_sufficient && predicted != Direction::Neutral),
{
    strong_signal && confident && cash_sufficient && predicted != Direction::Neutral
}

/// Whether a position may be opened with `open` positions already open.
pub fn may_open_position(open: usize, max_positions: usize, should_enter: bool) -> (r: bool)
    ensures
        r == (open < max_positions && should_enter),
{
    open < max_positions && should_enter
}

/// The positions to close, from the last to the first, so that removing each in
/// turn leaves the positions of the others unchanged.
pub fn positions_to_close(exit_flags: &Vec<bool>) -> (out: Vec<usize>)
    ensures
        forall|k: int| 0 <= k < out@.len() ==> out@[k] < exit_flags@.len() && exit_flags@[out@[k] as int],
        forall|k: int, l: int| 0 <= k < l < out@.len() ==> out@[k] > out@[l],
        forall|i: int| 0 <= i < exit_flags@.len() && exit_flags@[i] ==> out@.contains(i as usize),
{
    let mut out: Vec<usize> = Vec::new();
    let mut i: usize = exit_flags.len();
    while i > 0
        invariant
            i <= exit_flags@.len(),
            forall|k: int| 0 <= k < out@.len() ==> i <= out@[k] < exit_flags@.len() && exit_flags@[out@[k] as int],
            forall|k: int, l: int| 0 <= k < l < out@.len() ==> out@[k] > out@[l],
            forall|j: int| i <= j < exit_flags@.len() && exit_flags@[j] ==> out@.contains(j as usize),
        decreases i,
    {
        i = i - 1;
        if exit_flags[i] {
            let ghost before = out@;
            out.push(i);
            assert forall|j: int| i <= j < exit_flags@.len() && exit_flags@[j] implies out@.contains(
                j as usize,
            ) by {
                if j == i {
                    assert(out@[out@.len() - 1] == i);
                } else {
                    let k = choose|k: int| 0 <= k < before.len() && before[k] == j as usize;
                    assert(out@[k] == j as usize);
                }
            }
        }
    }
    out
}

// ---------------------------------------------------------------------------
// Training data and retraining
// ---------------------------------------------------------------------------

/// Bars used for the initial training data: a fifth of the data, clamped to
/// 100..=2000, and never more than there are bars.
pub open spec fn initial_training_size(n: nat) -> nat {
    let fifth = n * 20 / 100;
    let clamped = if fifth < 100 {
        100
    } else if fifth > 2000 {
        2000
    } else {
        fifth
    };
    if clamped <= n {
        clamped
    } else {
        n
    }
}

/// Bars of the initial training data; each needs the bar four ahead for its label.
pub open spec fn initial_training_count(n: nat) -> nat {
    let size = initial_training_size(n);
    if n < 4 {
        0
    } else if size <= (n - 4) as nat {
        size
    } else {
        (n - 4) as nat
    }
}

/// Number of bars labelled for the initial training data out of `n` bars.
pub fn initial_training_samples(n: usize) -> (count: usize)
    requires
        n <= usize::MAX / 20,
    ensures
        count == initial_training_count(n as nat),
{
    let fifth = n * 20 / 100;
    let clamped = if fifth < 100 {
        100
    } else if fifth > 2000 {
        2000
    } else {
        fifth
    };
    let size = if clamped <= n {
        clamped
    } else {
        n
    };
    if n < 4 {
        0
    } else if size <= n - 4 {
        size
    } else {
        n - 4
    }
}

/// Whether the training data is refreshed at bar `i`: every 100 bars after the
/// first 200.
pub fn should_update_training(i: usize) -> (r: bool)
    ensures
        r == (i > 200 && i % 100 == 0),
{
    i > 200 && i % 100 == 0
}

// ---------------------------------------------------------------------------
// Streaks
// ---------------------------------------------------------------------------

/// The sign of a trade's profit.
#[derive(Debug, Clone, Copy, PartialEq, Eq, Structural)]
pub enum TradeOutcome {
    Win,
    Loss,
    Breakeven,
}

/// Length of the run of `o` that ends the sequence.
pub open spec fn trailing_run(s: Seq<TradeOutcome>, o: TradeOutcome) -> nat
    decreases s.len(),
{
    if s.len() == 0 || s.last() != o {
        0
    } else {
        trailing_run(s.drop_last(), o) + 1
    }
}

/// Longest run of consecutive `o` in the sequence.
pub open spec fn longest_run(s: Seq<TradeOutcome>, o: TradeOutcome) -> nat
    decreases s.len(),
{
    if s.len() == 0 {
        0
    } else {
        let prev = longest_run(s.drop_last(), o);
        let cur = trailing_run(s, o);
        if cur > prev {
            cur
        } else {
            prev
        }
    }
}

proof fn lemma_trailing_run_le(s: Seq<TradeOutcome>, o: TradeOutcome)
    ensures
        trailing_run(s, o) <= s.len(),
        longest_run(s, o) <= s.len(),
    decreases s.len(),
{
    if s.len() > 0 {
        lemma_trailing_run_le(s.drop_last(), o);
    }
}

/// The longest runs of wins and of losses; a breakeven trade ends both.
pub fn calculate_consecutive_streaks(outcomes: &Vec<TradeOutcome>) -> (r: (usize, usize))
    ensures
        r.0 == longest_run(outcomes@, TradeOutcome::Win),
        r.1 == longest_run(outcomes@, TradeOutcome::Loss),
{
    let mut max_wins: usize = 0;
    let mut max_losses: usize = 0;
    let mut wins: usize = 0;
    let mut losses: usize = 0;
    let mut i: usize = 0;
    while i < outcomes.len()
        invariant
            i <= outcomes@.len(),
            wins == trailing_run(outcomes@.take(i as int), TradeOutcome::Win),
            losses == trailing_run(outcomes@.take(i as int), TradeOutcome::Loss),
            max_wins == longest_run(outcomes@.take(i as int), TradeOutcome::Win),
            max_losses == longest_run(outcomes@.take(i as int), TradeOutcome::Loss),
        decreases outcomes.len() - i,
    {
        proof {
            lemma_trailing_run_le(outcomes@.take(i as int), TradeOutcome::Win);
            lemma_trailing_run_le(outcomes@.take(i as int), TradeOutcome::Loss);
            assert(outcomes@.take(i as int + 1).drop_last() =~= outcomes@.take(i as int));
        }
        match outcomes[i] {
            TradeOutcome::Win => {
                wins = wins + 1;
                losses = 0;
                if wins > max_wins {
                    max_wins = wins;
                }
            },
            TradeOutcome::Loss => {
                losses = losses + 1;
                wins = 0;
                if losses > max_losses {
                    max_losses = losses;
                }
            },
            TradeOutcome::Breakeven => {
                wins = 0;
                losses = 0;
            },
        }
        i = i + 1;
    }
    assert(outcomes@.take(i as int) =~= outcomes@);
    (max_wins, max_losses)
}

/// A run of wins never overlaps a run of losses: the current streaks of wins and of
/// losses are never both positive.
pub proof fn lemma_streaks_exclusive(s: Seq<TradeOutcome>)
    ensures
        trailing_run(s, TradeOutcome::Win) == 0 || trailing_run(s, TradeOutcome::Loss) == 0,
{
}

// ---------------------------------------------------------------------------
// Engine bookkeeping
// ---------------------------------------------------------------------------

/// The part of the backtesting engine that is not arithmetic on prices: the next
/// position identifier.
pub struct BacktestingEngine {
    next_position_id: u64,
}

impl BacktestingEngine {
    pub closed spec fn next_id(&self) -> u64 {
        self.next_position_id
    }

    /// A backtesting engine whose first position gets identifier 1.
    pub fn new() -> (e: BacktestingEngine)
        ensures
            e.next_id() == 1,
    {
        BacktestingEngine { next_position_id: 1 }
    }

    /// The identifier for a newly opened position; identifiers count up from 1.
    pub fn open_position_id(&mut self) -> (id: u64)
        requires
            old(self).next_id() < u64::MAX,
        ensures
            id == old(self).next_id(),
            final(self).next_id() == old(self).next_id() + 1,
    {
        let id = self.next_position_id;
        self.next_position_id = self.next_position_id + 1;
        id
    }
}

} // verus!
