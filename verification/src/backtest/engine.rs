//! The trading decisions of the backtest simulation.
//!
//! The engine trades one fixed-size long position: it opens only when flat
//! and the cash covers the cost, closes only when holding, and settles any
//! open position at the last bar. Prices, cash and P&L are the caller's
//! numbers; the caller reports the comparisons the decisions need.

use vstd::prelude::*;
use crate::strategy::Signal;

verus! {

/// What the engine does on a bar.
#[derive(Debug, Clone, Copy, PartialEq, Eq, Structural)]
pub enum TradeAction {
    /// Nothing.
    Stay,
    /// Buy the configured position size at the bar's close plus slippage.
    Open,
    /// Sell the whole position at the bar's close minus slippage.
    Close,
}

/// The engine's reaction to `signal` when `holding` a position, where
/// `affordable` says whether the cash covers the cost of opening one.
pub open spec fn trade_action_spec(signal: Signal, holding: bool, affordable: bool) -> TradeAction {
    match signal {
        Signal::Buy => if !holding && affordable {
            TradeAction::Open
        } else {
            TradeAction::Stay
        },
        Signal::Sell => if holding {
            TradeAction::Close
        } else {
            TradeAction::Stay
        },
        Signal::Hold => TradeAction::Stay,
    }
}

/// Computes [`trade_action_spec`].
pub fn trade_action(signal: Signal, holding: bool, affordable: bool) -> (a: TradeAction)
    ensures
        a == trade_action_spec(signal, holding, affordable),
{
    match signal {
        Signal::Buy => if !holding && affordable {
            TradeAction::Open
        } else {
            TradeAction::Stay
        },
        Signal::Sell => if holding {
            TradeAction::Close
        } else {
            TradeAction::Stay
        },
        Signal::Hold => TradeAction::Stay,
    }
}

/// Whether the engine holds a position after `action` (it held one before
/// when `holding`).
pub open spec fn holding_after(holding: bool, action: TradeAction) -> bool {
    match action {
        TradeAction::Open => true,
        TradeAction::Close => false,
        TradeAction::Stay => holding,
    }
}

/// The engine never pyramids and never sells what it does not hold: it opens
/// only from flat and closes only when holding, so the position is always
/// either flat or exactly one position size.
pub proof fn lemma_single_position(signal: Signal, holding: bool, affordable: bool)
    ensures
        trade_action_spec(signal, holding, affordable) == TradeAction::Open ==> !holding,
        trade_action_spec(signal, holding, affordable) == TradeAction::Close ==> holding,
        trade_action_spec(signal, holding, affordable) == TradeAction::Open ==> affordable,
{
}

/// The engine's reaction, case by case: a SELL while holding always closes,
/// whatever the cash; a BUY from flat opens exactly when the cash covers the
/// cost; a HOLD, a BUY while holding and a SELL while flat do nothing.
pub proof fn lemma_trade_action_cases(signal: Signal, holding: bool, affordable: bool)
    ensures
        trade_action_spec(Signal::Sell, true, affordable) == TradeAction::Close,
        trade_action_spec(Signal::Buy, false, affordable) == TradeAction::Open <==> affordable,
        trade_action_spec(Signal::Buy, true, affordable) == TradeAction::Stay,
        trade_action_spec(Signal::Sell, false, affordable) == TradeAction::Stay,
        trade_action_spec(Signal::Hold, holding, affordable) == TradeAction::Stay,
        trade_action_spec(signal, holding, affordable) == TradeAction::Close <==> (signal
            == Signal::Sell && holding),
        trade_action_spec(signal, holding, affordable) == TradeAction::Open <==> (signal
            == Signal::Buy && !holding && affordable),
{
}

/// How a closed trade ended.
#[derive(Debug, Clone, Copy, PartialEq, Eq, Structural)]
pub enum TradeOutcome {
    /// Positive P&L.
    Win,
    /// Negative P&L.
    Loss,
    /// Zero P&L.
    Flat,
}

/// Counts of closed trades by outcome.
#[derive(Debug, Clone, Copy, PartialEq, Eq, Structural)]
pub struct TradeTally {
    pub total_trades: usize,
    pub winning_trades: usize,
    pub losing_trades: usize,
}

impl TradeTally {
    /// Every trade counted in `total_trades`, winners and losers apart.
    pub open spec fn wf(&self) -> bool {
        self.winning_trades + self.losing_trades <= self.total_trades
    }

    /// No trades yet.
    pub fn new() -> (t: Self)
        ensures
            t.wf(),
            t.total_trades == 0 && t.winning_trades == 0 && t.losing_trades == 0,
    {
        TradeTally { total_trades: 0, winning_trades: 0, losing_trades: 0 }
    }

    /// Counts one more closed trade.
    pub fn record(&mut self, outcome: TradeOutcome)
        requires
            old(self).wf(),
            old(self).total_trades < usize::MAX,
        ensures
            final(self).wf(),
            final(self).total_trades == old(self).total_trades + 1,
            final(self).winning_trades == old(self).winning_trades + if outcome == TradeOutcome::Win {
                1int
            } else {
                0int
            },
            final(self).losing_trades == old(self).losing_trades + if outcome == TradeOutcome::Loss {
                1int
            } else {
                0int
            },
    {
        self.total_trades = self.total_trades + 1;
        match outcome {
            TradeOutcome::Win => {
                self.winning_trades = self.winning_trades + 1;
            },
            TradeOutcome::Loss => {
                self.losing_trades = self.losing_trades + 1;
            },
            TradeOutcome::Flat => {},
        }
    }
}

} // verus!
