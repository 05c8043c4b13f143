//! The risk checks that approve or reject a signal.
//!
//! The checks run in a fixed order and the first one that fails decides the
//! rejection: trading enabled, daily loss limit, number of open positions,
//! duplicate buy. Whether the day's realized P&L has reached the loss limit is
//! a comparison of amounts that the caller makes; everything else is decided
//! here.

use vstd::prelude::*;
use crate::market::types::Position;
use crate::strategy::Signal;
use crate::text::{decimal, push_decimal, same_text};

verus! {

/// Risk parameters that constrain strategy signals; amounts are of the
/// caller's numeric type.
#[derive(Debug)]
pub struct RiskConfig<A> {
    /// Number of shares/contracts per order.
    pub max_position_size: A,
    /// Maximum number of simultaneously open positions.
    pub max_open_positions: usize,
    /// Maximum loss per day, as a negative amount (-500 means a $500 loss).
    pub daily_loss_limit: A,
    /// Whether trading is globally enabled.
    pub trading_enabled: bool,
}

impl<A: From<i32>> Default for RiskConfig<A> {
    /// 10 units per order, at most 5 open positions, a daily loss limit of
    /// -500, trading enabled.
    fn default() -> (c: Self)
        ensures
            call_ensures(A::from, (10i32,), c.max_position_size),
            c.max_open_positions == 5,
            call_ensures(A::from, (-500i32,), c.daily_loss_limit),
            c.trading_enabled,
    {
        RiskConfig {
            max_position_size: A::from(10i32),
            max_open_positions: 5,
            daily_loss_limit: A::from(-500i32),
            trading_enabled: true,
        }
    }
}

/// The outcome of the risk checks for one signal.
#[derive(Debug, Clone, Copy, PartialEq, Eq, Structural)]
pub enum RiskDecision {
    /// The signal was `Hold`: it passes through with no quantity and is never
    /// sent to execution.
    PassHold,
    /// The signal may be executed at the configured position size.
    Approved,
    /// Trading is disabled.
    TradingBlocked,
    /// The day's realized P&L is at or below the daily loss limit.
    DailyLossLimitReached,
    /// As many positions as allowed are already open.
    MaxOpenPositions { count: usize, limit: usize },
    /// A BUY for a symbol that already has an open position.
    DuplicateOrder,
}

/// Whether some open position is in `symbol`.
pub open spec fn holds_symbol<N>(positions: Seq<Position<N>>, symbol: Seq<char>) -> bool {
    exists|i: int| 0 <= i < positions.len() && (#[trigger] positions[i]).symbol@ == symbol
}

/// The risk decision for `signal` on `symbol`, given the open positions and
/// whether the daily loss limit has been reached.
pub open spec fn risk_decision<A, N>(
    config: RiskConfig<A>,
    at_daily_loss_limit: bool,
    symbol: Seq<char>,
    signal: Signal,
    positions: Seq<Position<N>>,
) -> RiskDecision {
    if signal == Signal::Hold {
        RiskDecision::PassHold
    } else if !config.trading_enabled {
        RiskDecision::TradingBlocked
    } else if at_daily_loss_limit {
        RiskDecision::DailyLossLimitReached
    } else if positions.len() >= config.max_open_positions {
        RiskDecision::MaxOpenPositions {
            count: positions.len() as usize,
            limit: config.max_open_positions,
        }
    } else if signal == Signal::Buy && holds_symbol(positions, symbol) {
        RiskDecision::DuplicateOrder
    } else {
        RiskDecision::Approved
    }
}

/// Runs the risk checks on a strategy signal.
pub fn assess<A, N>(
    config: &RiskConfig<A>,
    at_daily_loss_limit: bool,
    symbol: &str,
    signal: Signal,
    open_positions: &[Position<N>],
) -> (d: RiskDecision)
    ensures
        d == risk_decision(*config, at_daily_loss_limit, symbol@, signal, open_positions@),
{
    if signal == Signal::Hold {
        return RiskDecision::PassHold;
    }
    if !config.trading_enabled {
        return RiskDecision::TradingBlocked;
    }
    if at_daily_loss_limit {
        return RiskDecision::DailyLossLimitReached;
    }
    let count = open_positions.len();
    if count >= config.max_open_positions {
        return RiskDecision::MaxOpenPositions { count, limit: config.max_open_positions };
    }
    if signal == Signal::Buy {
        let mut i: usize = 0;
        while i < count
            invariant
                count == open_positions@.len(),
                count < config.max_open_positions,
                signal == Signal::Buy,
                config.trading_enabled,
                !at_daily_loss_limit,
                i <= count,
                forall|k: int| 0 <= k < i ==> (#[trigger] open_positions@[k]).symbol@ != symbol@,
            decreases count - i,
        {
            if same_text(open_positions[i].symbol.as_str(), symbol) {
                assert(open_positions@[i as int].symbol@ == symbol@);
                return RiskDecision::DuplicateOrder;
            }
            i += 1;
        }
    }
    RiskDecision::Approved
}

/// Reasons why the risk manager may reject a signal.
#[derive(Debug, PartialEq)]
#[allow(inconsistent_fields)]
pub enum RiskReject<A> {
    DailyLossLimitReached { realized_pl: A },
    PositionSizeExceeded { requested: A, limit: A },
    MaxOpenPositions { count: usize, limit: usize },
    TradingBlocked,
    DuplicateOrder { symbol: String, side: String },
}

impl<A> RiskReject<A> {
    /// The human-readable reason. Amounts are rendered by `render`, asked
    /// for a fixed number of decimals (`Some(2)` for the realized P&L) or for
    /// the amount type's plain display (`None`).
    pub fn message<F: Fn(&A, Option<usize>) -> String>(&self, render: &F) -> (m: String)
        requires
            forall|a: &A, p: Option<usize>| #[trigger] render.requires((a, p)),
        ensures
            match *self {
                RiskReject::DailyLossLimitReached { realized_pl } => exists|t: String|
                    #[trigger] render.ensures((&realized_pl, Some(2usize)), t) && m@
                        == "Daily loss limit reached (realized P&L: "@ + t@ + ")"@,
                RiskReject::PositionSizeExceeded { requested, limit } => exists|
                    t1: String,
                    t2: String,
                |
                    #[trigger] render.ensures((&requested, None::<usize>), t1)
                        && #[trigger] render.ensures((&limit, None::<usize>), t2) && m@
                        == "Maximum position size exceeded (requested: "@ + t1@ + ", limit: "@
                        + t2@ + ")"@,
                RiskReject::MaxOpenPositions { count, limit } => m@
                    == "Maximum open positions reached ("@ + decimal(count as nat) + "/"@
                    + decimal(limit as nat) + ")"@,
                RiskReject::TradingBlocked => m@ == "Trading blocked by account or system state"@,
                RiskReject::DuplicateOrder { symbol, side } => m@
                    == "Duplicate order: already have an active "@ + side@ + " position in "@
                    + symbol@,
            },
    {
        let mut m = String::new();
        match self {
            RiskReject::DailyLossLimitReached { realized_pl } => {
                let t = render(realized_pl, Some(2));
                m.append("Daily loss limit reached (realized P&L: ");
                m.append(t.as_str());
                m.append(")");
            },
            RiskReject::PositionSizeExceeded { requested, limit } => {
                let t1 = render(requested, None);
                let t2 = render(limit, None);
                m.append("Maximum position size exceeded (requested: ");
                m.append(t1.as_str());
                m.append(", limit: ");
                m.append(t2.as_str());
                m.append(")");
            },
            RiskReject::MaxOpenPositions { count, limit } => {
                m.append("Maximum open positions reached (");
                push_decimal(&mut m, *count as u64);
                m.append("/");
                push_decimal(&mut m, *limit as u64);
                m.append(")");
            },
            RiskReject::TradingBlocked => {
                m.append("Trading blocked by account or system state");
            },
            RiskReject::DuplicateOrder { symbol, side } => {
                m.append("Duplicate order: already have an active ");
                m.append(side.as_str());
                m.append(" position in ");
                m.append(symbol.as_str());
            },
        }
        m
    }
}

/// An order approved by the risk manager.
#[derive(Debug)]
pub struct ApprovedOrder<A> {
    pub symbol: String,
    pub signal: Signal,
    /// Number of shares to buy or sell after position sizing.
    pub qty: A,
}

/// The risk manager: its limits and the day's realized P&L.
pub struct RiskManager<A> {
    pub config: RiskConfig<A>,
    /// Running total of realized P&L for today.
    pub daily_realized_pl: A,
}

/// Whether `r` is the answer of `a <= b` for the amount type.
pub open spec fn at_or_below<A: PartialOrd>(a: A, b: A, r: bool) -> bool {
    call_ensures(A::le, (&a, &b), r)
}

/// The result of `evaluate` for the decision `d` of the checks.
pub open spec fn evaluation<A>(
    d: RiskDecision,
    symbol: Seq<char>,
    signal: Signal,
    approved_qty: A,
    hold_qty: A,
    realized_pl: A,
    r: Result<ApprovedOrder<A>, RiskReject<A>>,
) -> bool {
    match d {
        RiskDecision::PassHold => r matches Ok(o) && o.symbol@ == symbol && o.signal == signal
            && o.qty == hold_qty,
        RiskDecision::Approved => r matches Ok(o) && o.symbol@ == symbol && o.signal == signal
            && o.qty == approved_qty,
        RiskDecision::TradingBlocked => r == Err::<ApprovedOrder<A>, RiskReject<A>>(
            RiskReject::TradingBlocked,
        ),
        RiskDecision::DailyLossLimitReached => r == Err::<ApprovedOrder<A>, RiskReject<A>>(
            RiskReject::DailyLossLimitReached { realized_pl },
        ),
        RiskDecision::MaxOpenPositions { count, limit } => r == Err::<
            ApprovedOrder<A>,
            RiskReject<A>,
        >(RiskReject::MaxOpenPositions { count, limit }),
        RiskDecision::DuplicateOrder => r matches Err(RiskReject::DuplicateOrder { symbol: s, side })
            && s@ == symbol && side@ == "buy"@,
    }
}

impl<A: Copy + Default + PartialOrd> RiskManager<A> {
    /// A risk manager with the given limits and no realized P&L yet (the
    /// amount type's default).
    pub fn new(config: RiskConfig<A>) -> (m: Self)
        ensures
            m.config == config,
            call_ensures(A::default, (), m.daily_realized_pl),
    {
        RiskManager { config, daily_realized_pl: A::default() }
    }

    /// Evaluates a strategy signal: a HOLD passes with the default quantity
    /// (it is never executed); a BUY or SELL is approved at the configured
    /// position size unless a check rejects it, the first failing check
    /// deciding the rejection. The daily loss limit is reached when the
    /// realized P&L is at or below it.
    pub fn evaluate(&self, symbol: &str, signal: Signal, open_positions: &[Position<A>]) -> (r:
        Result<ApprovedOrder<A>, RiskReject<A>>)
        ensures
            exists|reached: bool, hold_qty: A|
                {
                    &&& signal != Signal::Hold && self.config.trading_enabled ==> at_or_below(
                        self.daily_realized_pl,
                        self.config.daily_loss_limit,
                        reached,
                    )
                    &&& signal == Signal::Hold ==> call_ensures(A::default, (), hold_qty)
                    &&& evaluation(
                        risk_decision(self.config, reached, symbol@, signal, open_positions@),
                        symbol@,
                        signal,
                        self.config.max_position_size,
                        hold_qty,
                        self.daily_realized_pl,
                        r,
                    )
                },
    {
        if signal == Signal::Hold {
            let hold_qty = A::default();
            let r = Ok(ApprovedOrder { symbol: symbol.to_owned(), signal, qty: hold_qty });
            assert(call_ensures(A::default, (), hold_qty));
            assert(evaluation(
                risk_decision(self.config, false, symbol@, signal, open_positions@),
                symbol@,
                signal,
                self.config.max_position_size,
                hold_qty,
                self.daily_realized_pl,
                r,
            ));
            return r;
        }
        let reached = if self.config.trading_enabled {
            let below = self.daily_realized_pl.le(&self.config.daily_loss_limit);
            assert(call_ensures(A::le, (&self.daily_realized_pl, &self.config.daily_loss_limit), below));
            below
        } else {
            false
        };
        let r = match assess(&self.config, reached, symbol, signal, open_positions) {
            RiskDecision::PassHold | RiskDecision::Approved => Ok(
                ApprovedOrder { symbol: symbol.to_owned(), signal, qty: self.config.max_position_size },
            ),
            RiskDecision::TradingBlocked => Err(RiskReject::TradingBlocked),
            RiskDecision::DailyLossLimitReached => Err(
                RiskReject::DailyLossLimitReached { realized_pl: self.daily_realized_pl },
            ),
            RiskDecision::MaxOpenPositions { count, limit } => Err(
                RiskReject::MaxOpenPositions { count, limit },
            ),
            RiskDecision::DuplicateOrder => Err(
                RiskReject::DuplicateOrder { symbol: symbol.to_owned(), side: "buy".to_owned() },
            ),
        };
        assert(evaluation(
            risk_decision(self.config, reached, symbol@, signal, open_positions@),
            symbol@,
            signal,
            self.config.max_position_size,
            self.config.max_position_size,
            self.daily_realized_pl,
            r,
        ));
        r
    }
}

/// The outcome of `evaluate` for a BUY or SELL, check by check. `reached` is
/// the answer of the amount type's `<=` on the realized P&L and the loss
/// limit, as `evaluate` states it. The signal is approved exactly when
/// trading is enabled, the limit is not reached, fewer positions than allowed
/// are open and a BUY is not for a symbol already held; an approval carries
/// the configured position size. Otherwise the first failing check decides the
/// rejection: trading blocked, then the loss limit (with the realized P&L),
/// then the open-position limit (with the count and the limit), then a
/// duplicate BUY.
pub proof fn lemma_evaluate_outcome<A: PartialOrd>(
    m: RiskManager<A>,
    symbol: Seq<char>,
    signal: Signal,
    positions: Seq<Position<A>>,
    reached: bool,
    hold_qty: A,
    r: Result<ApprovedOrder<A>, RiskReject<A>>,
)
    requires
        signal != Signal::Hold,
        m.config.trading_enabled ==> at_or_below(
            m.daily_realized_pl,
            m.config.daily_loss_limit,
            reached,
        ),
        evaluation(
            risk_decision(m.config, reached, symbol, signal, positions),
            symbol,
            signal,
            m.config.max_position_size,
            hold_qty,
            m.daily_realized_pl,
            r,
        ),
    ensures
        r is Ok <==> {
            &&& m.config.trading_enabled
            &&& !reached
            &&& positions.len() < m.config.max_open_positions
            &&& !(signal == Signal::Buy && holds_symbol(positions, symbol))
        },
        r matches Ok(o) ==> o.symbol@ == symbol && o.signal == signal && o.qty
            == m.config.max_position_size,
        !m.config.trading_enabled ==> r == Err::<ApprovedOrder<A>, RiskReject<A>>(
            RiskReject::TradingBlocked,
        ),
        m.config.trading_enabled && reached ==> r == Err::<ApprovedOrder<A>, RiskReject<A>>(
            RiskReject::DailyLossLimitReached { realized_pl: m.daily_realized_pl },
        ),
        m.config.trading_enabled && !reached && positions.len() >= m.config.max_open_positions
            ==> r == Err::<ApprovedOrder<A>, RiskReject<A>>(
            RiskReject::MaxOpenPositions {
                count: positions.len() as usize,
                limit: m.config.max_open_positions,
            },
        ),
        m.config.trading_enabled && !reached && positions.len() < m.config.max_open_positions
            && signal == Signal::Buy && holds_symbol(positions, symbol) ==> (r matches Err(
            RiskReject::DuplicateOrder { symbol: s, side },
        ) && s@ == symbol && side@ == "buy"@),
{
}

/// A HOLD always passes, whatever the limits and positions.
pub proof fn lemma_hold_always_passes<A, N>(
    config: RiskConfig<A>,
    at_daily_loss_limit: bool,
    symbol: Seq<char>,
    positions: Seq<Position<N>>,
)
    ensures
        risk_decision(config, at_daily_loss_limit, symbol, Signal::Hold, positions)
            == RiskDecision::PassHold,
{
}

/// What an approval guarantees: trading is enabled, the loss limit is not
/// reached, there is room for another position, and a BUY is not for a symbol
/// already held. Disabled trading or a reached loss limit reject every
/// BUY and SELL.
pub proof fn lemma_approval_requires_all_checks<A, N>(
    config: RiskConfig<A>,
    at_daily_loss_limit: bool,
    symbol: Seq<char>,
    signal: Signal,
    positions: Seq<Position<N>>,
)
    ensures
        risk_decision(config, at_daily_loss_limit, symbol, signal, positions)
            == RiskDecision::Approved <==> {
            &&& signal != Signal::Hold
            &&& config.trading_enabled
            &&& !at_daily_loss_limit
            &&& positions.len() < config.max_open_positions
            &&& !(signal == Signal::Buy && holds_symbol(positions, symbol))
        },
        signal != Signal::Hold && !config.trading_enabled ==> risk_decision(
            config,
            at_daily_loss_limit,
            symbol,
            signal,
            positions,
        ) == RiskDecision::TradingBlocked,
        signal != Signal::Hold && config.trading_enabled && at_daily_loss_limit ==> risk_decision(
            config,
            at_daily_loss_limit,
            symbol,
            signal,
            positions,
        ) == RiskDecision::DailyLossLimitReached,
{
}

/// Duplicate protection: while a position in `symbol` is open, no BUY of
/// `symbol` is approved, whatever the other limits say.
pub proof fn lemma_held_symbol_blocks_buy<A, N>(
    config: RiskConfig<A>,
    at_daily_loss_limit: bool,
    symbol: Seq<char>,
    positions: Seq<Position<N>>,
    held_at: int,
)
    requires
        0 <= held_at < positions.len(),
        positions[held_at].symbol@ == symbol,
    ensures
        risk_decision(config, at_daily_loss_limit, symbol, Signal::Buy, positions)
            != RiskDecision::Approved,
{
    assert(holds_symbol(positions, symbol));
}

/// More exposure never helps a signal through: if a signal is approved with
/// one more open position, it is approved without it.
pub proof fn lemma_fewer_positions_keep_approval<A, N>(
    config: RiskConfig<A>,
    at_daily_loss_limit: bool,
    symbol: Seq<char>,
    signal: Signal,
    positions: Seq<Position<N>>,
    extra: Position<N>,
)
    requires
        risk_decision(config, at_daily_loss_limit, symbol, signal, positions.push(extra))
            == RiskDecision::Approved,
    ensures
        risk_decision(config, at_daily_loss_limit, symbol, signal, positions)
            == RiskDecision::Approved,
{
    if holds_symbol(positions, symbol) {
        let i = choose|i: int| 0 <= i < positions.len() && (#[trigger] positions[i]).symbol@ == symbol;
        assert(positions.push(extra)[i] == positions[i]);
    }
}

} // verus!
