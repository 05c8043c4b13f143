use trading_bot::market::types::{Position, Side};
use trading_bot::risk::manager::{assess, RiskConfig, RiskDecision, RiskManager, RiskReject};
use trading_bot::strategy::Signal;

fn make_position(symbol: &str) -> Position<f64> {
    Position {
        symbol: symbol.into(),
        side: Side::Long,
        qty: 5.0,
        avg_entry_price: 100.0,
        market_value: 500.0,
        unrealized_pl: 0.0,
    }
}

#[test]
fn hold_always_approved() {
    let rm: RiskManager<f64> = RiskManager::new(RiskConfig::default());
    let result = rm.evaluate("AAPL", Signal::Hold, &[]);
    assert!(result.is_ok());
    assert_eq!(result.unwrap().qty, 0.0);
}

#[test]
fn buy_approved_when_no_positions() {
    let rm: RiskManager<f64> = RiskManager::new(RiskConfig::default());
    let result = rm.evaluate("AAPL", Signal::Buy, &[]);
    assert!(result.is_ok());
    assert_eq!(result.unwrap().qty, 10.0);
}

#[test]
fn trading_blocked_when_disabled() {
    let config = RiskConfig { trading_enabled: false, ..Default::default() };
    let rm: RiskManager<f64> = RiskManager::new(config);
    let result = rm.evaluate("AAPL", Signal::Buy, &[]);
    assert_eq!(result.unwrap_err(), RiskReject::TradingBlocked);
}

#[test]
fn daily_loss_limit_rejects() {
    let mut rm: RiskManager<f64> = RiskManager::new(RiskConfig::default());
    rm.daily_realized_pl = -600.0;
    let result = rm.evaluate("AAPL", Signal::Buy, &[]);
    assert!(matches!(result.unwrap_err(), RiskReject::DailyLossLimitReached { .. }));
}

#[test]
fn max_open_positions_rejects() {
    let config = RiskConfig { max_open_positions: 2, ..Default::default() };
    let rm: RiskManager<f64> = RiskManager::new(config);
    let positions = vec![make_position("AAPL"), make_position("MSFT")];
    let result = rm.evaluate("GOOG", Signal::Buy, &positions);
    assert!(matches!(result.unwrap_err(), RiskReject::MaxOpenPositions { .. }));
}

#[test]
fn duplicate_buy_rejects() {
    let rm: RiskManager<f64> = RiskManager::new(RiskConfig::default());
    let positions = vec![make_position("AAPL")];
    let result = rm.evaluate("AAPL", Signal::Buy, &positions);
    assert!(matches!(result.unwrap_err(), RiskReject::DuplicateOrder { .. }));
}

#[test]
fn risk_manager_approves_valid_buy() {
    let rm: RiskManager<f64> = RiskManager::new(RiskConfig::default());
    let result = rm.evaluate("AAPL", Signal::Buy, &[]);
    assert!(result.is_ok());
}

#[test]
fn risk_manager_rejects_when_disabled() {
    let config = RiskConfig { trading_enabled: false, ..Default::default() };
    let rm: RiskManager<f64> = RiskManager::new(config);
    assert!(rm.evaluate("AAPL", Signal::Buy, &[]).is_err());
}

#[test]
fn risk_manager_rejects_on_loss_limit() {
    let mut rm: RiskManager<f64> = RiskManager::new(RiskConfig::default());
    rm.daily_realized_pl = -1000.0;
    assert!(rm.evaluate("AAPL", Signal::Buy, &[]).is_err());
}

#[test]
fn default_risk_config_values() {
    let c: RiskConfig<f64> = RiskConfig::default();
    assert_eq!(c.max_position_size, 10.0);
    assert_eq!(c.max_open_positions, 5);
    assert_eq!(c.daily_loss_limit, -500.0);
    assert!(c.trading_enabled);
}

#[test]
fn loss_exactly_at_limit_rejects_and_just_above_passes() {
    let mut rm: RiskManager<f64> = RiskManager::new(RiskConfig::default());
    rm.daily_realized_pl = -500.0;
    assert_eq!(
        rm.evaluate("AAPL", Signal::Sell, &[]).unwrap_err(),
        RiskReject::DailyLossLimitReached { realized_pl: -500.0 }
    );
    rm.daily_realized_pl = -499.0;
    assert!(rm.evaluate("AAPL", Signal::Sell, &[]).is_ok());
}

#[test]
fn duplicate_rejection_names_symbol_and_side() {
    let rm: RiskManager<f64> = RiskManager::new(RiskConfig::default());
    let positions = vec![make_position("AAPL")];
    assert_eq!(
        rm.evaluate("AAPL", Signal::Buy, &positions).unwrap_err(),
        RiskReject::DuplicateOrder { symbol: "AAPL".to_string(), side: "buy".to_string() }
    );
    // A sell of a held symbol is not a duplicate.
    let approved = rm.evaluate("AAPL", Signal::Sell, &positions).unwrap();
    assert_eq!(approved.signal, Signal::Sell);
    assert_eq!(approved.symbol, "AAPL");
    assert_eq!(approved.qty, 10.0);
}

#[test]
fn max_open_positions_reports_count_and_limit() {
    let config = RiskConfig { max_open_positions: 1, ..Default::default() };
    let rm: RiskManager<f64> = RiskManager::new(config);
    let positions = vec![make_position("MSFT")];
    assert_eq!(
        rm.evaluate("AAPL", Signal::Sell, &positions).unwrap_err(),
        RiskReject::MaxOpenPositions { count: 1, limit: 1 }
    );
}

#[test]
fn checks_run_in_order() {
    let config: RiskConfig<f64> = RiskConfig { max_open_positions: 0, trading_enabled: false, ..Default::default() };
    assert_eq!(assess(&config, true, "AAPL", Signal::Buy, &[make_position("AAPL")]), RiskDecision::TradingBlocked);
    let config: RiskConfig<f64> = RiskConfig { max_open_positions: 0, ..Default::default() };
    assert_eq!(assess(&config, true, "AAPL", Signal::Buy, &[make_position("AAPL")]), RiskDecision::DailyLossLimitReached);
    assert_eq!(
        assess(&config, false, "AAPL", Signal::Buy, &[make_position("AAPL")]),
        RiskDecision::MaxOpenPositions { count: 1, limit: 0 }
    );
    assert_eq!(assess(&config, true, "AAPL", Signal::Hold, &[make_position("AAPL")]), RiskDecision::PassHold);
}

fn render(amount: &f64, decimals: Option<usize>) -> String {
    match decimals {
        Some(d) => format!("{:.*}", d, amount),
        None => format!("{}", amount),
    }
}

#[test]
fn rejection_messages() {
    assert_eq!(
        RiskReject::DailyLossLimitReached { realized_pl: -600.0 }.message(&render),
        "Daily loss limit reached (realized P&L: -600.00)"
    );
    assert_eq!(
        RiskReject::PositionSizeExceeded { requested: 12.5, limit: 10.0 }.message(&render),
        "Maximum position size exceeded (requested: 12.5, limit: 10)"
    );
    assert_eq!(
        RiskReject::<f64>::MaxOpenPositions { count: 5, limit: 5 }.message(&render),
        "Maximum open positions reached (5/5)"
    );
    assert_eq!(RiskReject::<f64>::TradingBlocked.message(&render), "Trading blocked by account or system state");
    assert_eq!(
        RiskReject::<f64>::DuplicateOrder { symbol: "AAPL".into(), side: "buy".into() }.message(&render),
        "Duplicate order: already have an active buy position in AAPL"
    );
}

#[test]
fn checks_run_in_order_with_integer_amounts() {
    let config = RiskConfig { max_position_size: 7i64, max_open_positions: 1, daily_loss_limit: -100i64, trading_enabled: true };
    let held = Position { symbol: "AAPL".to_string(), side: Side::Long, qty: 1i64, avg_entry_price: 1, market_value: 1, unrealized_pl: 0 };
    let mut rm = RiskManager::new(config);
    rm.daily_realized_pl = -100;
    assert_eq!(
        rm.evaluate("AAPL", Signal::Buy, &[held.duplicate()]).unwrap_err(),
        RiskReject::DailyLossLimitReached { realized_pl: -100 }
    );
    rm.daily_realized_pl = -99;
    assert_eq!(
        rm.evaluate("AAPL", Signal::Sell, &[held.duplicate()]).unwrap_err(),
        RiskReject::MaxOpenPositions { count: 1, limit: 1 }
    );
    assert_eq!(rm.evaluate("AAPL", Signal::Sell, &[]).unwrap().qty, 7);
}

#[test]
fn unordered_loss_amount_does_not_block() {
    let mut rm: RiskManager<f64> = RiskManager::new(RiskConfig::default());
    rm.daily_realized_pl = f64::NAN;
    assert_eq!(rm.evaluate("AAPL", Signal::Buy, &[]).unwrap().qty, 10.0);
}
