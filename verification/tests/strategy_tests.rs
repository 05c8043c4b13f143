//! Strategy behaviour on simulated bars.
//!
//! The library's strategies take the indicator readings from a closure. The
//! application's EMA and RSI live outside the library, where tests cannot
//! reach them, so this file carries its own copies of `ema` and `rsi` to
//! produce the readings: these tests exercise the library's decisions on
//! those readings, not the application's indicator code.

use trading_bot::market::types::Bar;
use trading_bot::strategy::ema_crossover::EmaCrossover;
use trading_bot::strategy::ema_rsi::{EmaRsiStrategy, RsiBands};
use trading_bot::strategy::Signal;

fn ema(prices: &[f64], period: usize) -> Option<f64> {
    if prices.len() < period || period == 0 {
        return None;
    }
    let k = 2.0 / (period as f64 + 1.0);
    let seed: f64 = prices[..period].iter().sum::<f64>() / period as f64;
    Some(prices[period..].iter().fold(seed, |prev, &price| price * k + prev * (1.0 - k)))
}

fn rsi(prices: &[f64], period: usize) -> Option<f64> {
    if prices.len() <= period || period == 0 {
        return None;
    }
    let mut gains = 0.0;
    let mut losses = 0.0;
    for i in 1..=period {
        let diff = prices[i] - prices[i - 1];
        if diff >= 0.0 {
            gains += diff;
        } else {
            losses += diff.abs();
        }
    }
    let mut avg_gain = gains / period as f64;
    let mut avg_loss = losses / period as f64;
    for i in (period + 1)..prices.len() {
        let diff = prices[i] - prices[i - 1];
        let (gain, loss) = if diff >= 0.0 { (diff, 0.0) } else { (0.0, diff.abs()) };
        avg_gain = (avg_gain * (period as f64 - 1.0) + gain) / period as f64;
        avg_loss = (avg_loss * (period as f64 - 1.0) + loss) / period as f64;
    }
    if avg_loss == 0.0 {
        return Some(if avg_gain == 0.0 { 50.0 } else { 100.0 });
    }
    Some(100.0 - (100.0 / (1.0 + avg_gain / avg_loss)))
}

fn short_above(prices: &Vec<f64>, short: usize, long: usize) -> bool {
    match (ema(prices, short), ema(prices, long)) {
        (Some(s), Some(l)) => s > l,
        _ => false,
    }
}

fn ema_rsi_reading(prices: &Vec<f64>, short: usize, long: usize, rsi_period: usize) -> (bool, RsiBands) {
    let r = rsi(prices, rsi_period).unwrap_or(50.0);
    (
        short_above(prices, short, long),
        RsiBands {
            overbought: r >= 80.0,
            confirms_buy: (40.0..=70.0).contains(&r),
            confirms_sell: (30.0..=60.0).contains(&r),
        },
    )
}

fn bar(symbol: &str, close: f64) -> Bar<f64> {
    Bar {
        symbol: symbol.into(),
        open: close,
        high: close,
        low: close,
        close,
        volume: 1000,
        timestamp: "2024-01-01T09:30:00Z".into(),
    }
}

fn crossover(symbol: &str, short: usize, long: usize) -> EmaCrossover<f64> {
    EmaCrossover::new(symbol.to_string(), short, long)
}

#[test]
fn hold_until_enough_data() {
    let mut strat = crossover("AAPL", 5, 10);
    for _ in 0..9 {
        assert_eq!(strat.on_bar(&bar("AAPL", 100.0), &short_above), Signal::Hold);
    }
}

#[test]
fn ignores_other_symbols() {
    let mut strat = crossover("AAPL", 5, 10);
    for i in 0..20 {
        let signal = strat.on_bar(&bar("MSFT", i as f64 * 10.0), &short_above);
        assert_eq!(signal, Signal::Hold, "Should ignore MSFT bars");
    }
    assert!(strat.prices().is_empty());
}

#[test]
fn buy_signal_on_crossover() {
    let mut strat = crossover("AAPL", 5, 10);
    let flat = vec![100.0_f64; 20];
    for p in &flat {
        strat.on_bar(&bar("AAPL", *p), &short_above);
    }
    let signals: Vec<Signal> =
        (0..30).map(|i| strat.on_bar(&bar("AAPL", 200.0 + i as f64 * 10.0), &short_above)).collect();
    assert!(signals.contains(&Signal::Buy), "Expected at least one BUY signal on crossover");
}

#[test]
fn sell_signal_on_crossover() {
    let mut strat = crossover("AAPL", 5, 10);
    for i in 0..30 {
        strat.on_bar(&bar("AAPL", 200.0 + i as f64 * 10.0), &short_above);
    }
    let signals: Vec<Signal> =
        (0..30).map(|i| strat.on_bar(&bar("AAPL", 500.0 - i as f64 * 20.0), &short_above)).collect();
    assert!(signals.contains(&Signal::Sell), "Expected at least one SELL signal on downward crossover");
}

#[test]
fn strategy_produces_buy_on_uptrend() {
    let mut strat = crossover("AAPL", 5, 10);
    for _ in 0..20 {
        strat.on_bar(&bar("AAPL", 100.0), &short_above);
    }
    let signals: Vec<Signal> =
        (0..40).map(|i| strat.on_bar(&bar("AAPL", 200.0 + i as f64 * 5.0), &short_above)).collect();
    assert!(signals.contains(&Signal::Buy));
}

#[test]
fn strategy_hold_before_enough_data() {
    let mut strat = crossover("AAPL", 5, 10);
    for i in 0..9 {
        assert_eq!(strat.on_bar(&bar("AAPL", i as f64 * 10.0), &short_above), Signal::Hold);
    }
}

#[test]
fn holds_when_insufficient_data() {
    let mut strat: EmaRsiStrategy<f64> = EmaRsiStrategy::new("AAPL".to_string(), 5, 10, 14);
    for _ in 0..14 {
        assert_eq!(strat.on_bar(&bar("AAPL", 100.0), &ema_rsi_reading), Signal::Hold);
    }
}

#[test]
fn crossover_signals_alternate_on_zigzag() {
    let mut strat = crossover("AAPL", 2, 4);
    let mut non_hold = Vec::new();
    for round in 0..6 {
        let base = if round % 2 == 0 { 100.0 } else { 300.0 };
        for _ in 0..8 {
            let s = strat.on_bar(&bar("AAPL", base), &short_above);
            if s != Signal::Hold {
                non_hold.push(s);
            }
        }
    }
    assert!(non_hold.len() >= 2);
    for pair in non_hold.windows(2) {
        assert_ne!(pair[0], pair[1]);
    }
}

#[test]
fn window_keeps_three_long_periods() {
    let mut strat = crossover("AAPL", 2, 4);
    for i in 0..50 {
        strat.on_bar(&bar("AAPL", i as f64), &short_above);
    }
    assert_eq!(strat.prices().len(), 12);
    assert_eq!(strat.prices()[0], 38.0);
    assert_eq!(strat.prices()[11], 49.0);
}

#[test]
fn trend_reading_drives_crossover() {
    let mut strat = crossover("AAPL", 2, 4);
    assert_eq!(strat.on_trend(false), Signal::Hold);
    assert_eq!(strat.on_trend(true), Signal::Buy);
    assert_eq!(strat.on_trend(true), Signal::Hold);
    assert_eq!(strat.on_trend(false), Signal::Sell);
    assert_eq!(strat.on_trend(false), Signal::Hold);
}

#[test]
fn ema_rsi_filters_and_takes_profit() {
    let bands = |overbought, confirms_buy, confirms_sell| RsiBands { overbought, confirms_buy, confirms_sell };
    let mut strat: EmaRsiStrategy<f64> = EmaRsiStrategy::new("AAPL".to_string(), 2, 4, 3);
    assert_eq!(strat.on_indicators(false, bands(false, true, true)), Signal::Hold);
    // Upward crossover without RSI confirmation is held back.
    assert_eq!(strat.on_indicators(true, bands(false, false, false)), Signal::Hold);
    // Overbought while above: take profit.
    assert_eq!(strat.on_indicators(true, bands(true, false, false)), Signal::Sell);
    assert_eq!(strat.on_indicators(false, bands(false, false, true)), Signal::Sell);
    assert_eq!(strat.on_indicators(true, bands(false, true, false)), Signal::Buy);
}

#[test]
fn ema_rsi_overbought_sells_whatever_the_trend() {
    let bands = |overbought, confirms_buy, confirms_sell| RsiBands { overbought, confirms_buy, confirms_sell };
    // No previous reading at all.
    let mut fresh: EmaRsiStrategy<f64> = EmaRsiStrategy::new("AAPL".to_string(), 2, 4, 3);
    assert_eq!(fresh.on_indicators(false, bands(true, false, false)), Signal::Sell);
    // After a falling reading.
    let mut falling: EmaRsiStrategy<f64> = EmaRsiStrategy::new("AAPL".to_string(), 2, 4, 3);
    assert_eq!(falling.on_indicators(false, bands(false, false, false)), Signal::Hold);
    assert_eq!(falling.on_indicators(false, bands(true, false, false)), Signal::Sell);
    // An upward crossover while overbought is a take-profit, not a buy.
    assert_eq!(falling.on_indicators(false, bands(false, false, false)), Signal::Hold);
    assert_eq!(falling.on_indicators(true, bands(true, true, false)), Signal::Sell);
}

#[test]
fn ema_rsi_sells_on_steep_rally_from_flat() {
    // A steady climb drives the RSI to 100 once enough closes are in.
    let mut strat: EmaRsiStrategy<f64> = EmaRsiStrategy::new("AAPL".to_string(), 5, 10, 14);
    let signals: Vec<Signal> =
        (0..20).map(|i| strat.on_bar(&bar("AAPL", 100.0 + i as f64), &ema_rsi_reading)).collect();
    assert!(signals[..14].iter().all(|s| *s == Signal::Hold));
    assert_eq!(signals[14], Signal::Sell);
}
