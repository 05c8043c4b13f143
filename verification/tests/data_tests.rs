use trading_bot::backtest::data::{record_fields, synthetic_timestamp, trim_text};
use trading_bot::backtest::engine::{trade_action, TradeAction, TradeOutcome, TradeTally};
use trading_bot::config::{Config, ConfigError, Settings};
use trading_bot::market::universe::{get_instrument, AssetClass, Instrument};
use trading_bot::strategy::Signal;

#[test]
fn csv_header_and_short_lines_are_skipped() {
    assert!(record_fields(0, "symbol,open,high,low,close,volume,timestamp").is_none());
    assert!(record_fields(0, "SYMBOL,Open,High,Low,Close,Volume,Timestamp").is_none());
    assert!(record_fields(3, "AAPL,1,2,3").is_none());
    assert!(record_fields(3, "").is_none());
    // "symbol" on a later line is not a header.
    let later = record_fields(1, "symbol,1,2,3,4,5,t").unwrap();
    assert_eq!(later[0], "symbol");
}

#[test]
fn csv_fields_are_split_and_trimmed() {
    let f = record_fields(0, " AAPL , 100.5,105,99 ,103.5, 50000 ,2024-01-15T09:30:00Z ").unwrap();
    assert_eq!(
        f,
        vec!["AAPL", "100.5", "105", "99", "103.5", "50000", "2024-01-15T09:30:00Z"]
            .into_iter()
            .map(String::from)
            .collect::<Vec<_>>()
    );
    let extra = record_fields(5, "A,,2,3,4,5,6,7").unwrap();
    assert_eq!(extra.len(), 8);
    assert_eq!(extra[1], "");
}

#[test]
fn synthetic_clock() {
    assert_eq!(synthetic_timestamp(0), "2024-01-01T00:00:00Z");
    assert_eq!(synthetic_timestamp(61), "2024-01-01T01:01:00Z");
    assert_eq!(synthetic_timestamp(599), "2024-01-01T09:59:00Z");
    assert_eq!(synthetic_timestamp(24 * 60 + 5), "2024-01-01T00:05:00Z");
}

#[test]
fn backtest_trades_one_position_at_a_time() {
    assert_eq!(trade_action(Signal::Buy, false, true), TradeAction::Open);
    assert_eq!(trade_action(Signal::Buy, false, false), TradeAction::Stay);
    assert_eq!(trade_action(Signal::Buy, true, true), TradeAction::Stay);
    assert_eq!(trade_action(Signal::Sell, true, false), TradeAction::Close);
    assert_eq!(trade_action(Signal::Sell, false, true), TradeAction::Stay);
    assert_eq!(trade_action(Signal::Hold, true, true), TradeAction::Stay);
    let mut tally = TradeTally::new();
    tally.record(TradeOutcome::Win);
    tally.record(TradeOutcome::Loss);
    tally.record(TradeOutcome::Flat);
    tally.record(TradeOutcome::Win);
    assert_eq!((tally.total_trades, tally.winning_trades, tally.losing_trades), (4, 2, 1));
}

fn settings(key: Option<&str>, secret: Option<&str>, base: Option<&str>, paper: Option<&str>) -> Settings {
    Settings {
        alpaca_key: key.map(String::from),
        alpaca_secret: secret.map(String::from),
        alpaca_base_url: base.map(String::from),
        alpaca_data_ws: None,
        alpaca_trading_ws: None,
        use_paper: paper.map(String::from),
        database_url: None,
    }
}

#[test]
fn default_is_paper() {
    let c = Config::from_settings(settings(Some("k"), Some("s"), None, None)).unwrap();
    assert!(c.use_paper, "Default must be paper trading");
    assert_eq!(c.base_url, "https://paper-api.alpaca.markets");
    assert_eq!(c.data_ws_url, "wss://stream.data.alpaca.markets/v2/iex");
    assert_eq!(c.trading_ws_url, "wss://paper-api.alpaca.markets/stream");
    assert_eq!(c.database_url, "sqlite://./trading_bot.db");
    assert_eq!(c.api_key, "k");
    assert_eq!(c.api_secret, "s");
}

#[test]
fn config_errors() {
    assert_eq!(Config::from_settings(settings(None, Some("s"), None, None)).unwrap_err(), ConfigError::MissingApiKey);
    assert_eq!(Config::from_settings(settings(Some("k"), None, None, None)).unwrap_err(), ConfigError::MissingApiSecret);
    assert_eq!(
        Config::from_settings(settings(Some("k"), Some("s"), None, Some("false"))).unwrap_err(),
        ConfigError::LiveModeWithPaperUrl
    );
    let live = Config::from_settings(settings(Some("k"), Some("s"), Some("https://api.alpaca.markets"), Some("no"))).unwrap();
    assert!(!live.use_paper);
    assert!(Config::from_settings(settings(Some("k"), Some("s"), None, Some("1"))).unwrap().use_paper);
    assert!(!Config::from_settings(settings(Some("k"), Some("s"), Some("x"), Some("TRUE"))).unwrap().use_paper);
}

#[test]
fn instrument_lookup_returns_first_match() {
    let universe = [
        Instrument { symbol: "BTC/USD", name: "Bitcoin", asset_class: AssetClass::Crypto, exchange: "X", is_fractional: true, min_lot_size: 0.0001 },
        Instrument { symbol: "7203.T", name: "Toyota", asset_class: AssetClass::JapaneseEquity, exchange: "TSE", is_fractional: false, min_lot_size: 100.0 },
        Instrument { symbol: "7203.T", name: "Dup", asset_class: AssetClass::Future, exchange: "Y", is_fractional: false, min_lot_size: 1.0 },
    ];
    let btc = get_instrument(&universe, "BTC/USD").unwrap();
    assert_eq!(btc.asset_class, AssetClass::Crypto);
    assert!(btc.is_fractional);
    assert_eq!(get_instrument(&universe, "7203.T").unwrap().name, "Toyota");
    assert!(get_instrument(&universe, "AAPL").is_none());
}

#[test]
fn trimming_matches_unicode_white_space() {
    for s in [
        "",
        "   ",
        "abc",
        "  a b  ",
        "\t\n x \r\u{0B}\u{0C}",
        "\u{00A0}\u{3000}AAPL\u{2028}\u{205F}",
        "\u{1680}\u{2000}\u{200A}\u{2029}\u{202F}\u{0085} y",
        "\u{200B}zero-width\u{200B}",
        "\u{FEFF}bom",
    ] {
        assert_eq!(trim_text(s), s.trim(), "trimming {:?}", s);
    }
    let f = record_fields(2, "\u{3000}AAPL\u{00A0},1,2,3,4,5,t").unwrap();
    assert_eq!(f[0], "AAPL");
}
