//! The broker's account record.

use vstd::prelude::*;

verus! {

/// Account information as the broker reports it; amounts are kept as the
/// decimal strings the broker sends.
pub struct AlpacaAccount {
    pub id: String,
    pub account_number: String,
    pub status: String,
    pub currency: String,
    pub cash: String,
    pub portfolio_value: String,
    pub pattern_day_trader: bool,
    pub trading_blocked: bool,
    pub transfers_blocked: bool,
    pub account_blocked: bool,
    pub buying_power: String,
    pub long_market_value: String,
    pub short_market_value: String,
    pub equity: String,
    pub last_equity: String,
    pub multiplier: String,
    pub daytrade_count: i64,
    pub daytrading_buying_power: String,
    pub regt_buying_power: String,
}

} // verus!
