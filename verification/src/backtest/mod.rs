//! Backtesting: historical data records and the trading decisions of the
//! simulation engine.

pub mod data;
pub mod engine;
