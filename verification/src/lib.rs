//! Verified core of an event-driven trading bot: market data types, strategy
//! signal logic, risk checks, order and position bookkeeping, and the
//! decisions that drive the broker streams.
//!
//! Prices and amounts never appear as floating-point values here: the types
//! that carry them are generic over the numeric type, and the arithmetic on
//! them is done by the caller. What is verified is every decision that can be
//! taken on plain values.

pub mod market;
pub mod strategy;
pub mod risk;
pub mod text;
pub mod execution;
pub mod alpaca;
pub mod config;
pub mod backtest;
