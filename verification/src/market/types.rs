//! Core domain market data types.
//!
//! The numeric fields (prices, quantities, amounts) are generic: the library
//! moves them around and never computes with them.

use vstd::prelude::*;

verus! {

/// An OHLCV bar for one symbol over one time period.
pub struct Bar<P> {
    pub symbol: String,
    pub open: P,
    pub high: P,
    pub low: P,
    pub close: P,
    pub volume: u64,
    /// RFC 3339 timestamp of the bar's close.
    pub timestamp: String,
}

/// A single trade (tick).
pub struct Trade<P> {
    pub symbol: String,
    pub price: P,
    pub size: u32,
    pub timestamp: String,
}

/// A bid/ask quote.
pub struct Quote<P> {
    pub symbol: String,
    pub bid: P,
    pub bid_size: u32,
    pub ask: P,
    pub ask_size: u32,
    pub timestamp: String,
}

/// Direction of a position or order.
#[derive(Debug, Clone, Copy, PartialEq, Eq, Structural)]
pub enum Side {
    Long,
    Short,
}

/// Current position in a symbol.
pub struct Position<N> {
    pub symbol: String,
    pub side: Side,
    pub qty: N,
    pub avg_entry_price: N,
    pub market_value: N,
    pub unrealized_pl: N,
}

impl<N: Copy> Position<N> {
    /// A field-by-field copy of the position.
    pub fn duplicate(&self) -> (res: Position<N>)
        ensures
            res == *self,
    {
        Position {
            symbol: self.symbol.clone(),
            side: self.side,
            qty: self.qty,
            avg_entry_price: self.avg_entry_price,
            market_value: self.market_value,
            unrealized_pl: self.unrealized_pl,
        }
    }
}

} // verus!
