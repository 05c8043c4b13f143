//! Trade-update events from the broker's trading stream, and what each one
//! means for the order book and the positions.

use vstd::prelude::*;
use crate::execution::order_manager::OrderStatus;
use crate::strategy::Signal;
use crate::text::{eq_ignore_ascii_case, eq_ignore_ascii_case_spec, same_text};

verus! {

/// An order event received from the trading stream. The order id is the
/// broker's UUID as a 128-bit value; quantities and prices are of the
/// caller's numeric type.
pub struct OrderEvent<Q> {
    pub order_id: u128,
    pub event: String,
    pub symbol: Option<String>,
    pub side: Option<String>,
    pub filled_qty: Q,
    pub filled_avg_price: Q,
}

/// The order status that an event name stands for; `filled_units` is the
/// whole number of units filled so far, recorded by a partial fill.
pub open spec fn status_for_event_spec(event: Seq<char>, filled_units: u64) -> OrderStatus {
    if event == "new"@ || event == "accepted"@ {
        OrderStatus::Accepted
    } else if event == "fill"@ {
        OrderStatus::Filled
    } else if event == "partial_fill"@ {
        OrderStatus::PartiallyFilled { filled_qty: filled_units }
    } else if event == "canceled"@ || event == "expired"@ {
        OrderStatus::Canceled
    } else if event == "rejected"@ {
        OrderStatus::Rejected
    } else {
        OrderStatus::Pending
    }
}

/// Maps an event name to the status it gives the order.
pub fn status_for_event(event: &str, filled_units: u64) -> (s: OrderStatus)
    ensures
        s == status_for_event_spec(event@, filled_units),
{
    if same_text(event, "new") || same_text(event, "accepted") {
        OrderStatus::Accepted
    } else if same_text(event, "fill") {
        OrderStatus::Filled
    } else if same_text(event, "partial_fill") {
        OrderStatus::PartiallyFilled { filled_qty: filled_units }
    } else if same_text(event, "canceled") || same_text(event, "expired") {
        OrderStatus::Canceled
    } else if same_text(event, "rejected") {
        OrderStatus::Rejected
    } else {
        OrderStatus::Pending
    }
}

/// Whether the event reports a (full or partial) fill.
pub open spec fn is_fill_event_spec(event: Seq<char>) -> bool {
    event == "fill"@ || event == "partial_fill"@
}

/// Whether the event reports a (full or partial) fill.
pub fn is_fill_event(event: &str) -> (r: bool)
    ensures
        r == is_fill_event_spec(event@),
{
    same_text(event, "fill") || same_text(event, "partial_fill")
}

/// The direction of a fill: "buy" in any ASCII case is a BUY, anything else
/// a SELL.
pub open spec fn fill_direction_spec(side: Seq<char>) -> Signal {
    if eq_ignore_ascii_case_spec(side, "buy"@) {
        Signal::Buy
    } else {
        Signal::Sell
    }
}

/// The direction of a fill from the side the broker reports.
pub fn fill_direction(side: &str) -> (s: Signal)
    ensures
        s == fill_direction_spec(side@),
{
    if eq_ignore_ascii_case(side, "buy") {
        Signal::Buy
    } else {
        Signal::Sell
    }
}

/// The symbol and direction that a fill event changes the position of: only
/// fill events that carry both a symbol and a side change a position.
pub fn fill_target<Q>(event: &OrderEvent<Q>) -> (r: Option<(String, Signal)>)
    ensures
        r is Some <==> (is_fill_event_spec(event.event@) && event.symbol is Some
            && event.side is Some),
        r matches Some((symbol, direction)) ==> symbol@ == event.symbol->0@ && direction
            == fill_direction_spec(event.side->0@),
{
    if !is_fill_event(event.event.as_str()) {
        return None;
    }
    match (&event.symbol, &event.side) {
        (Some(symbol), Some(side)) => Some((symbol.clone(), fill_direction(side.as_str()))),
        _ => None,
    }
}

} // verus!
