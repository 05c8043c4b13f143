//! Order requests in the broker's terms, and how an approved signal becomes
//! one.

use vstd::prelude::*;
use crate::strategy::Signal;
use crate::text::{decimal, push_decimal};

verus! {

/// Direction of an order.
#[derive(Debug, Clone, Copy, PartialEq, Eq, Structural)]
pub enum OrderSide {
    Buy,
    Sell,
}

/// Order type.
#[derive(Debug, Clone, Copy, PartialEq, Eq, Structural)]
pub enum OrderType {
    Market,
    Limit,
    Stop,
    StopLimit,
}

/// How long an order stays working.
#[derive(Debug, Clone, Copy, PartialEq, Eq, Structural)]
pub enum TimeInForce {
    Day,
    Gtc,
    Opg,
    Ioc,
    Fok,
}

/// A new-order request. Quantities and prices are the decimal strings the
/// broker expects.
pub struct OrderRequest {
    pub symbol: String,
    pub qty: String,
    pub side: OrderSide,
    pub order_type: OrderType,
    pub time_in_force: TimeInForce,
    pub limit_price: Option<String>,
    pub stop_price: Option<String>,
    pub client_order_id: Option<String>,
}

/// The prefix of the client order ids this bot assigns.
pub open spec fn client_id_prefix() -> Seq<char> {
    seq!['t', 'b', 'o', 't', '-']
}

/// The client order id built from a unique token: `tbot-<token>`.
pub fn client_order_id(token: &str) -> (id: String)
    ensures
        id@ == client_id_prefix() + token@,
{
    proof {
        reveal_strlit("tbot-");
    }
    let mut id = String::new();
    id.append("tbot-");
    id.append(token);
    id
}

/// The order side that executes `signal`; a HOLD has none.
pub open spec fn side_for_signal(signal: Signal) -> Option<OrderSide> {
    match signal {
        Signal::Buy => Some(OrderSide::Buy),
        Signal::Sell => Some(OrderSide::Sell),
        Signal::Hold => None,
    }
}

/// The market day order that executes an approved `signal` for `qty` whole
/// units of `symbol`, identified by `tbot-<token>`. A HOLD produces no order.
pub fn market_order_request(symbol: &str, signal: Signal, qty: u64, token: &str) -> (r: Option<
    OrderRequest,
>)
    ensures
        r is None <==> signal == Signal::Hold,
        r matches Some(req) ==> {
            &&& req.symbol@ == symbol@
            &&& req.qty@ == decimal(qty as nat)
            &&& Some(req.side) == side_for_signal(signal)
            &&& req.order_type == OrderType::Market
            &&& req.time_in_force == TimeInForce::Day
            &&& req.limit_price is None
            &&& req.stop_price is None
            &&& req.client_order_id matches Some(id) && id@ == client_id_prefix() + token@
        },
{
    let side = match signal {
        Signal::Buy => OrderSide::Buy,
        Signal::Sell => OrderSide::Sell,
        Signal::Hold => {
            return None;
        },
    };
    let mut qty_text = String::new();
    push_decimal(&mut qty_text, qty);
    assert(qty_text@ =~= decimal(qty as nat));
    Some(
        OrderRequest {
            symbol: symbol.to_owned(),
            qty: qty_text,
            side,
            order_type: OrderType::Market,
            time_in_force: TimeInForce::Day,
            limit_price: None,
            stop_price: None,
            client_order_id: Some(client_order_id(token)),
        },
    )
}

/// A lower-case hexadecimal digit.
pub open spec fn is_lower_hex_digit(c: char) -> bool {
    ('0' <= c && c <= '9') || ('a' <= c && c <= 'f')
}

/// The hyphenated lower-case text of a version-4 UUID: 32 hexadecimal
/// digits in groups of 8-4-4-4-12, the version digit `4` opening the third
/// group and the variant digit (`8`, `9`, `a` or `b`) opening the fourth.
pub open spec fn is_uuid_v4_text(s: Seq<char>) -> bool {
    &&& s.len() == 36
    &&& forall|i: int|
        0 <= i < 36 ==> (if i == 8 || i == 13 || i == 18 || i == 23 {
            #[trigger] s[i] == '-'
        } else {
            is_lower_hex_digit(s[i])
        })
    &&& s[14] == '4'
    &&& (s[19] == '8' || s[19] == '9' || s[19] == 'a' || s[19] == 'b')
}

/// Calls `uuid::Uuid::new_v4` and renders it with `to_string`. The crate
/// masks a random 128-bit value so that the version nibble is 4 and the
/// variant bits are `10`, and its `Display` writes the hyphenated lower-case
/// form; the contract states that shape. Which UUID comes back is left open.
#[verifier::external_body]
fn random_order_token() -> (t: String)
    ensures
        is_uuid_v4_text(t@),
{
    uuid::Uuid::new_v4().to_string()
}

/// The market day order that executes an approved `signal` for `qty` whole
/// units of `symbol`, with a fresh client order id `tbot-<random UUID>`. A
/// HOLD produces no order (and draws no id).
pub fn new_market_order(symbol: &str, signal: Signal, qty: u64) -> (r: Option<OrderRequest>)
    ensures
        r is None <==> signal == Signal::Hold,
        r matches Some(req) ==> {
            &&& req.symbol@ == symbol@
            &&& req.qty@ == decimal(qty as nat)
            &&& Some(req.side) == side_for_signal(signal)
            &&& req.order_type == OrderType::Market
            &&& req.time_in_force == TimeInForce::Day
            &&& req.limit_price is None
            &&& req.stop_price is None
            &&& req.client_order_id matches Some(id) && id@.len() == 41
                && id@.subrange(0, 5) == client_id_prefix()
                && is_uuid_v4_text(id@.subrange(5, 41))
        },
{
    if signal == Signal::Hold {
        return None;
    }
    let token = random_order_token();
    let r = market_order_request(symbol, signal, qty, token.as_str());
    proof {
        if r is Some {
            let id = r->0.client_order_id->0@;
            assert(id.subrange(0, 5) =~= client_id_prefix());
            assert(id.subrange(5, 41) =~= token@);
        }
    }
    r
}

} // verus!
