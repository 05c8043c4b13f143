//! Order lifecycle state kept in memory, separate from the broker's raw
//! order type. Orders are keyed by the broker's order id (a UUID, held as
//! its 128-bit value).

use vstd::prelude::*;
use std::collections::HashMap;
use crate::risk::manager::ApprovedOrder;
use crate::strategy::Signal;

verus! {

broadcast use vstd::std_specs::hash::group_hash_axioms;

/// Internal state of a tracked order.
#[derive(Debug, Clone, Copy, PartialEq, Eq, Structural)]
pub enum OrderStatus {
    Pending,
    Submitted,
    Accepted,
    PartiallyFilled { filled_qty: u64 },
    Filled,
    Canceled,
    Expired,
    Rejected,
    Failed,
}

/// Our view of one order; quantities are of the caller's numeric type.
pub struct ManagedOrder<Q> {
    pub id: u128,
    pub client_order_id: String,
    pub symbol: String,
    pub side: Signal,
    pub requested_qty: Q,
    pub filled_qty: Q,
    pub status: OrderStatus,
}

/// All orders submitted this session, by order id.
pub struct OrderBook<Q> {
    orders: HashMap<u128, ManagedOrder<Q>>,
}

impl<Q> OrderBook<Q> {
    /// The orders by id.
    pub closed spec fn view(&self) -> Map<u128, ManagedOrder<Q>> {
        self.orders@
    }

    /// An empty book.
    pub fn new() -> (b: Self)
        ensures
            b@ == Map::<u128, ManagedOrder<Q>>::empty(),
    {
        OrderBook { orders: HashMap::new() }
    }

    /// Starts tracking `order` under its id (replacing any order with that id).
    pub fn record(&mut self, order: ManagedOrder<Q>)
        ensures
            final(self)@ == old(self)@.insert(order.id, order),
    {
        let id = order.id;
        self.orders.insert(id, order);
    }

    /// Starts tracking an approved order that the broker accepted under
    /// `order_id`: submitted, for the approved symbol, side and quantity,
    /// with the given client order id and nothing filled yet (the quantity
    /// type's default).
    pub fn record_submitted(&mut self, order_id: u128, client_order_id: String, approved: &ApprovedOrder<Q>)
        where Q: Copy + Default,
        ensures
            exists|no_fill: Q|
                {
                    &&& call_ensures(Q::default, (), no_fill)
                    &&& final(self)@ == old(self)@.insert(
                        order_id,
                        ManagedOrder {
                            id: order_id,
                            client_order_id,
                            symbol: approved.symbol,
                            side: approved.signal,
                            requested_qty: approved.qty,
                            filled_qty: no_fill,
                            status: OrderStatus::Submitted,
                        },
                    )
                },
    {
        let no_fill = Q::default();
        let ghost cid = client_order_id;
        let order = ManagedOrder {
            id: order_id,
            client_order_id,
            symbol: approved.symbol.clone(),
            side: approved.signal,
            requested_qty: approved.qty,
            filled_qty: no_fill,
            status: OrderStatus::Submitted,
        };
        self.orders.insert(order_id, order);
        assert(call_ensures(Q::default, (), no_fill));
        assert(self@ == old(self)@.insert(
            order_id,
            ManagedOrder {
                id: order_id,
                client_order_id: cid,
                symbol: approved.symbol,
                side: approved.signal,
                requested_qty: approved.qty,
                filled_qty: no_fill,
                status: OrderStatus::Submitted,
            },
        ));
    }

    /// Applies a status update from the trading stream. An update for an
    /// order that is not tracked changes nothing; returns whether the order
    /// was tracked.
    pub fn on_order_update(&mut self, order_id: u128, new_status: OrderStatus, filled_qty: Q) -> (known: bool)
        ensures
            known == old(self)@.contains_key(order_id),
            !known ==> final(self)@ == old(self)@,
            known ==> final(self)@ == old(self)@.insert(
                order_id,
                ManagedOrder { status: new_status, filled_qty, ..old(self)@[order_id] },
            ),
    {
        match self.orders.remove(&order_id) {
            Some(order) => {
                let updated = ManagedOrder { status: new_status, filled_qty, ..order };
                self.orders.insert(order_id, updated);
                assert(self.orders@ =~= old(self)@.insert(
                    order_id,
                    ManagedOrder { status: new_status, filled_qty, ..old(self)@[order_id] },
                ));
                true
            },
            None => {
                assert(self.orders@ =~= old(self)@);
                false
            },
        }
    }

    /// The order with id `order_id`, if tracked.
    pub fn get(&self, order_id: u128) -> (r: Option<&ManagedOrder<Q>>)
        ensures
            match r {
                Some(o) => self@.contains_key(order_id) && *o == self@[order_id],
                None => !self@.contains_key(order_id),
            },
    {
        self.orders.get(&order_id)
    }

    /// All tracked orders.
    pub fn orders(&self) -> (m: &HashMap<u128, ManagedOrder<Q>>)
        ensures
            m@ == self@,
    {
        &self.orders
    }

    /// Number of tracked orders.
    pub fn len(&self) -> (n: usize)
        ensures
            n == self@.len(),
    {
        self.orders.len()
    }
}

/// A status update touches only the order it names, and only its status and
/// filled quantity; the update is then what a lookup returns.
pub proof fn lemma_update_is_local<Q>(
    before: Map<u128, ManagedOrder<Q>>,
    order_id: u128,
    new_status: OrderStatus,
    filled_qty: Q,
    other: u128,
)
    requires
        before.contains_key(order_id),
        other != order_id,
    ensures
        ({
            let after = before.insert(
                order_id,
                ManagedOrder { status: new_status, filled_qty, ..before[order_id] },
            );
            &&& after.dom() == before.dom()
            &&& after[order_id].status == new_status
            &&& after[order_id].filled_qty == filled_qty
            &&& after[order_id].id == before[order_id].id
            &&& after[order_id].symbol == before[order_id].symbol
            &&& after[order_id].side == before[order_id].side
            &&& after[order_id].requested_qty == before[order_id].requested_qty
            &&& before.contains_key(other) ==> after[other] == before[other]
        }),
{
    let after = before.insert(
        order_id,
        ManagedOrder { status: new_status, filled_qty, ..before[order_id] },
    );
    assert(after.dom() =~= before.dom());
}

} // verus!
