//! Order bookkeeping: simulated fills in paper mode, the exchange's open orders otherwise.
use vstd::prelude::*;
use crate::decimal::Dec;
use crate::types::{Order, OrderSide, OrderStatus, PlannedOrder};
use crate::time::Timestamp;
use crate::store::{Keyed, KeyedStore};
use crate::text::{concat_text, i64_to_text, decimal_text};

verus! {

impl Keyed for Order {
    open spec fn key_of(&self) -> Seq<char> {
        self.order_id@
    }

    fn key(&self) -> (r: &String) {
        &self.order_id
    }
}

/// What placing an order comes to.
#[derive(Debug)]
pub enum PlaceOutcome {
    /// Paper mode: the order is filled at once, in full, at its price.
    PaperFilled(Order),
    /// Live mode: the order goes to the exchange; what the exchange answers is recorded with
    /// `record_exchange_order`.
    SendToExchange(PlannedOrder),
}

/// Places orders and keeps the open orders that the exchange acknowledged.
#[derive(Debug)]
pub struct OrderManager {
    paper_mode: bool,
    active_orders: KeyedStore<Order>,
}

/// The simulated fill of an order placed at instant `at`: ids `paper_<token>` for the market
/// and `paper_<token>_<seconds>` for the order, filled in full.
pub open spec fn paper_fill_spec(
    token_id: Seq<char>,
    side: OrderSide,
    price: Dec,
    size: Dec,
    at: Timestamp,
) -> (Seq<char>, Seq<char>) {
    ("paper_"@ + token_id, "paper_"@ + token_id + "_"@ + decimal_text(at.secs as int))
}

impl OrderManager {
    /// Orders are simulated.
    pub closed spec fn paper(self) -> bool {
        self.paper_mode
    }

    /// The acknowledged open orders, by order id.
    pub closed spec fn active(self) -> Map<Seq<char>, Order> {
        self.active_orders.contents()
    }

    /// A manager that sends orders to the exchange.
    pub fn new_real() -> (m: OrderManager)
        ensures
            !m.paper(),
            m.active() == Map::<Seq<char>, Order>::empty(),
    {
        OrderManager { paper_mode: false, active_orders: KeyedStore::new() }
    }

    /// A manager that simulates fills.
    pub fn new_paper() -> (m: OrderManager)
        ensures
            m.paper(),
            m.active() == Map::<Seq<char>, Order>::empty(),
    {
        OrderManager { paper_mode: true, active_orders: KeyedStore::new() }
    }

    /// Orders are simulated.
    pub fn is_paper(&self) -> (r: bool)
        ensures
            r == self.paper(),
    {
        self.paper_mode
    }

    /// Places an order at instant `at`. In paper mode it is filled at once in full (and not
    /// kept among the open orders); otherwise it is handed on for the exchange, unchanged.
    pub fn place_order(
        &self,
        token_id: &str,
        side: OrderSide,
        price: Dec,
        size: Dec,
        post_only: bool,
        at: &Timestamp,
    ) -> (r: PlaceOutcome)
        ensures
            self.paper() ==> (r matches PlaceOutcome::PaperFilled(o) && o.market_id@
                == paper_fill_spec(token_id@, side, price, size, *at).0 && o.order_id@
                == paper_fill_spec(token_id@, side, price, size, *at).1 && o.token_id@ == token_id@
                && o.side == side && o.price == price && o.size == size && o.filled_size == size
                && o.status is Filled),
            !self.paper() ==> (r matches PlaceOutcome::SendToExchange(p) && p.token_id@ == token_id@
                && p.side == side && p.price == price && p.size == size && p.post_only == post_only),
    {
        if self.paper_mode {
            let market_id = concat_text("paper_", token_id);
            let head = concat_text(market_id.as_str(), "_");
            let secs = i64_to_text(at.secs);
            let order_id = concat_text(head.as_str(), secs.as_str());
            let order = Order {
                order_id,
                market_id,
                token_id: String::from_str(token_id),
                side,
                price,
                size,
                filled_size: size,
                status: OrderStatus::Filled,
            };
            PlaceOutcome::PaperFilled(order)
        } else {
            PlaceOutcome::SendToExchange(
                PlannedOrder { token_id: String::from_str(token_id), side, price, size, post_only },
            )
        }
    }

    /// Keeps an order that the exchange acknowledged, replacing any with the same id.
    pub fn record_exchange_order(&mut self, order: Order)
        ensures
            final(self).paper() == old(self).paper(),
            final(self).active() == old(self).active().insert(order.order_id@, order),
    {
        self.active_orders.insert(order);
    }

    /// The open order with an id, if any.
    pub fn active_order(&self, order_id: &str) -> (r: Option<&Order>)
        ensures
            r is Some <==> self.active().contains_key(order_id@),
            r matches Some(o) ==> *o == self.active()[order_id@],
    {
        self.active_orders.get(order_id)
    }

    /// Cancels everything. In paper mode the open orders are forgotten at once and the result
    /// is `false`; otherwise the result is `true`, nothing changes yet, and the exchange must
    /// cancel first (then `confirm_cancelled`).
    pub fn cancel_all(&mut self) -> (ask_exchange: bool)
        ensures
            final(self).paper() == old(self).paper(),
            ask_exchange == !old(self).paper(),
            old(self).paper() ==> final(self).active() == Map::<Seq<char>, Order>::empty(),
            !old(self).paper() ==> final(self).active() == old(self).active(),
    {
        if self.paper_mode {
            self.active_orders.clear();
            false
        } else {
            true
        }
    }

    /// The exchange cancelled every order: forget them all.
    pub fn confirm_cancelled(&mut self)
        ensures
            final(self).paper() == old(self).paper(),
            final(self).active() == Map::<Seq<char>, Order>::empty(),
    {
        self.active_orders.clear();
    }
}

/// What an exchange order recorded under an id is what a lookup of that id returns, and
/// recording it leaves the other ids' orders as they were.
pub proof fn law_record_then_lookup(active: Map<Seq<char>, Order>, order: Order, other: Seq<char>)
    requires
        other != order.order_id@,
    ensures
        active.insert(order.order_id@, order)[order.order_id@] == order,
        active.insert(order.order_id@, order).contains_key(other) == active.contains_key(other),
        active.contains_key(other) ==> active.insert(order.order_id@, order)[other] == active[other],
{
}

} // verus!
