//! Orders, order books and market data.
use vstd::prelude::*;
use std::collections::VecDeque;
use crate::decimal::{Dec, decimal_checked_add, decimal_checked_sub};
use crate::time::{Timestamp, now};

verus! {

/// An arithmetic step overflowed the range of a decimal; the step would have panicked.
#[derive(Clone, Copy, Debug, PartialEq, Eq, Structural)]
pub struct ArithmeticOverflow;

/// Order side for trading
#[derive(Clone, Copy, Debug, PartialEq, Eq, Structural)]
pub enum OrderSide {
    Buy,
    Sell,
}

/// Current status of an order
#[derive(Clone, Copy, Debug, PartialEq, Eq, Structural)]
pub enum OrderStatus {
    Open,
    PartiallyFilled,
    Filled,
    Cancelled,
    Rejected,
    Expired,
}

/// Represents an order in the system
#[derive(Debug)]
pub struct Order {
    pub order_id: String,
    pub market_id: String,
    pub token_id: String,
    pub side: OrderSide,
    pub price: Dec,
    pub size: Dec,
    pub filled_size: Dec,
    pub status: OrderStatus,
}

/// `true` for the statuses of an order that can still trade.
pub open spec fn status_is_active(s: OrderStatus) -> bool {
    s is Open || s is PartiallyFilled
}

impl Order {
    /// A field-for-field copy.
    pub fn duplicate(&self) -> (r: Order)
        ensures
            r == *self,
    {
        Order {
            order_id: self.order_id.clone(),
            market_id: self.market_id.clone(),
            token_id: self.token_id.clone(),
            side: self.side,
            price: self.price,
            size: self.size,
            filled_size: self.filled_size,
            status: self.status,
        }
    }

    /// `size - filled_size`, or `None` where the subtraction overflows.
    pub fn checked_remaining_size(&self) -> (r: Option<Dec>)
        ensures
            r == decimal_checked_sub(self.size, self.filled_size),
    {
        self.size.checked_sub(self.filled_size)
    }

    /// `size - filled_size`.
    pub fn remaining_size(&self) -> (r: Dec)
        requires
            decimal_checked_sub(self.size, self.filled_size) is Some,
        ensures
            Some(r) == decimal_checked_sub(self.size, self.filled_size),
    {
        self.size.checked_sub(self.filled_size).unwrap()
    }

    /// The order can still trade: it is open or partially filled.
    pub fn is_active(&self) -> (r: bool)
        ensures
            r == status_is_active(self.status),
    {
        match self.status {
            OrderStatus::Open | OrderStatus::PartiallyFilled => true,
            _ => false,
        }
    }
}

/// Represents an order book with bids and asks, each level a `(price, size)` pair.
#[derive(Debug)]
pub struct OrderBook {
    pub market_id: String,
    pub token_id: String,
    pub best_bid: Dec,
    pub best_ask: Dec,
    pub bids: VecDeque<(Dec, Dec)>,
    pub asks: VecDeque<(Dec, Dec)>,
    pub mid_price: Dec,
    pub spread: Dec,
}

/// The sum `0 + s[0].1 + s[1].1 + ...` of the sizes of the levels, added left to right as
/// `Iterator::sum` does for decimals; `None` where an addition overflows.
pub open spec fn sum_sizes(levels: Seq<(Dec, Dec)>) -> Option<Dec>
    decreases levels.len(),
{
    if levels.len() == 0 {
        Some(Dec::lit(0, 0))
    } else {
        match sum_sizes(levels.drop_last()) {
            Some(acc) => decimal_checked_add(acc, levels.last().1),
            None => None,
        }
    }
}

/// The liquidity of a book: the bid sizes summed, the ask sizes summed, and the two sums added.
pub open spec fn book_liquidity(bids: Seq<(Dec, Dec)>, asks: Seq<(Dec, Dec)>) -> Option<Dec> {
    match (sum_sizes(bids), sum_sizes(asks)) {
        (Some(b), Some(a)) => decimal_checked_add(b, a),
        _ => None,
    }
}

impl OrderBook {
    /// An empty book for a market and token: no levels, every price zero.
    pub fn new(market_id: String, token_id: String) -> (b: OrderBook)
        ensures
            b.market_id == market_id,
            b.token_id == token_id,
            b.bids@.len() == 0,
            b.asks@.len() == 0,
            b.best_bid == Dec::lit(0, 0),
            b.best_ask == Dec::lit(0, 0),
            b.mid_price == Dec::lit(0, 0),
            b.spread == Dec::lit(0, 0),
    {
        OrderBook {
            market_id,
            token_id,
            best_bid: Dec::zero(),
            best_ask: Dec::zero(),
            bids: VecDeque::new(),
            asks: VecDeque::new(),
            mid_price: Dec::zero(),
            spread: Dec::zero(),
        }
    }

    /// The first `levels` bid levels and the first `levels` ask levels (all of them where
    /// there are fewer).
    pub fn depth(&self, levels: usize) -> (r: (Vec<(Dec, Dec)>, Vec<(Dec, Dec)>))
        ensures
            r.0@ == self.bids@.take(
                if levels < self.bids@.len() {
                    levels as int
                } else {
                    self.bids@.len() as int
                },
            ),
            r.1@ == self.asks@.take(
                if levels < self.asks@.len() {
                    levels as int
                } else {
                    self.asks@.len() as int
                },
            ),
    {
        let bids = first_levels(&self.bids, levels);
        let asks = first_levels(&self.asks, levels);
        (bids, asks)
    }

    /// The summed sizes of all bid and ask levels, or `None` where an addition overflows.
    pub fn checked_total_liquidity(&self) -> (r: Option<Dec>)
        ensures
            r == book_liquidity(self.bids@, self.asks@),
    {
        let b = sum_level_sizes(&self.bids);
        let a = sum_level_sizes(&self.asks);
        match (b, a) {
            (Some(b), Some(a)) => b.checked_add(a),
            _ => None,
        }
    }

    /// The summed sizes of all bid and ask levels.
    pub fn total_liquidity(&self) -> (r: Dec)
        requires
            book_liquidity(self.bids@, self.asks@) is Some,
        ensures
            Some(r) == book_liquidity(self.bids@, self.asks@),
    {
        self.checked_total_liquidity().unwrap()
    }
}

/// The first `levels` entries of a queue of levels.
fn first_levels(q: &VecDeque<(Dec, Dec)>, levels: usize) -> (r: Vec<(Dec, Dec)>)
    ensures
        r@ == q@.take(
            if levels < q@.len() {
                levels as int
            } else {
                q@.len() as int
            },
        ),
{
    let n = if levels < q.len() {
        levels
    } else {
        q.len()
    };
    let mut r: Vec<(Dec, Dec)> = Vec::new();
    let mut i: usize = 0;
    while i < n
        invariant
            n <= q@.len(),
            i <= n,
            r@ == q@.take(i as int),
        decreases n - i,
    {
        let level = q[i];
        r.push(level);
        i = i + 1;
        proof {
            assert(r@ =~= q@.take(i as int));
        }
    }
    r
}

/// The sizes of the levels summed from zero, left to right.
fn sum_level_sizes(q: &VecDeque<(Dec, Dec)>) -> (r: Option<Dec>)
    ensures
        r == sum_sizes(q@),
{
    let n = q.len();
    let mut acc = Dec::zero();
    let mut i: usize = 0;
    proof {
        assert(q@.take(0) =~= Seq::<(Dec, Dec)>::empty());
    }
    while i < n
        invariant
            n == q@.len(),
            i <= n,
            sum_sizes(q@.take(i as int)) == Some(acc),
        decreases n - i,
    {
        let level = q[i];
        proof {
            assert(q@.take(i + 1).drop_last() =~= q@.take(i as int));
        }
        match acc.checked_add(level.1) {
            Some(next) => {
                acc = next;
            },
            None => {
                proof {
                    assert(sum_sizes(q@.take(i + 1)) is None);
                    lemma_sum_sizes_none_extends(q@, i as int + 1);
                }
                return None;
            },
        }
        i = i + 1;
    }
    proof {
        assert(q@.take(n as int) =~= q@);
    }
    Some(acc)
}

/// Once the running sum has overflowed, the sum of every longer prefix is `None` too.
proof fn lemma_sum_sizes_none_extends(s: Seq<(Dec, Dec)>, k: int)
    requires
        0 <= k <= s.len(),
        sum_sizes(s.take(k)) is None,
    ensures
        sum_sizes(s) is None,
    decreases s.len() - k,
{
    if k < s.len() {
        assert(s.take(k + 1).drop_last() =~= s.take(k));
        lemma_sum_sizes_none_extends(s, k + 1);
    } else {
        assert(s.take(k) =~= s);
    }
}

/// Market data structure for trading
#[derive(Debug)]
pub struct MarketData {
    pub market_id: String,
    pub slug: String,
    pub question: String,
    pub yes_price: Dec,
    pub no_price: Dec,
    pub volume: Dec,
    pub liquidity: Dec,
    pub active: bool,
    pub end_date: Timestamp,
}

impl MarketData {
    /// A field-for-field copy.
    pub fn duplicate(&self) -> (r: MarketData)
        ensures
            r == *self,
    {
        MarketData {
            market_id: self.market_id.clone(),
            slug: self.slug.clone(),
            question: self.question.clone(),
            yes_price: self.yes_price,
            no_price: self.no_price,
            volume: self.volume,
            liquidity: self.liquidity,
            active: self.active,
            end_date: self.end_date,
        }
    }

    /// The market's YES price, read as the probability of YES.
    pub fn implied_probability(&self) -> (r: Dec)
        ensures
            r == self.yes_price,
    {
        self.yes_price
    }

    /// The market has ended by `at`: its end date is at or before that instant.
    pub fn is_expired_at(&self, at: &Timestamp) -> (r: bool)
        ensures
            r == self.end_date.at_or_before(*at),
    {
        self.end_date.at_or_before_exec(at)
    }

    /// The market has ended by the current instant.
    pub fn is_expired(&self) -> (r: bool)
        ensures
            exists|t: Timestamp| t.secs >= 0 && t.nanos < 1_000_000_000 && r == self.end_date.at_or_before(t),
    {
        let t = now();
        self.is_expired_at(&t)
    }
}

/// Price tick for real-time updates
#[derive(Debug)]
pub struct PriceTick {
    pub market_id: String,
    pub token_id: String,
    pub price: Dec,
    pub timestamp: Timestamp,
}

/// Token information
#[derive(Debug)]
pub struct TokenInfo {
    pub token_id: String,
    pub contract_address: String,
    pub decimals: u8,
    pub symbol: String,
}

/// A position held in a market, as the exchange reports it.
#[derive(Debug)]
pub struct Position {
    pub market_id: String,
    pub side: String,
    pub size: Dec,
    pub avg_price: Dec,
    pub current_value: Dec,
}

impl Position {
    /// A field-for-field copy.
    pub fn duplicate(&self) -> (r: Position)
        ensures
            r == *self,
    {
        Position {
            market_id: self.market_id.clone(),
            side: self.side.clone(),
            size: self.size,
            avg_price: self.avg_price,
            current_value: self.current_value,
        }
    }
}

/// An order that a strategy asks the order manager to place.
#[derive(Debug)]
pub struct PlannedOrder {
    pub token_id: String,
    pub side: OrderSide,
    pub price: Dec,
    pub size: Dec,
    pub post_only: bool,
}

/// A new price for a token, as the market feed reports it.
#[derive(Debug)]
pub struct PriceUpdate {
    pub token_id: String,
    pub price: Dec,
}

} // verus!
