//! Market making: a post-only bid below the mid price and a post-only ask above it.
use vstd::prelude::*;
use crate::decimal::{
    Dec, decimal_checked_add, decimal_checked_sub, max_spec, min_spec, pow10, exact_fits,
    lemma_checked_add, lemma_checked_sub, lemma_zero_one,
};
use crate::types::{OrderBook, OrderSide, ArithmeticOverflow};
use crate::config::TradingConfig;

verus! {

/// A post-only order that market making would place.
#[derive(Debug)]
pub struct MakerOrder {
    pub token_id: String,
    pub side: OrderSide,
    pub price: Dec,
    pub size: Dec,
    pub post_only: bool,
}

impl MakerOrder {
    /// A field-for-field copy.
    pub fn duplicate(&self) -> (r: MakerOrder)
        ensures
            r == *self,
    {
        MakerOrder {
            token_id: self.token_id.clone(),
            side: self.side,
            price: self.price,
            size: self.size,
            post_only: self.post_only,
        }
    }
}

/// Quotes both sides of books around their mid prices.
#[derive(Debug)]
pub struct MarketMakingEngine {
    config: TradingConfig,
}

/// The maker order on a book's token, at a price, for the configured size.
pub open spec fn maker_order_spec(
    cfg: TradingConfig,
    book: OrderBook,
    side: OrderSide,
    price: Dec,
) -> MakerOrder {
    MakerOrder { token_id: book.token_id, side, price, size: cfg.order_size, post_only: true }
}

/// The bid `max(mid - spread, 0)`, kept only when above zero, then the ask
/// `min(mid + spread, 1)`, kept only when below one; `Err` where a step overflows.
pub open spec fn maker_orders_spec(cfg: TradingConfig, book: OrderBook) -> Result<
    Seq<MakerOrder>,
    ArithmeticOverflow,
> {
    match decimal_checked_sub(book.mid_price, cfg.maker_spread) {
        Some(low) => {
            let bid = max_spec(low, Dec::lit(0, 0));
            let bids = if bid.units() > 0 {
                seq![maker_order_spec(cfg, book, OrderSide::Buy, bid)]
            } else {
                Seq::<MakerOrder>::empty()
            };
            match decimal_checked_add(book.mid_price, cfg.maker_spread) {
                Some(high) => {
                    let ask = min_spec(high, Dec::lit(1, 0));
                    let asks = if ask.units() < pow10(28) {
                        seq![maker_order_spec(cfg, book, OrderSide::Sell, ask)]
                    } else {
                        Seq::<MakerOrder>::empty()
                    };
                    Ok(bids + asks)
                },
                None => Err(ArithmeticOverflow),
            }
        },
        None => Err(ArithmeticOverflow),
    }
}

impl MarketMakingEngine {
    /// The configuration the engine works with.
    pub closed spec fn cfg(self) -> TradingConfig {
        self.config
    }

    /// An engine with a copy of the trading configuration.
    pub fn new(config: &TradingConfig) -> (e: MarketMakingEngine)
        ensures
            e.cfg() == *config,
    {
        MarketMakingEngine { config: *config }
    }

    /// The maker orders for a book, or `Err` where an arithmetic step overflows.
    pub fn try_generate_maker_orders(&self, order_book: &OrderBook) -> (r: Result<
        Vec<MakerOrder>,
        ArithmeticOverflow,
    >)
        ensures
            r is Ok <==> maker_orders_spec(self.cfg(), *order_book) is Ok,
            r matches Ok(v) ==> maker_orders_spec(self.cfg(), *order_book) == Ok::<
                Seq<MakerOrder>,
                ArithmeticOverflow,
            >(v@),
    {
        proof {
            Dec::lemma_lit(0, 0);
            Dec::lemma_lit(1, 0);
        }
        let mut orders: Vec<MakerOrder> = Vec::new();
        let mid = order_book.mid_price;
        let spread = self.config.maker_spread;
        let low = match mid.checked_sub(spread) {
            Some(v) => v,
            None => return Err(ArithmeticOverflow),
        };
        let zero = Dec::zero();
        let yes_bid = low.max(zero);
        if yes_bid.gt(&zero) {
            orders.push(
                MakerOrder {
                    token_id: order_book.token_id.clone(),
                    side: OrderSide::Buy,
                    price: yes_bid,
                    size: self.config.order_size,
                    post_only: true,
                },
            );
        }
        let ghost bids = orders@;
        let high = match mid.checked_add(spread) {
            Some(v) => v,
            None => return Err(ArithmeticOverflow),
        };
        let one = Dec::one();
        let yes_ask = high.min(one);
        if yes_ask.lt(&one) {
            orders.push(
                MakerOrder {
                    token_id: order_book.token_id.clone(),
                    side: OrderSide::Sell,
                    price: yes_ask,
                    size: self.config.order_size,
                    post_only: true,
                },
            );
        }
        proof {
            let asks = if yes_ask.units() < pow10(28) {
                seq![maker_order_spec(self.cfg(), *order_book, OrderSide::Sell, yes_ask)]
            } else {
                Seq::<MakerOrder>::empty()
            };
            assert(orders@ =~= bids + asks);
        }
        Ok(orders)
    }

    /// The maker orders for a book: a post-only bid below the mid price when above zero, then a
    /// post-only ask above it when below one.
    pub fn generate_maker_orders(&self, order_book: &OrderBook) -> (r: Vec<MakerOrder>)
        requires
            maker_orders_spec(self.cfg(), *order_book) is Ok,
        ensures
            maker_orders_spec(self.cfg(), *order_book) == Ok::<Seq<MakerOrder>, ArithmeticOverflow>(
                r@,
            ),
    {
        match self.try_generate_maker_orders(order_book) {
            Ok(v) => v,
            Err(_) => Vec::new(),
        }
    }
}

/// Market making never quotes more than one bid and one ask, bid first; every quote is
/// post-only, on the book's token, for the configured size; a bid is always priced above
/// zero and an ask always below one.
pub proof fn law_maker_orders_in_bounds(cfg: TradingConfig, book: OrderBook)
    ensures
        maker_orders_spec(cfg, book) matches Ok(orders) ==> {
            &&& orders.len() <= 2
            &&& forall|i: int|
                0 <= i < orders.len() ==> {
                    &&& #[trigger] orders[i].post_only
                    &&& orders[i].token_id == book.token_id
                    &&& orders[i].size == cfg.order_size
                    &&& (orders[i].side is Buy ==> orders[i].price.units() > 0)
                    &&& (orders[i].side is Sell ==> orders[i].price.units() < pow10(28))
                }
            &&& (orders.len() == 2 ==> orders[0].side is Buy && orders[1].side is Sell)
        },
{
}

/// Both quotes of a book, `mid - spread` and `mid + spread`, are exact at the larger scale of
/// the mid price and the spread.
pub open spec fn quotes_exact(book: OrderBook, spread: Dec) -> bool {
    &&& exact_fits(book.mid_price.units() - spread.units(), book.mid_price, spread)
    &&& exact_fits(book.mid_price.units() + spread.units(), book.mid_price, spread)
}

/// The quotes depend only on the book's token and the value of its mid price: two books on one
/// token whose mid prices are equal in value (`0.5` and `0.50` alike) get the same number of
/// quotes, on the same sides, for the same size, at prices equal in value. Stated wherever
/// both books' quotes are exact, where both always succeed.
pub proof fn law_maker_quotes_follow_mid(cfg: TradingConfig, book1: OrderBook, book2: OrderBook)
    requires
        book1.token_id == book2.token_id,
        book1.mid_price.units() == book2.mid_price.units(),
        book1.mid_price.well_formed(),
        book2.mid_price.well_formed(),
        cfg.maker_spread.well_formed(),
        quotes_exact(book1, cfg.maker_spread),
        quotes_exact(book2, cfg.maker_spread),
    ensures
        maker_orders_spec(cfg, book1) is Ok,
        maker_orders_spec(cfg, book2) is Ok,
        ({
            let q1 = maker_orders_spec(cfg, book1)->Ok_0;
            let q2 = maker_orders_spec(cfg, book2)->Ok_0;
            &&& q1.len() == q2.len()
            &&& forall|i: int|
                0 <= i < q1.len() ==> {
                    &&& #[trigger] q1[i].side == q2[i].side
                    &&& q1[i].token_id == q2[i].token_id
                    &&& q1[i].size == q2[i].size
                    &&& q1[i].post_only == q2[i].post_only
                    &&& q1[i].price.units() == q2[i].price.units()
                }
        }),
{
    lemma_zero_one();
    lemma_checked_sub(book1.mid_price, cfg.maker_spread);
    lemma_checked_sub(book2.mid_price, cfg.maker_spread);
    lemma_checked_add(book1.mid_price, cfg.maker_spread);
    lemma_checked_add(book2.mid_price, cfg.maker_spread);
}

/// Every quote that fits inside `(0, 1)` is made, and no other: where `mid - spread` and
/// `mid + spread` can be computed, the bid at `mid - spread` is quoted exactly when that price
/// is above zero and the ask at `mid + spread` exactly when that price is below one, bid
/// first; otherwise nothing is quoted and the overflow is reported.
pub proof fn law_maker_quotes_complete(cfg: TradingConfig, book: OrderBook)
    ensures
        maker_orders_spec(cfg, book) is Ok <==> (decimal_checked_sub(book.mid_price, cfg.maker_spread)
            is Some && decimal_checked_add(book.mid_price, cfg.maker_spread) is Some),
        maker_orders_spec(cfg, book) is Ok ==> ({
            let q = maker_orders_spec(cfg, book)->Ok_0;
            let low = decimal_checked_sub(book.mid_price, cfg.maker_spread)->0;
            let high = decimal_checked_add(book.mid_price, cfg.maker_spread)->0;
            let bids: int = if low.units() > 0 { 1 } else { 0 };
            let asks: int = if high.units() < pow10(28) { 1 } else { 0 };
            &&& q.len() == bids + asks
            &&& (low.units() > 0 ==> q[0].side is Buy && q[0].price == low)
            &&& (high.units() < pow10(28) ==> q[q.len() - 1].side is Sell && q[q.len() - 1].price
                == high)
        }),
{
    lemma_zero_one();
}

} // verus!
