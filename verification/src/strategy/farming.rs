//! Farming: buying YES or NO at moderate prices in markets that end within the hour.
use vstd::prelude::*;
use crate::decimal::Dec;
use crate::types::{MarketData, OrderSide, PlannedOrder};
use crate::config::FarmingConfig;
use crate::time::{Timestamp, chrono_whole_minutes, whole_minutes_between, now};

verus! {

/// Places small buys in markets close to their end.
#[derive(Debug)]
pub struct FarmingEngine {
    config: FarmingConfig,
}

/// The price lies strictly between the configured minimum and maximum.
pub open spec fn in_band(cfg: FarmingConfig, price: Dec) -> bool {
    price.units() < cfg.max_price.units() && price.units() > cfg.min_price.units()
}

/// The market ends more than zero and at most the window's whole minutes after `at`.
pub open spec fn ends_within(cfg: FarmingConfig, m: MarketData, at: Timestamp) -> bool {
    match chrono_whole_minutes(m.end_date, at) {
        Some(mins) => 0 < mins <= cfg.expiry_window_minutes,
        None => false,
    }
}

/// A buy of the configured size in a market, at a price, not post-only.
pub open spec fn farm_order(cfg: FarmingConfig, m: MarketData, price: Dec) -> PlannedOrder {
    PlannedOrder {
        token_id: m.market_id,
        side: OrderSide::Buy,
        price,
        size: cfg.farm_size,
        post_only: false,
    }
}

/// The buys for one market at instant `at`: none unless it ends within the window (more than
/// zero and at most `expiry_window_minutes` whole minutes away), then a YES buy when the YES
/// price is in the band and a NO buy when the NO price is. A market whose end date `chrono`
/// cannot represent is passed over.
pub open spec fn market_farm_orders(cfg: FarmingConfig, m: MarketData, at: Timestamp) -> Seq<
    PlannedOrder,
> {
    match chrono_whole_minutes(m.end_date, at) {
        Some(minutes_left) => if minutes_left > cfg.expiry_window_minutes || minutes_left <= 0 {
            Seq::<PlannedOrder>::empty()
        } else {
            (if in_band(cfg, m.yes_price) {
                seq![farm_order(cfg, m, m.yes_price)]
            } else {
                Seq::<PlannedOrder>::empty()
            }) + (if in_band(cfg, m.no_price) {
                seq![farm_order(cfg, m, m.no_price)]
            } else {
                Seq::<PlannedOrder>::empty()
            })
        },
        None => Seq::<PlannedOrder>::empty(),
    }
}

/// The buys for the markets in order.
pub open spec fn farm_orders_spec(cfg: FarmingConfig, ms: Seq<MarketData>, at: Timestamp) -> Seq<
    PlannedOrder,
>
    decreases ms.len(),
{
    if !cfg.enabled || ms.len() == 0 {
        Seq::<PlannedOrder>::empty()
    } else {
        farm_orders_spec(cfg, ms.drop_last(), at) + market_farm_orders(cfg, ms.last(), at)
    }
}

impl FarmingEngine {
    /// The configuration the engine works with.
    pub closed spec fn cfg(self) -> FarmingConfig {
        self.config
    }

    /// An engine with the farming configuration.
    pub fn new(config: FarmingConfig) -> (e: FarmingEngine)
        ensures
            e.cfg() == config,
    {
        FarmingEngine { config }
    }

    /// The buys that farming places among the markets at instant `at`; none when disabled.
    pub fn farming_orders(&self, markets: &Vec<MarketData>, at: &Timestamp) -> (r: Vec<
        PlannedOrder,
    >)
        ensures
            r@ == farm_orders_spec(self.cfg(), markets@, *at),
    {
        let mut out: Vec<PlannedOrder> = Vec::new();
        if !self.config.enabled {
            return out;
        }
        let n = markets.len();
        let mut i: usize = 0;
        proof {
            assert(markets@.take(0) =~= Seq::<MarketData>::empty());
        }
        while i < n
            invariant
                n == markets@.len(),
                i <= n,
                self.cfg().enabled,
                out@ == farm_orders_spec(self.cfg(), markets@.take(i as int), *at),
            decreases n - i,
        {
            let m = &markets[i];
            let ghost before = out@;
            proof {
                assert(markets@.take(i + 1).drop_last() =~= markets@.take(i as int));
            }
            match whole_minutes_between(&m.end_date, at) {
                Some(minutes_left) => {
                    if !(minutes_left > self.config.expiry_window_minutes || minutes_left <= 0) {
                        if m.yes_price.lt(&self.config.max_price) && m.yes_price.gt(
                            &self.config.min_price,
                        ) {
                            out.push(
                                PlannedOrder {
                                    token_id: m.market_id.clone(),
                                    side: OrderSide::Buy,
                                    price: m.yes_price,
                                    size: self.config.farm_size,
                                    post_only: false,
                                },
                            );
                        }
                        if m.no_price.lt(&self.config.max_price) && m.no_price.gt(
                            &self.config.min_price,
                        ) {
                            out.push(
                                PlannedOrder {
                                    token_id: m.market_id.clone(),
                                    side: OrderSide::Buy,
                                    price: m.no_price,
                                    size: self.config.farm_size,
                                    post_only: false,
                                },
                            );
                        }
                    }
                },
                None => {},
            }
            proof {
                assert(out@ =~= before + market_farm_orders(self.cfg(), markets@[i as int], *at));
            }
            i = i + 1;
        }
        proof {
            assert(markets@.take(n as int) =~= markets@);
        }
        out
    }

    /// The buys that farming places among the markets now.
    pub fn farming_orders_now(&self, markets: &Vec<MarketData>) -> (r: Vec<PlannedOrder>)
        ensures
            exists|at: Timestamp|
                at.secs >= 0 && at.nanos < 1_000_000_000 && r@ == farm_orders_spec(
                    self.cfg(),
                    markets@,
                    at,
                ),
    {
        let at = now();
        self.farming_orders(markets, &at)
    }
}

/// Every farming buy is a non-post-only buy of the configured size, priced strictly inside
/// the band, in a market that ends more than zero and at most the window's minutes later.
pub proof fn law_farm_orders_in_band(cfg: FarmingConfig, ms: Seq<MarketData>, at: Timestamp)
    ensures
        forall|k: int|
            0 <= k < farm_orders_spec(cfg, ms, at).len() ==> {
                let o = #[trigger] farm_orders_spec(cfg, ms, at)[k];
                &&& o.side is Buy
                &&& !o.post_only
                &&& o.size == cfg.farm_size
                &&& in_band(cfg, o.price)
                &&& exists|q: int|
                    0 <= q < ms.len() && #[trigger] ms[q].market_id == o.token_id
                        && ends_within(cfg, ms[q], at)
            },
    decreases ms.len(),
{
    if cfg.enabled && ms.len() > 0 {
        law_farm_orders_in_band(cfg, ms.drop_last(), at);
        let prev = farm_orders_spec(cfg, ms.drop_last(), at);
        let last = market_farm_orders(cfg, ms.last(), at);
        assert forall|k: int| 0 <= k < farm_orders_spec(cfg, ms, at).len() implies {
            let o = #[trigger] farm_orders_spec(cfg, ms, at)[k];
            &&& o.side is Buy
            &&& !o.post_only
            &&& o.size == cfg.farm_size
            &&& in_band(cfg, o.price)
            &&& exists|q: int|
                0 <= q < ms.len() && #[trigger] ms[q].market_id == o.token_id
                    && ends_within(cfg, ms[q], at)
        } by {
            if k < prev.len() {
                let o = prev[k];
                let q = choose|q: int|
                    0 <= q < ms.drop_last().len() && #[trigger] ms.drop_last()[q].market_id
                        == o.token_id && ends_within(cfg, ms.drop_last()[q], at);
                assert(ms[q] == ms.drop_last()[q]);
            } else {
                assert(ms[ms.len() - 1] == ms.last());
            }
        }
    }
}

/// The buys for a one-market list are that market's buys.
proof fn lemma_single_market(cfg: FarmingConfig, m: MarketData, at: Timestamp)
    requires
        cfg.enabled,
    ensures
        farm_orders_spec(cfg, seq![m], at) == market_farm_orders(cfg, m, at),
{
    let one = seq![m];
    assert(one.len() == 1);
    assert(one.last() == m);
    assert(one.drop_last() =~= Seq::<MarketData>::empty());
    assert(farm_orders_spec(cfg, one.drop_last(), at) == Seq::<PlannedOrder>::empty());
    assert(farm_orders_spec(cfg, one, at) == farm_orders_spec(cfg, one.drop_last(), at)
        + market_farm_orders(cfg, m, at));
    assert(Seq::<PlannedOrder>::empty() + market_farm_orders(cfg, m, at) =~= market_farm_orders(
        cfg,
        m,
        at,
    ));
}

/// Each market is farmed on its own: the buys for a list followed by one more market are the
/// buys for the list, then the buys for that market alone.
pub proof fn law_farm_orders_per_market(
    cfg: FarmingConfig,
    ms: Seq<MarketData>,
    m: MarketData,
    at: Timestamp,
)
    ensures
        farm_orders_spec(cfg, ms.push(m), at) == farm_orders_spec(cfg, ms, at) + farm_orders_spec(
            cfg,
            seq![m],
            at,
        ),
{
    assert(ms.push(m).drop_last() =~= ms);
    assert(seq![m].drop_last() =~= Seq::<MarketData>::empty());
    if cfg.enabled {
        lemma_single_market(cfg, m, at);
    } else {
        assert(farm_orders_spec(cfg, ms, at) + farm_orders_spec(cfg, seq![m], at)
            =~= Seq::<PlannedOrder>::empty());
    }
}

/// The YES side and the NO side of a market are farmed independently: in a market that ends
/// more than zero and at most the window's whole minutes from now, with farming enabled,
/// there is a buy of the farm size at the YES price exactly when that price lies strictly
/// inside the band, and one at the NO price exactly when that price does, YES first; a
/// market outside the window gets no buy, and with farming disabled nothing is bought.
pub proof fn law_farm_sides_independent(cfg: FarmingConfig, m: MarketData, at: Timestamp)
    ensures
        !cfg.enabled ==> farm_orders_spec(cfg, seq![m], at).len() == 0,
        cfg.enabled && !ends_within(cfg, m, at) ==> farm_orders_spec(cfg, seq![m], at).len() == 0,
        cfg.enabled && ends_within(cfg, m, at) ==> ({
            let o = farm_orders_spec(cfg, seq![m], at);
            let yes_in = cfg.min_price.units() < m.yes_price.units() < cfg.max_price.units();
            let no_in = cfg.min_price.units() < m.no_price.units() < cfg.max_price.units();
            let ny: int = if yes_in { 1 } else { 0 };
            let nn: int = if no_in { 1 } else { 0 };
            &&& o.len() == ny + nn
            &&& (yes_in ==> o[0].price == m.yes_price && o[0].side is Buy && o[0].size
                == cfg.farm_size && o[0].token_id == m.market_id)
            &&& (no_in ==> o[o.len() - 1].price == m.no_price && o[o.len() - 1].side is Buy
                && o[o.len() - 1].size == cfg.farm_size && o[o.len() - 1].token_id == m.market_id)
        }),
{
    assert(seq![m].drop_last() =~= Seq::<MarketData>::empty());
    if cfg.enabled {
        lemma_single_market(cfg, m, at);
    }
}

} // verus!
