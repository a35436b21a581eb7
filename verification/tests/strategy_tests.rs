use polymarket_rn1_bot::config::{FarmingConfig, HedgingConfig, HftConfig, TradingConfig, ZombieConfig};
use polymarket_rn1_bot::decimal::Dec;
use polymarket_rn1_bot::strategy::farming::FarmingEngine;
use polymarket_rn1_bot::strategy::hedging::{HedgeSignal, HedgingEngine};
use polymarket_rn1_bot::strategy::hft::HftEngine;
use polymarket_rn1_bot::strategy::hold::{HoldEngine, HoldVerdict};
use polymarket_rn1_bot::strategy::market_making::MarketMakingEngine;
use polymarket_rn1_bot::strategy::mispricing::{Action, MispricingEngine, SignalType};
use polymarket_rn1_bot::strategy::synthetic::SyntheticSellEngine;
use polymarket_rn1_bot::time::Timestamp;
use polymarket_rn1_bot::types::{ArithmeticOverflow, MarketData, OrderBook, OrderSide, Position, PriceUpdate};

fn d(m: i64, s: u32) -> Dec {
    Dec::new(m, s)
}

fn max_dec() -> Dec {
    Dec::from_i128_with_scale(79_228_162_514_264_337_593_543_950_335, 0).unwrap()
}

fn market(id: &str, slug: &str, yes: Dec, no: Dec, liquidity: Dec, end_secs: i64) -> MarketData {
    MarketData {
        market_id: id.to_string(),
        slug: slug.to_string(),
        question: String::new(),
        yes_price: yes,
        no_price: no,
        volume: d(5000, 0),
        liquidity,
        active: true,
        end_date: Timestamp { secs: end_secs, nanos: 0 },
    }
}

fn trading(min_ev: Dec) -> TradingConfig {
    let mut c = TradingConfig::default();
    c.min_ev_threshold = min_ev;
    c
}

#[test]
fn arbitrage_when_both_sides_are_cheap() {
    let engine = MispricingEngine::new(&trading(d(5, 1)));
    let m = market("m1", "a-b", d(2, 1), d(2, 1), Dec::zero(), 0);
    let s = engine.calculate_ev(&m).unwrap();
    assert_eq!(s.signal_type, SignalType::Arbitrage);
    assert_eq!(s.recommended_action, Action::BuyBoth);
    assert!(s.ev.value_eq(&d(6, 1)));
    assert_eq!(s.market_id, "m1");
    assert_eq!(s.size, d(10, 0));
}

#[test]
fn no_arbitrage_below_threshold() {
    let engine = MispricingEngine::new(&trading(d(5, 1)));
    let m = market("m1", "a-b", d(3, 1), d(3, 1), Dec::zero(), 0);
    assert!(engine.calculate_ev(&m).is_none());
}

#[test]
fn cheap_yes_signal() {
    let engine = MispricingEngine::new(&trading(d(5, 2)));
    let m = market("m2", "x", d(1, 2), d(99, 2), Dec::zero(), 0);
    // estimate = 0.01 + (0.5 - 0.01) / 5 = 0.108
    let est = engine.estimate_true_probability(&m).unwrap();
    assert!(est.value_eq(&d(108, 3)));
    let s = engine.calculate_ev(&m).unwrap();
    assert_eq!(s.signal_type, SignalType::MispricingLow);
    assert_eq!(s.recommended_action, Action::BuyYes);
    assert!(s.ev.value_eq(&d(98, 3)));
    assert!(s.ev.gt(&d(5, 2)));
}

#[test]
fn expensive_yes_signal() {
    let engine = MispricingEngine::new(&trading(d(5, 2)));
    let m = market("m3", "x", d(9, 1), d(5, 1), Dec::zero(), 0);
    // estimate = 0.9 + (0.5 - 0.9) / 5 = 0.82; NO: estimated 0.18 against implied 0.1
    let s = engine.calculate_ev(&m).unwrap();
    assert_eq!(s.signal_type, SignalType::MispricingHigh);
    assert_eq!(s.recommended_action, Action::BuyNo);
    assert!(s.ev.value_eq(&d(8, 2)));
}

#[test]
fn liquidity_damps_the_estimate() {
    let engine = MispricingEngine::new(&trading(d(5, 1)));
    let deep = market("m", "x", d(1, 1), d(9, 1), d(20000, 0), 0);
    assert!(engine.estimate_true_probability(&deep).unwrap().value_eq(&d(5, 1)));
    let mid = market("m", "x", d(1, 1), d(9, 1), d(5000, 0), 0);
    assert!(engine.estimate_true_probability(&mid).unwrap().value_eq(&d(3, 1)));
}

#[test]
fn estimate_is_clamped_to_unit_interval() {
    let engine = MispricingEngine::new(&trading(d(5, 1)));
    let high = market("m", "x", d(2, 0), d(0, 0), Dec::zero(), 0);
    assert!(engine.estimate_true_probability(&high).unwrap().value_eq(&Dec::one()));
    let low = market("m", "x", d(-2, 0), d(0, 0), Dec::zero(), 0);
    assert!(engine.estimate_true_probability(&low).unwrap().value_eq(&Dec::zero()));
}

#[test]
fn mispricing_overflow_is_reported() {
    let engine = MispricingEngine::new(&trading(d(5, 1)));
    let m = market("m", "x", max_dec(), max_dec(), Dec::zero(), 0);
    assert_eq!(engine.try_calculate_ev(&m).err(), Some(ArithmeticOverflow));
}

fn book(mid: Dec) -> OrderBook {
    let mut b = OrderBook::new("m".to_string(), "tok".to_string());
    b.mid_price = mid;
    b
}

#[test]
fn maker_orders_around_mid() {
    let engine = MarketMakingEngine::new(&TradingConfig::default());
    let orders = engine.generate_maker_orders(&book(d(5, 1)));
    assert_eq!(orders.len(), 2);
    assert_eq!(orders[0].side, OrderSide::Buy);
    assert!(orders[0].price.value_eq(&d(48, 2)));
    assert_eq!(orders[1].side, OrderSide::Sell);
    assert!(orders[1].price.value_eq(&d(52, 2)));
    for o in &orders {
        assert!(o.post_only);
        assert_eq!(o.token_id, "tok");
        assert_eq!(o.size, d(10, 0));
    }
}

#[test]
fn maker_orders_stay_inside_zero_and_one() {
    let engine = MarketMakingEngine::new(&TradingConfig::default());
    let low = engine.generate_maker_orders(&book(d(1, 2)));
    assert_eq!(low.len(), 1);
    assert_eq!(low[0].side, OrderSide::Sell);
    assert!(low[0].price.value_eq(&d(3, 2)));
    let high = engine.generate_maker_orders(&book(d(99, 2)));
    assert_eq!(high.len(), 1);
    assert_eq!(high[0].side, OrderSide::Buy);
    assert!(high[0].price.value_eq(&d(97, 2)));
    let edge = engine.generate_maker_orders(&book(d(2, 2)));
    assert_eq!(edge.len(), 1);
    assert_eq!(edge[0].side, OrderSide::Sell);
}

#[test]
fn maker_orders_overflow_is_reported() {
    let mut cfg = TradingConfig::default();
    cfg.maker_spread = max_dec();
    let engine = MarketMakingEngine::new(&cfg);
    assert_eq!(engine.try_generate_maker_orders(&book(max_dec())).err(), Some(ArithmeticOverflow));
}

#[test]
fn hedge_signals_for_shared_teams() {
    let engine = HedgingEngine::new(HedgingConfig { enabled: true, ..HedgingConfig::default() });
    let markets = vec![
        market("a", "Lakers-vs-Celtics", d(7, 1), d(3, 1), Dec::zero(), 0),
        market("b", "lakers-celtics-game", d(5, 1), d(5, 1), Dec::zero(), 0),
        market("c", "vs-nets", d(1, 1), d(9, 1), Dec::zero(), 0),
    ];
    let sigs = engine.hedge_signals(&markets);
    // "lakers" and "celtics" are shared by markets 0 and 1; "vs" is too short to count.
    assert_eq!(sigs.len(), 2);
    for s in &sigs {
        assert_eq!(*s, HedgeSignal { first: 0, second: 1, deviation: sigs[0].deviation });
        assert!(s.deviation.value_eq(&d(2, 1)));
    }
}

#[test]
fn hedge_needs_a_large_deviation() {
    let engine = HedgingEngine::new(HedgingConfig { enabled: true, ..HedgingConfig::default() });
    let markets = vec![
        market("a", "lakers-celtics", d(50, 2), d(5, 1), Dec::zero(), 0),
        market("b", "lakers-heat", d(60, 2), d(4, 1), Dec::zero(), 0),
    ];
    assert!(engine.hedge_signals(&markets).is_empty());
}

#[test]
fn hedging_disabled_gives_nothing() {
    let engine = HedgingEngine::new(HedgingConfig::default());
    let markets = vec![
        market("a", "lakers-celtics", d(9, 1), d(1, 1), Dec::zero(), 0),
        market("b", "lakers-celtics", d(1, 1), d(9, 1), Dec::zero(), 0),
    ];
    assert!(engine.hedge_signals(&markets).is_empty());
}

fn position(id: &str, side: &str, size: Dec, avg: Dec, value: Dec) -> Position {
    Position { market_id: id.to_string(), side: side.to_string(), size, avg_price: avg, current_value: value }
}

#[test]
fn hold_classifies_and_remembers() {
    let mut engine = HoldEngine::new(ZombieConfig { enabled: true, ..ZombieConfig::default() });
    let ps = vec![
        position("win", "YES", d(10, 0), d(5, 1), d(6, 0)),
        position("lose", "YES", d(10, 0), d(5, 1), d(4, 0)),
        position("flat", "NO", d(0, 0), d(5, 1), d(0, 0)),
        position("free", "NO", d(10, 0), d(0, 0), d(3, 0)),
    ];
    let reports = engine.review_positions(&ps).unwrap();
    assert_eq!(reports.len(), 4);
    assert_eq!(reports[0].verdict, HoldVerdict::BigWin);
    assert!(reports[0].pnl_pct.value_eq(&d(2, 1)));
    assert_eq!(reports[1].verdict, HoldVerdict::Zombie);
    assert!(reports[1].pnl_pct.value_eq(&d(-2, 1)));
    assert_eq!(reports[2].verdict, HoldVerdict::Quiet);
    assert_eq!(reports[3].verdict, HoldVerdict::Quiet);
    assert!(reports[3].pnl_pct.value_eq(&Dec::zero()));
    assert_eq!(engine.cached_position("lose").unwrap().current_value, d(4, 0));
    // A later review of the same market replaces the remembered position.
    let again = vec![position("lose", "YES", d(10, 0), d(5, 1), d(7, 0))];
    let r = engine.review_positions(&again).unwrap();
    assert_eq!(r[0].verdict, HoldVerdict::BigWin);
    assert_eq!(engine.cached_position("lose").unwrap().current_value, d(7, 0));
    assert!(engine.cached_position("win").is_some());
    assert!(engine.cached_position("other").is_none());
}

#[test]
fn hold_small_gain_is_quiet() {
    let mut engine = HoldEngine::new(ZombieConfig { enabled: true, ..ZombieConfig::default() });
    let ps = vec![position("m", "YES", d(10, 0), d(5, 1), d(52, 1))];
    let r = engine.review_positions(&ps).unwrap();
    assert_eq!(r[0].verdict, HoldVerdict::Quiet);
}

#[test]
fn hold_disabled_does_nothing() {
    let mut engine = HoldEngine::new(ZombieConfig::default());
    let ps = vec![position("m", "YES", d(10, 0), d(5, 1), d(6, 0))];
    assert!(engine.review_positions(&ps).unwrap().is_empty());
    assert!(engine.cached_position("m").is_none());
}

#[test]
fn hold_overflow_keeps_cache() {
    let mut engine = HoldEngine::new(ZombieConfig { enabled: true, ..ZombieConfig::default() });
    let tiny = Dec::from_i128_with_scale(1, 28).unwrap();
    let ps = vec![
        position("ok", "YES", d(10, 0), d(5, 1), d(6, 0)),
        position("bad", "YES", tiny, d(5, 1), max_dec()),
    ];
    assert_eq!(engine.review_positions(&ps).err(), Some(ArithmeticOverflow));
    assert!(engine.cached_position("ok").is_none());
}

#[test]
fn farming_buys_near_expiry_in_band() {
    let engine = FarmingEngine::new(FarmingConfig { enabled: true, ..FarmingConfig::default() });
    let now = Timestamp { secs: 1_700_000_000, nanos: 0 };
    let markets = vec![
        market("soon", "x", d(5, 1), d(95, 2), Dec::zero(), 1_700_000_000 + 30 * 60),
        market("late", "x", d(5, 1), d(5, 1), Dec::zero(), 1_700_000_000 + 61 * 60),
        market("past", "x", d(5, 1), d(5, 1), Dec::zero(), 1_700_000_000 - 60),
        market("edge", "x", d(1, 1), d(3, 1), Dec::zero(), 1_700_000_000 + 60 * 60),
        market("now", "x", d(5, 1), d(5, 1), Dec::zero(), 1_700_000_000 + 59),
    ];
    let orders = engine.farming_orders(&markets, &now);
    assert_eq!(orders.len(), 2);
    assert_eq!(orders[0].token_id, "soon");
    assert!(orders[0].price.value_eq(&d(5, 1)));
    assert_eq!(orders[1].token_id, "edge");
    assert!(orders[1].price.value_eq(&d(3, 1)));
    for o in &orders {
        assert_eq!(o.side, OrderSide::Buy);
        assert!(!o.post_only);
        assert_eq!(o.size, d(100, 0));
    }
}

#[test]
fn farming_disabled_gives_nothing() {
    let engine = FarmingEngine::new(FarmingConfig::default());
    let now = Timestamp { secs: 1_700_000_000, nanos: 0 };
    let markets = vec![market("soon", "x", d(5, 1), d(5, 1), Dec::zero(), 1_700_000_000 + 600)];
    assert!(engine.farming_orders(&markets, &now).is_empty());
}

#[test]
fn synthetic_sell_sides() {
    let engine = SyntheticSellEngine::new();
    let price = d(45, 2);
    let cases = [("YES", OrderSide::Sell), ("Buy", OrderSide::Sell), ("NO", OrderSide::Buy), ("Sell", OrderSide::Buy), ("maybe", OrderSide::Sell)];
    for (side, expected) in cases {
        let p = position("m", side, d(3, 0), d(5, 1), d(1, 0));
        let o = engine.synthetic_sell(&p, price);
        assert_eq!(o.side, expected);
        assert_eq!(o.token_id, "m");
        assert_eq!(o.price, price);
        assert_eq!(o.size, d(3, 0));
        assert!(!o.post_only);
    }
}

#[test]
fn hft_update_then_read() {
    let mut engine = HftEngine::new(HftConfig { enabled: true, ..HftConfig::default() });
    assert!(engine.latest_price("tok").is_none());
    let check = engine.on_price_update(&PriceUpdate { token_id: "tok".to_string(), price: d(42, 2) });
    assert!(check);
    assert_eq!(engine.latest_price("tok"), Some(d(42, 2)));
    engine.on_price_update(&PriceUpdate { token_id: "other".to_string(), price: d(1, 1) });
    engine.on_price_update(&PriceUpdate { token_id: "tok".to_string(), price: d(43, 2) });
    assert_eq!(engine.latest_price("tok"), Some(d(43, 2)));
    assert_eq!(engine.latest_price("other"), Some(d(1, 1)));
}

#[test]
fn hft_disabled_or_zero_threshold() {
    let mut off = HftEngine::new(HftConfig::default());
    assert!(!off.is_enabled());
    assert!(!off.on_price_update(&PriceUpdate { token_id: "tok".to_string(), price: d(5, 1) }));
    assert!(off.latest_price("tok").is_none());
    let mut zero = HftEngine::new(HftConfig { enabled: true, arbitrage_threshold: Dec::zero(), ..HftConfig::default() });
    assert!(!zero.on_price_update(&PriceUpdate { token_id: "tok".to_string(), price: d(5, 1) }));
    assert_eq!(zero.latest_price("tok"), Some(d(5, 1)));
}

#[test]
fn raising_the_threshold_adds_no_signal() {
    // An expensive YES whose edge (0.08) is below a threshold of 0.1 stays without a signal
    // at the higher thresholds 0.2 and 0.5.
    let m = market("m4", "x", d(9, 1), d(5, 1), Dec::zero(), 0);
    for t in [d(1, 1), d(2, 1), d(5, 1)] {
        assert!(MispricingEngine::new(&trading(t)).calculate_ev(&m).is_none());
    }
    // A cheap YES with edge 0.098 signals at 0.05 but not at 0.1.
    let cheap = market("m5", "x", d(1, 2), d(99, 2), Dec::zero(), 0);
    assert!(MispricingEngine::new(&trading(d(5, 2))).calculate_ev(&cheap).is_some());
    assert!(MispricingEngine::new(&trading(d(1, 1))).calculate_ev(&cheap).is_none());
}

#[test]
fn signal_edge_is_estimate_against_price() {
    let engine = MispricingEngine::new(&trading(d(5, 2)));
    let m = market("m3", "x", d(9, 1), d(5, 1), Dec::zero(), 0);
    let est = engine.estimate_true_probability(&m).unwrap();
    let s = engine.calculate_ev(&m).unwrap();
    // An expensive YES earns yes - estimate = 0.9 - 0.82.
    assert!(s.ev.value_eq(&d(9, 1).checked_sub(est).unwrap()));
    assert!(s.ev.gt(&d(5, 2)));
}

#[test]
fn maker_quotes_follow_the_mid_value() {
    let engine = MarketMakingEngine::new(&TradingConfig::default());
    let a = engine.generate_maker_orders(&book(d(5, 1)));
    let mut other = book(d(500, 3));
    other.market_id = "another".to_string();
    other.best_bid = d(4, 1);
    other.spread = d(2, 1);
    let b = engine.generate_maker_orders(&other);
    assert_eq!(a.len(), b.len());
    for (x, y) in a.iter().zip(b.iter()) {
        assert_eq!(x.side, y.side);
        assert_eq!(x.token_id, y.token_id);
        assert!(x.price.value_eq(&y.price));
        assert_eq!(x.size, y.size);
    }
    // The representation follows the larger scale: 0.500 - 0.02 is 0.480.
    assert_eq!(b[0].price.scale(), 3);
}

#[test]
fn maker_quotes_follow_the_mid_value_above_one() {
    // Mid prices 5 and 5.000: both quotes are equal in value; the bid survives, the ask is
    // capped at one and dropped.
    let engine = MarketMakingEngine::new(&TradingConfig::default());
    let a = engine.generate_maker_orders(&book(d(5, 0)));
    let b = engine.generate_maker_orders(&book(d(5000, 3)));
    assert_eq!(a.len(), 1);
    assert_eq!(b.len(), 1);
    assert_eq!(a[0].side, OrderSide::Buy);
    assert!(a[0].price.value_eq(&b[0].price));
    assert!(a[0].price.value_eq(&d(498, 2)));
}
