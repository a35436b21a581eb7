use std::collections::VecDeque;

use polymarket_rn1_bot::backtest::HistoricalMarket;
use polymarket_rn1_bot::client::gamma::{GammaClient, MarketNotFound, RawMarket};
use polymarket_rn1_bot::client::sportmonks::SportmonksClient;
use polymarket_rn1_bot::client::sportradar::SportradarClient;
use polymarket_rn1_bot::config::{Config, FarmingConfig, HedgingConfig, HftConfig, RiskConfig, TradingConfig, ZombieConfig};
use polymarket_rn1_bot::decimal::Dec;
use polymarket_rn1_bot::logger::SheetLogger;
use polymarket_rn1_bot::order::manager::{OrderManager, PlaceOutcome};
use polymarket_rn1_bot::order::paper_executor::PaperAccount;
use polymarket_rn1_bot::strategy::engine::TradingEngine;
use polymarket_rn1_bot::time::Timestamp;
use polymarket_rn1_bot::types::{MarketData, Order, OrderBook, OrderSide, OrderStatus};

fn d(m: i64, s: u32) -> Dec {
    Dec::new(m, s)
}

fn s(x: &str) -> Option<String> {
    Some(x.to_string())
}

fn raw(id: &str, category: Option<String>, volume: Option<String>) -> RawMarket {
    RawMarket {
        id: s(id),
        slug: s("lakers-celtics"),
        question: s("Who wins?"),
        category,
        volume,
        yes_price: s("0.35"),
        no_price: None,
        liquidity: s("250.5"),
        end_date: s("2024-01-01T00:00:00Z"),
        active: Some(false),
    }
}

#[test]
fn defaults_match_the_documented_config() {
    let t = TradingConfig::default();
    assert_eq!(t.max_markets, 10);
    assert_eq!(t.scan_interval_ms, 1000);
    assert_eq!(t.min_liquidity, d(1000, 0));
    assert_eq!(t.mispricing_low_threshold, d(5, 2));
    assert_eq!(t.mispricing_high_threshold, d(15, 2));
    assert_eq!(t.min_ev_threshold, d(5, 1));
    assert_eq!(t.maker_spread, d(2, 2));
    assert_eq!(t.max_orders_per_market, 5);
    assert_eq!(t.order_size, d(10, 0));
    assert!(t.hold_to_settlement);
    assert_eq!(t.max_active_positions, 20);
    assert!(!t.paper_mode);
    assert_eq!(t.paper_balance, d(10000, 0));
    let h = HftConfig::default();
    assert!(!h.enabled);
    assert_eq!(h.arbitrage_threshold, d(1, 2));
    assert_eq!(h.latency_ms, 10);
    assert_eq!(h.max_arb_size, d(50, 0));
    let g = HedgingConfig::default();
    assert_eq!((g.enabled, g.max_correlation, g.hedge_ratio), (false, d(8, 1), d(5, 1)));
    let z = ZombieConfig::default();
    assert_eq!((z.enabled, z.profit_take_threshold, z.ignore_losses), (false, d(1, 1), true));
    let f = FarmingConfig::default();
    assert_eq!((f.enabled, f.min_price, f.max_price, f.farm_size, f.expiry_window_minutes), (false, d(1, 1), d(9, 1), d(100, 0), 60));
    let r = RiskConfig::default();
    assert_eq!((r.max_position_value, r.max_drawdown, r.max_order_size, r.min_price, r.max_price), (d(1000, 0), d(1, 1), d(100, 0), d(1, 2), d(99, 2)));
    let c = Config::default();
    assert_eq!(c.polymarket.clob_api_url, "https://clob.polymarket.com/api");
    assert_eq!(c.polymarket.gamma_api_url, "https://gamma-api.polymarket.com");
    assert_eq!(c.polymarket.ws_url, "wss://ws-subscriptions-clob.polymarket.com/ws/market");
    assert_eq!(c.polymarket.api_key, "");
    assert_eq!(c.trading.order_size, d(10, 0));
}

fn order(id: &str, status: OrderStatus) -> Order {
    Order {
        order_id: id.to_string(),
        market_id: "m".to_string(),
        token_id: "t".to_string(),
        side: OrderSide::Buy,
        price: d(5, 1),
        size: d(10, 0),
        filled_size: d(4, 0),
        status,
    }
}

#[test]
fn order_remaining_and_activity() {
    let o = order("o1", OrderStatus::PartiallyFilled);
    assert!(o.remaining_size().value_eq(&d(6, 0)));
    assert!(o.checked_remaining_size().unwrap().value_eq(&d(6, 0)));
    assert!(o.is_active());
    assert!(order("o", OrderStatus::Open).is_active());
    for st in [OrderStatus::Filled, OrderStatus::Cancelled, OrderStatus::Rejected, OrderStatus::Expired] {
        assert!(!order("o", st).is_active());
    }
}

#[test]
fn order_book_depth_and_liquidity() {
    let empty = OrderBook::new("m".to_string(), "t".to_string());
    assert!(empty.bids.is_empty() && empty.asks.is_empty());
    assert_eq!(empty.mid_price, Dec::zero());
    assert!(empty.total_liquidity().value_eq(&Dec::zero()));
    let mut b = OrderBook::new("m".to_string(), "t".to_string());
    b.bids = VecDeque::from(vec![(d(49, 2), d(10, 0)), (d(48, 2), d(5, 0)), (d(47, 2), d(25, 1))]);
    b.asks = VecDeque::from(vec![(d(51, 2), d(1, 0))]);
    let (bids, asks) = b.depth(2);
    assert_eq!(bids, vec![(d(49, 2), d(10, 0)), (d(48, 2), d(5, 0))]);
    assert_eq!(asks, vec![(d(51, 2), d(1, 0))]);
    let (all, _) = b.depth(10);
    assert_eq!(all.len(), 3);
    assert!(b.total_liquidity().value_eq(&d(185, 1)));
}

#[test]
fn paper_orders_fill_at_once() {
    let om = OrderManager::new_paper();
    assert!(om.is_paper());
    let at = Timestamp { secs: 1_700_000_000, nanos: 0 };
    match om.place_order("tok", OrderSide::Sell, d(4, 1), d(7, 0), true, &at) {
        PlaceOutcome::PaperFilled(o) => {
            assert_eq!(o.market_id, "paper_tok");
            assert_eq!(o.order_id, "paper_tok_1700000000");
            assert_eq!(o.token_id, "tok");
            assert_eq!(o.side, OrderSide::Sell);
            assert_eq!(o.filled_size, o.size);
            assert_eq!(o.status, OrderStatus::Filled);
        }
        PlaceOutcome::SendToExchange(_) => panic!("paper mode sends nothing"),
    }
}

#[test]
fn live_orders_go_to_the_exchange_and_are_recorded() {
    let mut om = OrderManager::new_real();
    let at = Timestamp { secs: 5, nanos: 0 };
    match om.place_order("tok", OrderSide::Buy, d(4, 1), d(7, 0), true, &at) {
        PlaceOutcome::SendToExchange(p) => {
            assert_eq!(p.token_id, "tok");
            assert_eq!(p.side, OrderSide::Buy);
            assert!(p.post_only);
        }
        PlaceOutcome::PaperFilled(_) => panic!("live mode simulates nothing"),
    }
    om.record_exchange_order(order("o1", OrderStatus::Open));
    om.record_exchange_order(order("o2", OrderStatus::Open));
    om.record_exchange_order(order("o1", OrderStatus::Filled));
    assert_eq!(om.active_order("o1").unwrap().status, OrderStatus::Filled);
    assert_eq!(om.active_order("o2").unwrap().status, OrderStatus::Open);
    assert!(om.active_order("o3").is_none());
    assert!(om.cancel_all());
    assert!(om.active_order("o2").is_some());
    om.confirm_cancelled();
    assert!(om.active_order("o1").is_none());
    assert!(om.active_order("o2").is_none());
}

#[test]
fn paper_cancel_forgets_at_once() {
    let mut om = OrderManager::new_paper();
    om.record_exchange_order(order("o1", OrderStatus::Open));
    assert!(!om.cancel_all());
    assert!(om.active_order("o1").is_none());
}

#[test]
fn engine_follows_the_mode() {
    let mut config = Config::default();
    config.trading.paper_mode = true;
    let engine = TradingEngine::new(config);
    assert!(engine.order_manager.is_paper());
    let live = TradingEngine::new(Config::default());
    assert!(!live.order_manager.is_paper());
    let mut b1 = OrderBook::new("m1".to_string(), "t1".to_string());
    b1.mid_price = d(5, 1);
    let mut b2 = OrderBook::new("m2".to_string(), "t2".to_string());
    b2.mid_price = d(1, 2);
    let orders = live.scan_maker_orders(&vec![b1, b2]).unwrap();
    assert_eq!(orders.len(), 3);
    assert_eq!(orders[0].token_id, "t1");
    assert_eq!(orders[2].token_id, "t2");
    assert_eq!(orders[2].side, OrderSide::Sell);
}

#[test]
fn paper_account_starts_with_its_balance() {
    let a = PaperAccount::new(d(10000, 0));
    assert_eq!(a.balance, d(10000, 0));
    assert_eq!(a.positions.len(), 0);
    assert_eq!(a.trade_count, 0);
}

#[test]
fn gamma_addresses() {
    let g = GammaClient::new("https://gamma-api.polymarket.com");
    assert_eq!(g.active_markets_url(100), "https://gamma-api.polymarket.com/markets?active=true&limit=100");
    assert_eq!(g.market_details_url("abc"), "https://gamma-api.polymarket.com/markets/abc");
}

#[test]
fn gamma_selects_sports_markets_with_volume() {
    let g = GammaClient::new("x");
    let at = Timestamp { secs: 42, nanos: 0 };
    let raws = vec![
        raw("a", s("sports"), s("1500")),
        raw("b", s("politics"), s("99999")),
        raw("c", s("Sports"), s("999.99")),
        raw("d", s("sport"), s("1000")),
        raw("e", None, s("5000")),
        raw("f", s("sports"), None),
        raw("g", s("sports"), s("lots")),
        raw("h", s("SPORTS"), s("5000")),
    ];
    let ms = g.select_active_markets(&raws, Dec::zero(), &at);
    let ids: Vec<&str> = ms.iter().map(|m| m.market_id.as_str()).collect();
    assert_eq!(ids, vec!["a", "d"]);
    let m = &ms[0];
    assert_eq!(m.slug, "lakers-celtics");
    assert_eq!(m.question, "Who wins?");
    assert!(m.yes_price.value_eq(&d(35, 2)));
    assert!(m.no_price.value_eq(&d(5, 1)));
    assert!(m.volume.value_eq(&d(1500, 0)));
    assert!(m.liquidity.value_eq(&d(2505, 1)));
    assert!(m.active);
    assert_eq!(m.end_date, Timestamp { secs: 1_704_067_200, nanos: 0 });
}

#[test]
fn gamma_defaults_for_missing_fields() {
    let g = GammaClient::new("x");
    let at = Timestamp { secs: 42, nanos: 7 };
    let r = RawMarket {
        id: None,
        slug: None,
        question: None,
        category: s("sports"),
        volume: s("2000"),
        yes_price: s("n/a"),
        no_price: None,
        liquidity: None,
        end_date: s("tomorrow"),
        active: None,
    };
    let ms = g.select_active_markets(&vec![r], Dec::zero(), &at);
    assert_eq!(ms.len(), 1);
    let m = &ms[0];
    assert_eq!(m.market_id, "");
    assert!(m.yes_price.value_eq(&d(5, 1)));
    assert!(m.no_price.value_eq(&d(5, 1)));
    assert!(m.liquidity.value_eq(&Dec::zero()));
    assert_eq!(m.end_date, at);
}

#[test]
fn gamma_drops_markets_below_min_liquidity() {
    let g = GammaClient::new("x");
    let at = Timestamp { secs: 42, nanos: 0 };
    let mut thin = raw("thin", s("sports"), s("5000"));
    thin.liquidity = s("10");
    let mut exact = raw("exact", s("sports"), s("5000"));
    exact.liquidity = s("1000");
    let mut deep = raw("deep", s("sports"), s("5000"));
    deep.liquidity = s("25000.75");
    let mut none = raw("none", s("sports"), s("5000"));
    none.liquidity = None;
    let raws = vec![thin, exact, deep, none];
    let ms = g.select_active_markets(&raws, d(1000, 0), &at);
    let ids: Vec<&str> = ms.iter().map(|m| m.market_id.as_str()).collect();
    assert_eq!(ids, vec!["exact", "deep"]);
    let all = g.select_active_markets(&raws, Dec::zero(), &at);
    assert_eq!(all.len(), 4);
    let now_ms = g.select_active_markets_now(&raws, d(1000, 0));
    assert_eq!(now_ms.len(), 2);
}

#[test]
fn gamma_market_details() {
    let g = GammaClient::new("x");
    let at = Timestamp { secs: 1, nanos: 0 };
    assert_eq!(g.market_details(None, &at).err(), Some(MarketNotFound));
    let mut r = raw("z", s("politics"), s("10"));
    let m = g.market_details(Some(&r), &at).unwrap();
    assert_eq!(m.market_id, "z");
    assert!(!m.active);
    assert!(m.volume.value_eq(&d(10, 0)));
    r.active = None;
    assert!(!g.market_details(Some(&r), &at).unwrap().active);
    r.active = Some(true);
    assert!(g.market_details(Some(&r), &at).unwrap().active);
}

#[test]
fn sportradar_urls() {
    let c = SportradarClient::new("KEY".to_string());
    assert_eq!(c.build_url("nba", "/games/live"), "https://api.sportradar.com/nba/trial/v7/en/games/live?api_key=KEY");
    assert_eq!(c.build_url("mlb", "/x"), "https://api.sportradar.com/mlb/trial/v7/en/x?api_key=KEY");
    assert_eq!(c.build_url("global_basketball", "/x"), "https://api.sportradar.com/global-basketball/trial/v7/en/x?api_key=KEY");
    assert_eq!(c.build_url("soccer", "/x"), "https://api.sportradar.com/soccer/trial/v4/en/x?api_key=KEY");
    assert_eq!(c.build_url("curling", "/x"), "https://api.sportradar.com/soccer/trial/v4/en/x?api_key=KEY");
    assert_eq!(c.live_games_url("nba"), "https://api.sportradar.com/nba/trial/v7/en/games/live?api_key=KEY");
}

#[test]
fn sportmonks_url() {
    let c = SportmonksClient::new("TOK".to_string());
    assert_eq!(c.live_matches_url(), "https://api.sportmonks.com/v3/football/fixtures/live?api_token=TOK&include=participants;scores");
}

#[test]
fn trade_log_lines() {
    let l = SheetLogger::for_sheet("abc");
    assert_eq!(l.log_file(), "logs/trades_abc.csv");
    assert_eq!(SheetLogger::header(), "timestamp,market_id,side,price,size,status");
    let row = vec!["t".to_string(), "m".to_string(), "BUY".to_string()];
    assert_eq!(SheetLogger::row_line(&row), "t,m,BUY");
}

#[test]
fn historical_market_data() {
    let hm = HistoricalMarket {
        timestamp: Timestamp::from_secs(1_600_000_000),
        market_id: "h1".to_string(),
        slug: "lakers-celtics".to_string(),
        yes_price: d(3, 1),
        no_price: d(7, 1),
        volume: d(1234, 0),
        resolved: true,
        outcome_yes: false,
    };
    let m = MarketData::from_historical(&hm);
    assert_eq!(m.market_id, "h1");
    assert_eq!(m.question, "Historical: lakers-celtics");
    assert_eq!(m.liquidity, Dec::zero());
    assert!(!m.active);
    assert_eq!(m.end_date, hm.timestamp);
    assert_eq!(m.implied_probability(), d(3, 1));
    assert!(m.is_expired());
    assert!(!m.is_expired_at(&Timestamp::from_secs(1_500_000_000)));
}
