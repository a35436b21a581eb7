//! Configuration of the bot and its defaults.
use vstd::prelude::*;
use vstd::string::*;
use crate::decimal::Dec;

verus! {

/// Where the bot reaches the exchange, and its credentials.
#[derive(Debug)]
pub struct PolymarketConfig {
    pub clob_api_url: String,
    pub gamma_api_url: String,
    pub ws_url: String,
    pub api_key: String,
    pub api_secret: String,
    pub api_passphrase: String,
    pub private_key: String,
}

/// How the bot scans markets and sizes its orders.
#[derive(Clone, Copy, Debug)]
pub struct TradingConfig {
    pub max_markets: usize,
    pub scan_interval_ms: u64,
    pub min_liquidity: Dec,
    pub mispricing_low_threshold: Dec,
    pub mispricing_high_threshold: Dec,
    pub min_ev_threshold: Dec,
    pub maker_spread: Dec,
    pub max_orders_per_market: usize,
    pub order_size: Dec,
    pub hold_to_settlement: bool,
    pub max_active_positions: usize,
    pub paper_mode: bool,
    pub paper_balance: Dec,
}

impl Default for TradingConfig {
    fn default() -> (r: Self)
        ensures
            r.max_markets == 10,
            r.scan_interval_ms == 1000,
            r.min_liquidity == Dec::lit(1000, 0),
            r.mispricing_low_threshold == Dec::lit(5, 2),
            r.mispricing_high_threshold == Dec::lit(15, 2),
            r.min_ev_threshold == Dec::lit(5, 1),
            r.maker_spread == Dec::lit(2, 2),
            r.max_orders_per_market == 5,
            r.order_size == Dec::lit(10, 0),
            r.hold_to_settlement,
            r.max_active_positions == 20,
            !r.paper_mode,
            r.paper_balance == Dec::lit(10000, 0),
    {
        TradingConfig {
            max_markets: 10,
            scan_interval_ms: 1000,
            min_liquidity: Dec::new(1000, 0),
            mispricing_low_threshold: Dec::new(5, 2),
            mispricing_high_threshold: Dec::new(15, 2),
            min_ev_threshold: Dec::new(5, 1),
            maker_spread: Dec::new(2, 2),
            max_orders_per_market: 5,
            order_size: Dec::new(10, 0),
            hold_to_settlement: true,
            max_active_positions: 20,
            paper_mode: false,
            paper_balance: Dec::new(10000, 0),
        }
    }
}

/// Settings of the high-frequency engine.
#[derive(Clone, Copy, Debug)]
pub struct HftConfig {
    pub enabled: bool,
    pub arbitrage_threshold: Dec,
    pub latency_ms: u64,
    pub max_arb_size: Dec,
}

impl Default for HftConfig {
    fn default() -> (r: Self)
        ensures
            !r.enabled,
            r.arbitrage_threshold == Dec::lit(1, 2),
            r.latency_ms == 10,
            r.max_arb_size == Dec::lit(50, 0),
    {
        HftConfig {
            enabled: false,
            arbitrage_threshold: Dec::new(1, 2),
            latency_ms: 10,
            max_arb_size: Dec::new(50, 0),
        }
    }
}

/// Settings of the hedging engine.
#[derive(Clone, Copy, Debug)]
pub struct HedgingConfig {
    pub enabled: bool,
    pub max_correlation: Dec,
    pub hedge_ratio: Dec,
}

impl Default for HedgingConfig {
    fn default() -> (r: Self)
        ensures
            !r.enabled,
            r.max_correlation == Dec::lit(8, 1),
            r.hedge_ratio == Dec::lit(5, 1),
    {
        HedgingConfig { enabled: false, max_correlation: Dec::new(8, 1), hedge_ratio: Dec::new(5, 1) }
    }
}

/// Settings of the hold-to-settlement engine.
#[derive(Clone, Copy, Debug)]
pub struct ZombieConfig {
    pub enabled: bool,
    pub profit_take_threshold: Dec,
    pub ignore_losses: bool,
}

impl Default for ZombieConfig {
    fn default() -> (r: Self)
        ensures
            !r.enabled,
            r.profit_take_threshold == Dec::lit(1, 1),
            r.ignore_losses,
    {
        ZombieConfig { enabled: false, profit_take_threshold: Dec::new(1, 1), ignore_losses: true }
    }
}

/// Settings of the farming engine.
#[derive(Clone, Copy, Debug)]
pub struct FarmingConfig {
    pub enabled: bool,
    pub min_price: Dec,
    pub max_price: Dec,
    pub farm_size: Dec,
    pub expiry_window_minutes: i64,
}

impl Default for FarmingConfig {
    fn default() -> (r: Self)
        ensures
            !r.enabled,
            r.min_price == Dec::lit(1, 1),
            r.max_price == Dec::lit(9, 1),
            r.farm_size == Dec::lit(100, 0),
            r.expiry_window_minutes == 60,
    {
        FarmingConfig {
            enabled: false,
            min_price: Dec::new(1, 1),
            max_price: Dec::new(9, 1),
            farm_size: Dec::new(100, 0),
            expiry_window_minutes: 60,
        }
    }
}

/// Risk limits.
#[derive(Clone, Copy, Debug)]
pub struct RiskConfig {
    pub max_position_value: Dec,
    pub max_drawdown: Dec,
    pub max_order_size: Dec,
    pub min_price: Dec,
    pub max_price: Dec,
}

impl Default for RiskConfig {
    fn default() -> (r: Self)
        ensures
            r.max_position_value == Dec::lit(1000, 0),
            r.max_drawdown == Dec::lit(1, 1),
            r.max_order_size == Dec::lit(100, 0),
            r.min_price == Dec::lit(1, 2),
            r.max_price == Dec::lit(99, 2),
    {
        RiskConfig {
            max_position_value: Dec::new(1000, 0),
            max_drawdown: Dec::new(1, 1),
            max_order_size: Dec::new(100, 0),
            min_price: Dec::new(1, 2),
            max_price: Dec::new(99, 2),
        }
    }
}

/// The whole configuration of the bot.
#[derive(Debug)]
pub struct Config {
    pub polymarket: PolymarketConfig,
    pub trading: TradingConfig,
    pub hft: HftConfig,
    pub hedging: HedgingConfig,
    pub zombie: ZombieConfig,
    pub farming: FarmingConfig,
    pub risk: RiskConfig,
}

impl Default for Config {
    fn default() -> (r: Self)
        ensures
            r.polymarket.clob_api_url@ == "https://clob.polymarket.com/api"@,
            r.polymarket.gamma_api_url@ == "https://gamma-api.polymarket.com"@,
            r.polymarket.ws_url@ == "wss://ws-subscriptions-clob.polymarket.com/ws/market"@,
            r.polymarket.api_key@ == Seq::<char>::empty(),
            r.polymarket.api_secret@ == Seq::<char>::empty(),
            r.polymarket.api_passphrase@ == Seq::<char>::empty(),
            r.polymarket.private_key@ == Seq::<char>::empty(),
            r.trading.max_markets == 10,
            r.trading.scan_interval_ms == 1000,
            r.trading.min_liquidity == Dec::lit(1000, 0),
            r.trading.mispricing_low_threshold == Dec::lit(5, 2),
            r.trading.mispricing_high_threshold == Dec::lit(15, 2),
            r.trading.min_ev_threshold == Dec::lit(5, 1),
            r.trading.maker_spread == Dec::lit(2, 2),
            r.trading.max_orders_per_market == 5,
            r.trading.order_size == Dec::lit(10, 0),
            r.trading.hold_to_settlement,
            r.trading.max_active_positions == 20,
            !r.trading.paper_mode,
            r.trading.paper_balance == Dec::lit(10000, 0),
            !r.hft.enabled,
            r.hft.arbitrage_threshold == Dec::lit(1, 2),
            r.hft.latency_ms == 10,
            r.hft.max_arb_size == Dec::lit(50, 0),
            !r.hedging.enabled,
            r.hedging.max_correlation == Dec::lit(8, 1),
            r.hedging.hedge_ratio == Dec::lit(5, 1),
            !r.zombie.enabled,
            r.zombie.profit_take_threshold == Dec::lit(1, 1),
            r.zombie.ignore_losses,
            !r.farming.enabled,
            r.farming.min_price == Dec::lit(1, 1),
            r.farming.max_price == Dec::lit(9, 1),
            r.farming.farm_size == Dec::lit(100, 0),
            r.farming.expiry_window_minutes == 60,
            r.risk.max_position_value == Dec::lit(1000, 0),
            r.risk.max_drawdown == Dec::lit(1, 1),
            r.risk.max_order_size == Dec::lit(100, 0),
            r.risk.min_price == Dec::lit(1, 2),
            r.risk.max_price == Dec::lit(99, 2),
    {
        proof {
            reveal_strlit("");
        }
        Config {
            polymarket: PolymarketConfig {
                clob_api_url: String::from_str("https://clob.polymarket.com/api"),
                gamma_api_url: String::from_str("https://gamma-api.polymarket.com"),
                ws_url: String::from_str("wss://ws-subscriptions-clob.polymarket.com/ws/market"),
                api_key: String::from_str(""),
                api_secret: String::from_str(""),
                api_passphrase: String::from_str(""),
                private_key: String::from_str(""),
            },
            trading: TradingConfig::default(),
            hft: HftConfig::default(),
            hedging: HedgingConfig::default(),
            zombie: ZombieConfig::default(),
            farming: FarmingConfig::default(),
            risk: RiskConfig::default(),
        }
    }
}

} // verus!
