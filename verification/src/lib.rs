//! Decision logic of a prediction-market trading bot: market parsing, mispricing and
//! market-making signals, hedging, holding, farming and order bookkeeping.
pub mod decimal;
pub mod time;
pub mod text;
pub mod store;
pub mod types;
pub mod config;
pub mod strategy;
pub mod order;
pub mod client;
pub mod logger;
pub mod backtest;
