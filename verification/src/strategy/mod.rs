pub mod mispricing;
pub mod market_making;
pub mod hedging;
pub mod hold;
pub mod farming;
pub mod synthetic;
pub mod hft;
pub mod engine;
