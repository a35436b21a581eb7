//! Historical markets for backtesting.
use vstd::prelude::*;
use crate::decimal::Dec;
use crate::time::Timestamp;
use crate::types::MarketData;
use crate::text::concat_text;

verus! {

/// A market as a historical record saw it.
#[derive(Debug)]
pub struct HistoricalMarket {
    pub timestamp: Timestamp,
    pub market_id: String,
    pub slug: String,
    pub yes_price: Dec,
    pub no_price: Dec,
    pub volume: Dec,
    pub resolved: bool,
    pub outcome_yes: bool,
}

impl MarketData {
    /// The market data of a historical record: its ids, prices and volume, the question
    /// `Historical: <slug>`, no liquidity, inactive, ending at the record's instant.
    pub fn from_historical(hm: &HistoricalMarket) -> (m: MarketData)
        ensures
            m.market_id == hm.market_id,
            m.slug == hm.slug,
            m.question@ == "Historical: "@ + hm.slug@,
            m.yes_price == hm.yes_price,
            m.no_price == hm.no_price,
            m.volume == hm.volume,
            m.liquidity == Dec::lit(0, 0),
            !m.active,
            m.end_date == hm.timestamp,
    {
        MarketData {
            market_id: hm.market_id.clone(),
            slug: hm.slug.clone(),
            question: concat_text("Historical: ", hm.slug.as_str()),
            yes_price: hm.yes_price,
            no_price: hm.no_price,
            volume: hm.volume,
            liquidity: Dec::zero(),
            active: false,
            end_date: hm.timestamp,
        }
    }
}

} // verus!
