//! Synthetic selling: leaving a position by buying the opposing side instead of selling.
use vstd::prelude::*;
use crate::decimal::Dec;
use crate::types::{OrderSide, PlannedOrder, Position};
use crate::text::str_eq;

verus! {

/// Exits positions through the opposing side of the market.
#[derive(Debug)]
pub struct SyntheticSellEngine {}

/// The side of the exit order for a position held on `side`: a held YES (or buy) is left with
/// a sell, a held NO (or sell) with a buy, and any other side with a sell.
pub open spec fn exit_side(side: Seq<char>) -> OrderSide {
    if side == "YES"@ || side == "Buy"@ {
        OrderSide::Sell
    } else if side == "NO"@ || side == "Sell"@ {
        OrderSide::Buy
    } else {
        OrderSide::Sell
    }
}

/// A held YES or buy is exited by selling; a held NO or sell is exited by buying.
pub proof fn law_exit_opposes_holding()
    ensures
        exit_side("YES"@) == OrderSide::Sell,
        exit_side("Buy"@) == OrderSide::Sell,
        exit_side("NO"@) == OrderSide::Buy,
        exit_side("Sell"@) == OrderSide::Buy,
{
    reveal_strlit("YES");
    reveal_strlit("Buy");
    reveal_strlit("NO");
    reveal_strlit("Sell");
    assert("NO"@.len() == 2 && "YES"@.len() == 3);
    assert("NO"@ != "YES"@);
    assert("NO"@ != "Buy"@);
    assert("Sell"@.len() == 4);
    assert("Sell"@ != "YES"@);
    assert("Sell"@ != "Buy"@);
}

impl SyntheticSellEngine {
    /// An engine.
    pub fn new() -> (e: SyntheticSellEngine) {
        SyntheticSellEngine {  }
    }

    /// The order that exits the position at the opposing price: on the position's market, for
    /// its whole size, not post-only, on the side `exit_side` picks.
    pub fn synthetic_sell(&self, position: &Position, opposing_price: Dec) -> (r: PlannedOrder)
        ensures
            r.token_id == position.market_id,
            r.side == exit_side(position.side@),
            r.price == opposing_price,
            r.size == position.size,
            !r.post_only,
    {
        let s = position.side.as_str();
        let side = if str_eq(s, "YES") || str_eq(s, "Buy") {
            OrderSide::Sell
        } else if str_eq(s, "NO") || str_eq(s, "Sell") {
            OrderSide::Buy
        } else {
            OrderSide::Sell
        };
        PlannedOrder {
            token_id: position.market_id.clone(),
            side,
            price: opposing_price,
            size: position.size,
            post_only: false,
        }
    }
}

} // verus!
