//! The state of a simulated trading account.
use vstd::prelude::*;
use crate::decimal::Dec;
use crate::store::{Keyed, KeyedStore};

verus! {

/// A simulated position.
#[derive(Debug)]
pub struct PaperPosition {
    pub market_id: String,
    pub token_id: String,
    pub side: String,
    pub shares: Dec,
    pub avg_price: Dec,
    pub entry_value: Dec,
}

impl Keyed for PaperPosition {
    open spec fn key_of(&self) -> Seq<char> {
        self.market_id@
    }

    fn key(&self) -> (r: &String) {
        &self.market_id
    }
}

/// A simulated account: its cash, its positions (at most one per market) and how many
/// trades it made.
#[derive(Debug)]
pub struct PaperAccount {
    pub balance: Dec,
    pub positions: KeyedStore<PaperPosition>,
    pub trade_count: u64,
}

impl PaperAccount {
    /// An account holding only the starting balance.
    pub fn new(balance: Dec) -> (a: PaperAccount)
        ensures
            a.balance == balance,
            a.positions.contents() == Map::<Seq<char>, PaperPosition>::empty(),
            a.trade_count == 0,
    {
        PaperAccount { balance, positions: KeyedStore::new(), trade_count: 0 }
    }
}

} // verus!
