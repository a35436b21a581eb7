//! The high-frequency engine: it keeps the latest price of every token in a concurrent map
//! and decides, update by update, whether to look for arbitrage.
use vstd::prelude::*;
use dashmap::DashMap;
use crate::decimal::Dec;
use crate::types::PriceUpdate;
use crate::config::HftConfig;

verus! {

/// `dashmap::DashMap`, the concurrent map that holds the latest prices.
#[verifier::external_type_specification]
#[verifier::external_body]
#[verifier::reject_recursive_types(K)]
#[verifier::reject_recursive_types(V)]
#[verifier::reject_recursive_types(S)]
pub struct ExDashMap<K, V, S>(DashMap<K, V, S>);

/// The concurrent map from token to latest price.
pub type PriceCache = DashMap<String, Dec>;

/// What a price cache holds: the latest price of each token, by the token's text.
pub uninterp spec fn price_cache_contents(cache: PriceCache) -> Map<Seq<char>, Dec>;

/// `DashMap::new`. Claimed: the map holds nothing.
#[verifier::external_body]
fn new_price_cache() -> (cache: PriceCache)
    ensures
        price_cache_contents(cache).dom().is_empty(),
{
    DashMap::new()
}

/// `DashMap::insert`. Claimed, as its source shows (it inserts into the `HashMap` of one shard,
/// and `String` keys are equal when their text is): afterwards the key maps to the value and
/// every other key is untouched; the result is the value the key had before, if any.
/// `insert` takes `&self`; the exclusive borrow here makes the change visible to Verus.
#[verifier::external_body]
fn price_cache_insert(c: &mut PriceCache, key: String, value: Dec) -> (prev: Option<Dec>)
    ensures
        price_cache_contents(*final(c)) == price_cache_contents(*old(c)).insert(key@, value),
        prev == (if price_cache_contents(*old(c)).contains_key(key@) {
            Some(price_cache_contents(*old(c))[key@])
        } else {
            None
        }),
{
    c.insert(key, value)
}

/// `DashMap::get`, with the value copied out of the guard it returns. Claimed: the value the key
/// maps to, or `None` where the map has no such key (`String` keys are looked up by their text).
#[verifier::external_body]
fn price_cache_get(c: &PriceCache, key: &str) -> (r: Option<Dec>)
    ensures
        r == (if price_cache_contents(*c).contains_key(key@) {
            Some(price_cache_contents(*c)[key@])
        } else {
            None
        }),
{
    match c.get(key) {
        Some(entry) => Some(*entry.value()),
        None => None,
    }
}

/// Keeps the latest prices and flags updates worth an arbitrage check.
#[derive(Debug)]
pub struct HftEngine {
    config: HftConfig,
    price_cache: PriceCache,
}

impl HftEngine {
    /// The configuration the engine works with.
    pub closed spec fn cfg(self) -> HftConfig {
        self.config
    }

    /// The latest price of each token seen.
    pub closed spec fn prices(self) -> Map<Seq<char>, Dec> {
        price_cache_contents(self.price_cache)
    }

    /// An engine with the configuration and no prices seen.
    pub fn new(config: HftConfig) -> (e: HftEngine)
        ensures
            e.cfg() == config,
            e.prices() == Map::<Seq<char>, Dec>::empty(),
    {
        let e = HftEngine { config, price_cache: new_price_cache() };
        proof {
            assert(e.prices() =~= Map::<Seq<char>, Dec>::empty());
        }
        e
    }

    /// The latest price seen for a token, if any.
    pub fn latest_price(&self, token_id: &str) -> (r: Option<Dec>)
        ensures
            r == (if self.prices().contains_key(token_id@) {
                Some(self.prices()[token_id@])
            } else {
                None
            }),
    {
        price_cache_get(&self.price_cache, token_id)
    }

    /// The engine runs at all: it is enabled.
    pub fn is_enabled(&self) -> (r: bool)
        ensures
            r == self.cfg().enabled,
    {
        self.config.enabled
    }

    /// Takes one price update. When the engine is enabled the token's latest price becomes the
    /// update's, and the result says whether to check for arbitrage (the threshold is above
    /// zero). A disabled engine takes no updates: nothing changes and nothing is checked.
    pub fn on_price_update(&mut self, update: &PriceUpdate) -> (check_arbitrage: bool)
        ensures
            final(self).cfg() == old(self).cfg(),
            old(self).cfg().enabled ==> final(self).prices() == old(self).prices().insert(
                update.token_id@,
                update.price,
            ),
            !old(self).cfg().enabled ==> final(self).prices() == old(self).prices(),
            check_arbitrage == (old(self).cfg().enabled && old(self).cfg().arbitrage_threshold.units()
                > 0),
    {
        if !self.config.enabled {
            return false;
        }
        let _previous = price_cache_insert(&mut self.price_cache, update.token_id.clone(), update.price);
        self.config.arbitrage_threshold.gt(&Dec::zero())
    }
}

/// A price written by an update is the price read back for its token, and the prices of all
/// other tokens stay as they were.
pub proof fn law_update_then_read(before: Map<Seq<char>, Dec>, token: Seq<char>, price: Dec, other: Seq<char>)
    requires
        other != token,
    ensures
        before.insert(token, price)[token] == price,
        before.insert(token, price).contains_key(other) == before.contains_key(other),
        before.contains_key(other) ==> before.insert(token, price)[other] == before[other],
{
}

} // verus!
