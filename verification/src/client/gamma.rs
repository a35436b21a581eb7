//! The market-list service: its addresses, and how its answers become market data.
use vstd::prelude::*;
use vstd::string::*;
use crate::decimal::{Dec, decimal_from_str_exact, decimal_checked_div, lemma_pow10_pos};
use crate::types::MarketData;
use crate::time::{Timestamp, rfc3339_instant, parse_rfc3339, now};
use crate::text::{concat_text, str_eq, usize_to_text, decimal_text};

verus! {

/// One market as the service describes it: each field the text the answer holds there, if it
/// holds text.
#[derive(Debug)]
pub struct RawMarket {
    pub id: Option<String>,
    pub slug: Option<String>,
    pub question: Option<String>,
    pub category: Option<String>,
    pub volume: Option<String>,
    pub yes_price: Option<String>,
    pub no_price: Option<String>,
    pub liquidity: Option<String>,
    pub end_date: Option<String>,
    pub active: Option<bool>,
}

/// The service has no market under the requested id.
#[derive(Clone, Copy, Debug, PartialEq, Eq, Structural)]
pub struct MarketNotFound;

/// Where the market-list service lives.
#[derive(Debug)]
pub struct GammaClient {
    base_url: String,
}

/// The text of a field, or the default where it holds none.
pub open spec fn text_or(field: Option<String>, default: Seq<char>) -> Seq<char> {
    match field {
        Some(s) => s@,
        None => default,
    }
}

/// The text parsed exactly as a decimal, or the default where it does not parse.
pub open spec fn decimal_or(text: Seq<char>, default: Dec) -> Dec {
    match decimal_from_str_exact(text) {
        Some(d) => d,
        None => default,
    }
}

/// One half, `Decimal::from(50) / Decimal::from(100)`.
pub open spec fn half() -> Dec {
    decimal_checked_div(Dec::lit(50, 0), Dec::lit(100, 0))->0
}

/// A sports market: its category is `sports`, `Sports` or `sport`.
pub open spec fn is_sports(category: Seq<char>) -> bool {
    category == "sports"@ || category == "Sports"@ || category == "sport"@
}

/// The traded volume of a market: its text parsed, or zero (a missing text counts as `0`).
pub open spec fn raw_volume(raw: RawMarket) -> Dec {
    decimal_or(text_or(raw.volume, "0"@), Dec::lit(0, 0))
}

/// The liquidity of a market: its text parsed, or zero (a missing text counts as `0`).
pub open spec fn raw_liquidity(raw: RawMarket) -> Dec {
    decimal_or(text_or(raw.liquidity, "0"@), Dec::lit(0, 0))
}

/// The market is kept in the list of active markets: a sports market with a volume of at
/// least 1000 and a liquidity of at least the configured minimum.
pub open spec fn keeps(raw: RawMarket, min_liquidity: Dec) -> bool {
    &&& is_sports(text_or(raw.category, ""@))
    &&& raw_volume(raw).units() >= Dec::lit(1000, 0).units()
    &&& raw_liquidity(raw).units() >= min_liquidity.units()
}

/// The market data read from a description at instant `at`: missing texts become empty, a
/// missing or unparsable price one half, a missing or unparsable liquidity zero, a missing or
/// unparsable end date the instant `at`.
pub open spec fn reads_as(m: MarketData, raw: RawMarket, at: Timestamp, active: bool) -> bool {
    &&& m.market_id@ == text_or(raw.id, ""@)
    &&& m.slug@ == text_or(raw.slug, ""@)
    &&& m.question@ == text_or(raw.question, ""@)
    &&& m.yes_price == decimal_or(text_or(raw.yes_price, "0.5"@), half())
    &&& m.no_price == decimal_or(text_or(raw.no_price, "0.5"@), half())
    &&& m.volume == raw_volume(raw)
    &&& m.liquidity == raw_liquidity(raw)
    &&& m.active == active
    &&& m.end_date == match raw.end_date {
        Some(s) => match rfc3339_instant(s@) {
            Some(t) => t,
            None => at,
        },
        None => at,
    }
}

/// The positions of the kept descriptions, in order.
pub open spec fn kept_indices(raws: Seq<RawMarket>, min_liquidity: Dec) -> Seq<int>
    decreases raws.len(),
{
    if raws.len() == 0 {
        Seq::<int>::empty()
    } else if keeps(raws.last(), min_liquidity) {
        kept_indices(raws.drop_last(), min_liquidity).push(raws.len() - 1)
    } else {
        kept_indices(raws.drop_last(), min_liquidity)
    }
}

/// `ms` are the kept descriptions read at instant `at`, in order.
pub open spec fn is_selection(
    ms: Seq<MarketData>,
    raws: Seq<RawMarket>,
    min_liquidity: Dec,
    at: Timestamp,
) -> bool {
    &&& ms.len() == kept_indices(raws, min_liquidity).len()
    &&& forall|k: int|
        0 <= k < ms.len() ==> reads_as(#[trigger] ms[k], raws[kept_indices(raws, min_liquidity)[k]], at, true)
}

/// The list of active markets is exactly the sports markets with a volume of at least 1000 and
/// a liquidity of at least the configured minimum,
/// in the order they were listed: each kept position holds such a market, positions increase, and
/// every such market is kept.
pub proof fn law_selection_is_liquid_sports_by_volume(raws: Seq<RawMarket>, min_liquidity: Dec)
    ensures
        forall|k: int|
            0 <= k < kept_indices(raws, min_liquidity).len() ==> 0 <= #[trigger] kept_indices(raws, min_liquidity)[k] < raws.len()
                && keeps(raws[kept_indices(raws, min_liquidity)[k]], min_liquidity),
        forall|k1: int, k2: int|
            0 <= k1 < k2 < kept_indices(raws, min_liquidity).len() ==> #[trigger] kept_indices(raws, min_liquidity)[k1]
                < #[trigger] kept_indices(raws, min_liquidity)[k2],
        forall|i: int| 0 <= i < raws.len() && #[trigger] keeps(raws[i], min_liquidity) ==> kept_indices(raws, min_liquidity).contains(i),
    decreases raws.len(),
{
    if raws.len() > 0 {
        let prefix = raws.drop_last();
        law_selection_is_liquid_sports_by_volume(prefix, min_liquidity);
        let kp = kept_indices(prefix, min_liquidity);
        assert forall|k: int| 0 <= k < kp.len() implies raws[kp[k]] == prefix[kp[k]] by {}
        assert forall|i: int| 0 <= i < raws.len() && #[trigger] keeps(raws[i], min_liquidity) implies kept_indices(
            raws,
            min_liquidity,
        ).contains(i) by {
            if i < raws.len() - 1 {
                assert(prefix[i] == raws[i]);
                let k = choose|k: int| 0 <= k < kp.len() && kp[k] == i;
                assert(kept_indices(raws, min_liquidity)[k] == i);
            } else {
                assert(kept_indices(raws, min_liquidity).last() == i);
            }
        }
    }
}

/// The text of an optional field, or the default.
fn field_text(field: &Option<String>, default: &str) -> (r: String)
    ensures
        r@ == text_or(*field, default@),
{
    match field {
        Some(s) => s.clone(),
        None => String::from_str(default),
    }
}

/// The text parsed exactly as a decimal, or the default.
fn parse_or(text: &str, default: Dec) -> (r: Dec)
    ensures
        r == decimal_or(text@, default),
{
    match Dec::from_str_exact(text) {
        Some(d) => d,
        None => default,
    }
}

/// The market data read from a description at instant `at`.
fn read_market(raw: &RawMarket, volume: Dec, at: &Timestamp, active: bool) -> (m: MarketData)
    requires
        volume == raw_volume(*raw),
    ensures
        reads_as(m, *raw, *at, active),
{
    let half = Dec::new(50, 0).checked_div(Dec::new(100, 0));
    proof {
        Dec::lemma_lit(50, 0);
        Dec::lemma_lit(100, 0);
        lemma_pow10_pos(28);
    }
    let half = half.unwrap();
    let yes_text = field_text(&raw.yes_price, "0.5");
    let no_text = field_text(&raw.no_price, "0.5");
    let liquidity_text = field_text(&raw.liquidity, "0");
    let end_date = match &raw.end_date {
        Some(s) => match parse_rfc3339(s.as_str()) {
            Some(t) => t,
            None => *at,
        },
        None => *at,
    };
    MarketData {
        market_id: field_text(&raw.id, ""),
        slug: field_text(&raw.slug, ""),
        question: field_text(&raw.question, ""),
        yes_price: parse_or(yes_text.as_str(), half),
        no_price: parse_or(no_text.as_str(), half),
        volume,
        liquidity: parse_or(liquidity_text.as_str(), Dec::zero()),
        active,
        end_date,
    }
}

impl GammaClient {
    /// The service's base address.
    pub closed spec fn base(self) -> Seq<char> {
        self.base_url@
    }

    /// A client for the service at `base_url`.
    pub fn new(base_url: &str) -> (c: GammaClient)
        ensures
            c.base() == base_url@,
    {
        GammaClient { base_url: String::from_str(base_url) }
    }

    /// The address that lists up to `limit` active markets.
    pub fn active_markets_url(&self, limit: usize) -> (r: String)
        ensures
            r@ == self.base() + "/markets?active=true&limit="@ + decimal_text(limit as int),
    {
        let head = concat_text(self.base_url.as_str(), "/markets?active=true&limit=");
        let n = usize_to_text(limit);
        concat_text(head.as_str(), n.as_str())
    }

    /// The address that describes one market.
    pub fn market_details_url(&self, market_id: &str) -> (r: String)
        ensures
            r@ == self.base() + "/markets/"@ + market_id@,
    {
        let head = concat_text(self.base_url.as_str(), "/markets/");
        concat_text(head.as_str(), market_id)
    }

    /// The active sports markets among the descriptions, read at instant `at`: in order, those
    /// whose category is a sports one, whose volume is at least 1000 and whose liquidity is at
    /// least `min_liquidity`.
    pub fn select_active_markets(
        &self,
        raws: &Vec<RawMarket>,
        min_liquidity: Dec,
        at: &Timestamp,
    ) -> (r: Vec<
        MarketData,
    >)
        ensures
            is_selection(r@, raws@, min_liquidity, *at),
            forall|k: int|
                0 <= k < r@.len() ==> #[trigger] r@[k].liquidity.units() >= min_liquidity.units()
                    && r@[k].volume.units() >= Dec::lit(1000, 0).units(),
    {
        let mut out: Vec<MarketData> = Vec::new();
        let n = raws.len();
        let mut i: usize = 0;
        proof {
            assert(raws@.take(0) =~= Seq::<RawMarket>::empty());
        }
        while i < n
            invariant
                n == raws@.len(),
                i <= n,
                out@.len() == kept_indices(raws@.take(i as int), min_liquidity).len(),
                forall|k: int|
                    0 <= k < out@.len() ==> reads_as(
                        #[trigger] out@[k],
                        raws@[kept_indices(raws@.take(i as int), min_liquidity)[k]],
                        *at,
                        true,
                    ),
                forall|k: int|
                    0 <= k < kept_indices(raws@.take(i as int), min_liquidity).len() ==> 0 <= #[trigger] kept_indices(
                        raws@.take(i as int),
                        min_liquidity,
                    )[k] < i,
            decreases n - i,
        {
            let raw = &raws[i];
            proof {
                assert(raws@.take(i + 1).drop_last() =~= raws@.take(i as int));
                assert(raws@.take(i + 1).last() == raws@[i as int]);
            }
            let category = field_text(&raw.category, "");
            let c = category.as_str();
            let sports = str_eq(c, "sports") || str_eq(c, "Sports") || str_eq(c, "sport");
            if sports {
                let volume_text = field_text(&raw.volume, "0");
                let volume = parse_or(volume_text.as_str(), Dec::zero());
                if !volume.lt(&Dec::new(1000, 0)) {
                    let liquidity_text = field_text(&raw.liquidity, "0");
                    let liquidity = parse_or(liquidity_text.as_str(), Dec::zero());
                    if !liquidity.lt(&min_liquidity) {
                        let m = read_market(raw, volume, at, true);
                        out.push(m);
                    }
                }
            }
            i = i + 1;
        }
        proof {
            assert(raws@.take(n as int) =~= raws@);
            law_selection_is_liquid_sports_by_volume(raws@, min_liquidity);
            assert forall|k: int| 0 <= k < out@.len() implies #[trigger] out@[k].liquidity.units()
                >= min_liquidity.units() && out@[k].volume.units() >= Dec::lit(1000, 0).units() by {
                let j = kept_indices(raws@, min_liquidity)[k];
                assert(reads_as(out@[k], raws@[j], *at, true));
                assert(keeps(raws@[j], min_liquidity));
            }
        }
        out
    }

    /// The active sports markets among the descriptions, with the current instant standing in
    /// for missing end dates.
    pub fn select_active_markets_now(&self, raws: &Vec<RawMarket>, min_liquidity: Dec) -> (r: Vec<
        MarketData,
    >)
        ensures
            exists|at: Timestamp|
                at.secs >= 0 && at.nanos < 1_000_000_000 && #[trigger] is_selection(
                    r@,
                    raws@,
                    min_liquidity,
                    at,
                ),
            forall|k: int|
                0 <= k < r@.len() ==> #[trigger] r@[k].liquidity.units() >= min_liquidity.units()
                    && r@[k].volume.units() >= Dec::lit(1000, 0).units(),
    {
        let at = now();
        self.select_active_markets(raws, min_liquidity, &at)
    }

    /// One market read from the service's answer at instant `at`; `Err` where the answer
    /// describes no market. Its activity is the answer's flag, `false` where missing.
    pub fn market_details(&self, raw: Option<&RawMarket>, at: &Timestamp) -> (r: Result<
        MarketData,
        MarketNotFound,
    >)
        ensures
            raw is None ==> r is Err,
            raw matches Some(d) ==> (r matches Ok(m) && reads_as(
                m,
                *d,
                *at,
                match d.active {
                    Some(b) => b,
                    None => false,
                },
            )),
    {
        match raw {
            None => Err(MarketNotFound),
            Some(d) => {
                let volume_text = field_text(&d.volume, "0");
                let volume = parse_or(volume_text.as_str(), Dec::zero());
                let active = match d.active {
                    Some(b) => b,
                    None => false,
                };
                Ok(read_market(d, volume, at, active))
            },
        }
    }
}

} // verus!
