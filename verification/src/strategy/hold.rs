//! Holding to settlement: every position's profit or loss is measured and the position is
//! remembered; big wins and losers ("zombies") are both held, never sold.
use vstd::prelude::*;
use crate::decimal::{
    Dec, decimal_checked_sub, decimal_checked_div, exact_quotient, lemma_checked_div, lemma_zero_one,
    abs_int, mantissa_bound, lemma_sub_exact,
    pow10,
};
use crate::types::{Position, ArithmeticOverflow};
use crate::config::ZombieConfig;
use crate::store::{Keyed, KeyedStore};

verus! {

impl Keyed for Position {
    open spec fn key_of(&self) -> Seq<char> {
        self.market_id@
    }

    fn key(&self) -> (r: &String) {
        &self.market_id
    }
}

/// How a held position stands.
#[derive(Clone, Copy, Debug, PartialEq, Eq, Structural)]
pub enum HoldVerdict {
    /// Up more than five percent.
    BigWin,
    /// Under water.
    Zombie,
    /// Anything in between.
    Quiet,
}

/// The measured profit or loss of one position.
#[derive(Debug)]
pub struct HoldReport {
    pub market_id: String,
    pub pnl_pct: Dec,
    pub verdict: HoldVerdict,
}

/// Holds positions until settlement and keeps the latest report of each.
#[derive(Debug)]
pub struct HoldEngine {
    config: ZombieConfig,
    positions_cache: KeyedStore<Position>,
}

/// The current price of a position: its value per share where it has shares, else its
/// average price.
pub open spec fn current_price_spec(p: Position) -> Option<Dec> {
    if p.size.units() > 0 {
        decimal_checked_div(p.current_value, p.size)
    } else {
        Some(p.avg_price)
    }
}

/// The profit or loss as a fraction of the average price: `(current - avg) / avg` where the
/// average price is above zero, else zero; `None` where a step overflows.
pub open spec fn pnl_spec(p: Position) -> Option<Dec> {
    match current_price_spec(p) {
        Some(cur) => if p.avg_price.units() > 0 {
            match decimal_checked_sub(cur, p.avg_price) {
                Some(d) => decimal_checked_div(d, p.avg_price),
                None => None,
            }
        } else {
            Some(Dec::lit(0, 0))
        },
        None => None,
    }
}

/// Five percent, as `Decimal::from(5) / Decimal::from(100)`.
pub open spec fn five_percent_spec() -> Option<Dec> {
    decimal_checked_div(Dec::lit(5, 0), Dec::lit(100, 0))
}

/// Above the bar a big win, below zero a zombie, otherwise quiet.
pub open spec fn verdict_spec(pnl: Dec, bar: Dec) -> HoldVerdict {
    if pnl.units() > bar.units() {
        HoldVerdict::BigWin
    } else if pnl.units() < 0 {
        HoldVerdict::Zombie
    } else {
        HoldVerdict::Quiet
    }
}

/// The report of one position, or `Err` where a step overflows.
pub open spec fn report_spec(p: Position) -> Result<HoldReport, ArithmeticOverflow> {
    match pnl_spec(p) {
        Some(pnl) => match five_percent_spec() {
            Some(bar) => Ok(
                HoldReport { market_id: p.market_id, pnl_pct: pnl, verdict: verdict_spec(pnl, bar) },
            ),
            None => Err(ArithmeticOverflow),
        },
        None => Err(ArithmeticOverflow),
    }
}

/// The reports of the positions in order, or the first error.
pub open spec fn reports_spec(ps: Seq<Position>) -> Result<Seq<HoldReport>, ArithmeticOverflow>
    decreases ps.len(),
{
    if ps.len() == 0 {
        Ok(Seq::<HoldReport>::empty())
    } else {
        match reports_spec(ps.drop_last()) {
            Ok(rs) => match report_spec(ps.last()) {
                Ok(r) => Ok(rs.push(r)),
                Err(e) => Err(e),
            },
            Err(e) => Err(e),
        }
    }
}

/// The cache after putting each position under its market, in order.
pub open spec fn cache_after(cache: Map<Seq<char>, Position>, ps: Seq<Position>) -> Map<
    Seq<char>,
    Position,
>
    decreases ps.len(),
{
    if ps.len() == 0 {
        cache
    } else {
        cache_after(cache, ps.drop_last()).insert(ps.last().market_id@, ps.last())
    }
}

proof fn lemma_reports_err_extends(ps: Seq<Position>, k: int)
    requires
        0 <= k <= ps.len(),
        reports_spec(ps.take(k)) is Err,
    ensures
        reports_spec(ps) is Err,
    decreases ps.len() - k,
{
    if k < ps.len() {
        assert(ps.take(k + 1).drop_last() =~= ps.take(k));
        lemma_reports_err_extends(ps, k + 1);
    } else {
        assert(ps.take(k) =~= ps);
    }
}

impl HoldEngine {
    /// The configuration the engine works with.
    pub closed spec fn cfg(self) -> ZombieConfig {
        self.config
    }

    /// The latest position seen in each market.
    pub closed spec fn cache(self) -> Map<Seq<char>, Position> {
        self.positions_cache.contents()
    }

    /// An engine with the configuration and no positions seen.
    pub fn new(config: ZombieConfig) -> (e: HoldEngine)
        ensures
            e.cfg() == config,
            e.cache() == Map::<Seq<char>, Position>::empty(),
    {
        HoldEngine { config, positions_cache: KeyedStore::new() }
    }

    /// The report of one position, or `Err` where a step overflows.
    pub fn assess_position(&self, pos: &Position) -> (r: Result<HoldReport, ArithmeticOverflow>)
        ensures
            r == report_spec(*pos),
    {
        let current_price = if pos.size.gt(&Dec::zero()) {
            match pos.current_value.checked_div(pos.size) {
                Some(v) => v,
                None => return Err(ArithmeticOverflow),
            }
        } else {
            pos.avg_price
        };
        let pnl_pct = if pos.avg_price.gt(&Dec::zero()) {
            let d = match current_price.checked_sub(pos.avg_price) {
                Some(v) => v,
                None => return Err(ArithmeticOverflow),
            };
            match d.checked_div(pos.avg_price) {
                Some(v) => v,
                None => return Err(ArithmeticOverflow),
            }
        } else {
            Dec::zero()
        };
        let bar = match Dec::new(5, 0).checked_div(Dec::new(100, 0)) {
            Some(v) => v,
            None => return Err(ArithmeticOverflow),
        };
        let verdict = if pnl_pct.gt(&bar) {
            HoldVerdict::BigWin
        } else if pnl_pct.lt(&Dec::zero()) {
            HoldVerdict::Zombie
        } else {
            HoldVerdict::Quiet
        };
        Ok(HoldReport { market_id: pos.market_id.clone(), pnl_pct, verdict })
    }

    /// Reviews the positions: when enabled, reports each in order and remembers each under its
    /// market. Nothing is done when disabled; on `Err` (an overflowing step) nothing is
    /// remembered.
    pub fn review_positions(&mut self, positions: &Vec<Position>) -> (r: Result<
        Vec<HoldReport>,
        ArithmeticOverflow,
    >)
        ensures
            final(self).cfg() == old(self).cfg(),
            !old(self).cfg().enabled ==> (r matches Ok(v) && v@.len() == 0) && final(self).cache()
                == old(self).cache(),
            old(self).cfg().enabled ==> {
                &&& r is Ok <==> reports_spec(positions@) is Ok
                &&& r matches Ok(v) ==> reports_spec(positions@) == Ok::<
                    Seq<HoldReport>,
                    ArithmeticOverflow,
                >(v@) && final(self).cache() == cache_after(old(self).cache(), positions@)
                &&& r is Err ==> final(self).cache() == old(self).cache()
            },
    {
        if !self.config.enabled {
            return Ok(Vec::new());
        }
        let n = positions.len();
        let mut reports: Vec<HoldReport> = Vec::new();
        let mut i: usize = 0;
        proof {
            assert(positions@.take(0) =~= Seq::<Position>::empty());
        }
        while i < n
            invariant
                n == positions@.len(),
                i <= n,
                old(self).cfg().enabled,
                *self == *old(self),
                reports_spec(positions@.take(i as int)) == Ok::<
                    Seq<HoldReport>,
                    ArithmeticOverflow,
                >(reports@),
            decreases n - i,
        {
            proof {
                assert(positions@.take(i + 1).drop_last() =~= positions@.take(i as int));
            }
            match self.assess_position(&positions[i]) {
                Ok(rep) => {
                    reports.push(rep);
                },
                Err(e) => {
                    proof {
                        lemma_reports_err_extends(positions@, i + 1);
                    }
                    return Err(e);
                },
            }
            i = i + 1;
        }
        proof {
            assert(positions@.take(n as int) =~= positions@);
        }
        let ghost start = self.cache();
        let mut k: usize = 0;
        proof {
            assert(positions@.take(0) =~= Seq::<Position>::empty());
        }
        while k < n
            invariant
                n == positions@.len(),
                k <= n,
                self.cache() == cache_after(start, positions@.take(k as int)),
                self.cfg().enabled,
                self.cfg() == old(self).cfg(),
                start == old(self).cache(),
            decreases n - k,
        {
            proof {
                assert(positions@.take(k + 1).drop_last() =~= positions@.take(k as int));
            }
            let p = positions[k].duplicate();
            self.positions_cache.insert(p);
            k = k + 1;
        }
        proof {
            assert(positions@.take(n as int) =~= positions@);
        }
        Ok(reports)
    }

    /// The latest position seen in a market, if any.
    pub fn cached_position(&self, market_id: &str) -> (r: Option<&Position>)
        ensures
            r is Some <==> self.cache().contains_key(market_id@),
            r matches Some(p) ==> *p == self.cache()[market_id@],
    {
        self.positions_cache.get(market_id)
    }
}

/// A position is a big win, a zombie, or quiet, and never two of these: a big win is up by
/// more than the bar, a zombie is below zero, and the bar is positive whenever it is five
/// percent.
pub proof fn law_verdicts_exclusive(pnl: Dec, bar: Dec)
    requires
        bar.units() >= 0,
    ensures
        verdict_spec(pnl, bar) is BigWin <==> pnl.units() > bar.units(),
        verdict_spec(pnl, bar) is Zombie <==> pnl.units() < 0,
        verdict_spec(pnl, bar) is Quiet <==> 0 <= pnl.units() <= bar.units(),
{
}

/// After a review, the cache holds the last reviewed position of each reviewed market.
pub proof fn law_cache_holds_latest(cache: Map<Seq<char>, Position>, ps: Seq<Position>, i: int)
    requires
        0 <= i < ps.len(),
        forall|j: int| i < j < ps.len() ==> #[trigger] ps[j].market_id@ != ps[i].market_id@,
    ensures
        cache_after(cache, ps).contains_key(ps[i].market_id@),
        cache_after(cache, ps)[ps[i].market_id@] == ps[i],
    decreases ps.len(),
{
    if i < ps.len() - 1 {
        let prefix = ps.drop_last();
        assert forall|j: int| i < j < prefix.len() implies #[trigger] prefix[j].market_id@
            != prefix[i].market_id@ by {
            assert(prefix[j] == ps[j]);
        }
        law_cache_holds_latest(cache, prefix, i);
    }
}

/// The bar of a big win, where `5 / 100` succeeds, is exactly five percent.
pub proof fn law_big_win_bar_is_five_percent()
    ensures
        five_percent_spec() matches Some(b) ==> b.well_formed() && b.units() == 5 * 100_000_000_000_000_000_000_000_000,
{
    lemma_zero_one();
    assert(pow10(27) == 1_000_000_000_000_000_000_000_000_000);
    assert(pow10(26) == 100_000_000_000_000_000_000_000_000);
    Dec::lemma_lit(5, 0);
    Dec::lemma_lit(100, 0);
    assert(exact_quotient(Dec::lit(5, 0), Dec::lit(100, 0), 5, 2));
    lemma_checked_div(Dec::lit(5, 0), Dec::lit(100, 0), 5, 2);
}

/// The verdict of every report follows from its own profit or loss: a big win exactly when
/// the fractional gain exceeds five percent, a zombie exactly when it is below zero, quiet
/// otherwise; the report names the position's market.
pub proof fn law_verdict_follows_pnl(p: Position)
    ensures
        report_spec(p) matches Ok(r) ==> {
            &&& r.market_id == p.market_id
            &&& (r.verdict is BigWin <==> r.pnl_pct.units() > 5 * pow10(26))
            &&& (r.verdict is Zombie <==> r.pnl_pct.units() < 0)
            &&& (r.verdict is Quiet <==> 0 <= r.pnl_pct.units() <= 5 * pow10(26))
        },
{
    law_big_win_bar_is_five_percent();
    lemma_zero_one();
    assert(pow10(27) == 1_000_000_000_000_000_000_000_000_000);
    assert(pow10(26) == 100_000_000_000_000_000_000_000_000);
}

/// The profit or loss is the fractional gain `(current - avg) / avg` of the current price over
/// the average price, wherever that quotient is exactly the decimal `m / 10^k` and the
/// difference is exact; with no average price above zero it is zero.
pub proof fn law_pnl_is_relative_gain(p: Position, m: int, k: nat)
    requires
        p.avg_price.well_formed(),
        p.current_value.well_formed(),
        p.size.well_formed(),
        current_price_spec(p) is Some ==> abs_int(
            current_price_spec(p)->0.units() - p.avg_price.units(),
        ) < mantissa_bound(),
        k <= 28,
        -mantissa_bound() < m < mantissa_bound(),
        current_price_spec(p) is Some ==> m * pow10((28 - k) as nat) * p.avg_price.units() == (
        current_price_spec(p)->0.units() - p.avg_price.units()) * pow10(28),
    ensures
        report_spec(p) matches Ok(r) ==> {
            &&& (p.avg_price.units() <= 0 ==> r.pnl_pct.units() == 0)
            &&& (p.avg_price.units() > 0 ==> r.pnl_pct.units() * p.avg_price.units() == (
            current_price_spec(p)->0.units() - p.avg_price.units()) * pow10(28))
        },
{
    lemma_zero_one();
    lemma_checked_div(p.current_value, p.size, 0, 0);
    if let Some(cur) = current_price_spec(p) {
        if p.avg_price.units() > 0 {
            lemma_sub_exact(cur, p.avg_price);
            let d = decimal_checked_sub(cur, p.avg_price)->0;
            assert(exact_quotient(d, p.avg_price, m, k));
            lemma_checked_div(d, p.avg_price, m, k);
        }
    }
}

/// The current price is the value per share where the position has shares (wherever that
/// quotient is exactly the decimal `m / 10^k`), and the average price otherwise.
pub proof fn law_current_price_is_value_per_share(p: Position, m: int, k: nat)
    requires
        p.current_value.well_formed(),
        p.size.well_formed(),
        k <= 28,
        -mantissa_bound() < m < mantissa_bound(),
        m * pow10((28 - k) as nat) * p.size.units() == p.current_value.units() * pow10(28),
    ensures
        p.size.units() <= 0 ==> current_price_spec(p) == Some(p.avg_price),
        p.size.units() > 0 ==> (current_price_spec(p) matches Some(c) ==> c.units()
            * p.size.units() == p.current_value.units() * pow10(28)),
{
    lemma_checked_div(p.current_value, p.size, m, k);
}

} // verus!
