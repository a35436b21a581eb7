//! Mispricing detection: arbitrage when YES and NO together cost less than one, and
//! cheap or expensive YES prices measured against an estimate of the true probability.
use vstd::prelude::*;
use crate::decimal::{
    Dec, decimal_checked_add, decimal_checked_sub, decimal_checked_div, max_spec,
    min_spec, pow10, lemma_pow10_pos, lemma_add_exact, lemma_sub_exact, lemma_checked_add,
    lemma_checked_sub, lemma_zero_one, lemma_checked_div, exact_quotient, exact_fits, abs_int,
    mantissa_bound, lemma_exact_fits_mono, common_places,
};
use crate::types::{MarketData, ArithmeticOverflow};
use crate::config::TradingConfig;

verus! {

/// The kind of opportunity a signal reports.
#[derive(Clone, Copy, Debug, PartialEq, Eq, Structural)]
pub enum SignalType {
    Arbitrage,
    MispricingLow,
    MispricingHigh,
}

/// What a signal recommends buying.
#[derive(Clone, Copy, Debug, PartialEq, Eq, Structural)]
pub enum Action {
    BuyYes,
    BuyNo,
    BuyBoth,
    NoAction,
}

/// An opportunity found in one market.
#[derive(Debug)]
pub struct MispricingSignal {
    pub market_id: String,
    pub signal_type: SignalType,
    pub yes_price: Dec,
    pub no_price: Dec,
    pub ev: Dec,
    pub recommended_action: Action,
    pub size: Dec,
}

/// Scans markets for mispriced YES/NO prices.
#[derive(Debug)]
pub struct MispricingEngine {
    config: TradingConfig,
}

/// The divisor that damps the pull toward one half: 1 above 10000 of liquidity, 2 above
/// 1000, 5 otherwise.
pub open spec fn liquidity_factor(liquidity: Dec) -> Dec {
    if liquidity.units() > Dec::lit(10000, 0).units() {
        Dec::lit(1, 0)
    } else if liquidity.units() > Dec::lit(1000, 0).units() {
        Dec::lit(2, 0)
    } else {
        Dec::lit(5, 0)
    }
}

/// One half, as `Decimal::from(50) / Decimal::from(100)` gives it.
pub open spec fn half_spec() -> Option<Dec> {
    decimal_checked_div(Dec::lit(50, 0), Dec::lit(100, 0))
}

/// The estimated probability of YES: the YES price pulled toward one half by
/// `(1/2 - yes) / liquidity_factor`, then clamped to `[0, 1]`; `None` where a step overflows.
pub open spec fn estimate_spec(m: MarketData) -> Option<Dec> {
    let base = m.yes_price;
    match half_spec() {
        Some(half) => match decimal_checked_sub(half, base) {
            Some(diff) => match decimal_checked_div(diff, liquidity_factor(m.liquidity)) {
                Some(adj) => match decimal_checked_add(base, adj) {
                    Some(s) => Some(min_spec(max_spec(s, Dec::lit(0, 0)), Dec::lit(1, 0))),
                    None => None,
                },
                None => None,
            },
            None => None,
        },
        None => None,
    }
}

/// The signal for a market, with the given kind, expected value and action.
pub open spec fn signal_spec(
    cfg: TradingConfig,
    m: MarketData,
    t: SignalType,
    ev: Dec,
    a: Action,
) -> MispricingSignal {
    MispricingSignal {
        market_id: m.market_id,
        signal_type: t,
        yes_price: m.yes_price,
        no_price: m.no_price,
        ev: ev,
        recommended_action: a,
        size: cfg.order_size,
    }
}

/// Arbitrage: where `yes + no < 1` and the gap `1 - (yes + no)` reaches the threshold.
pub open spec fn arbitrage_stage(cfg: TradingConfig, m: MarketData, sum: Dec) -> Result<
    Option<MispricingSignal>,
    ArithmeticOverflow,
> {
    if sum.units() < Dec::lit(1, 0).units() {
        match decimal_checked_sub(Dec::lit(1, 0), sum) {
            Some(gap) => if gap.units() >= cfg.min_ev_threshold.units() {
                Ok(Some(signal_spec(cfg, m, SignalType::Arbitrage, gap, Action::BuyBoth)))
            } else {
                Ok(None)
            },
            None => Err(ArithmeticOverflow),
        }
    } else {
        Ok(None)
    }
}

/// A cheap YES: below the low threshold, with an estimate above `yes + threshold`.
pub open spec fn low_stage(cfg: TradingConfig, m: MarketData) -> Result<
    Option<MispricingSignal>,
    ArithmeticOverflow,
> {
    let yes = m.yes_price;
    if yes.units() < cfg.mispricing_low_threshold.units() {
        match estimate_spec(m) {
            Some(est) => match decimal_checked_add(yes, cfg.min_ev_threshold) {
                Some(bar) => if est.units() > bar.units() {
                    match decimal_checked_sub(est, yes) {
                        Some(ev) => Ok(
                            Some(signal_spec(cfg, m, SignalType::MispricingLow, ev, Action::BuyYes)),
                        ),
                        None => Err(ArithmeticOverflow),
                    }
                } else {
                    Ok(None)
                },
                None => Err(ArithmeticOverflow),
            },
            None => Err(ArithmeticOverflow),
        }
    } else {
        Ok(None)
    }
}

/// An expensive YES: above the high threshold, with the estimated NO (`1 - estimate`) above
/// the implied NO (`1 - yes`) plus the threshold.
pub open spec fn high_stage(cfg: TradingConfig, m: MarketData) -> Result<
    Option<MispricingSignal>,
    ArithmeticOverflow,
> {
    let yes = m.yes_price;
    if yes.units() > cfg.mispricing_high_threshold.units() {
        match estimate_spec(m) {
            Some(est) => match decimal_checked_sub(Dec::lit(1, 0), yes) {
                Some(no_implied) => match decimal_checked_sub(Dec::lit(1, 0), est) {
                    Some(no_est) => match decimal_checked_add(no_implied, cfg.min_ev_threshold) {
                        Some(bar) => if no_est.units() > bar.units() {
                            match decimal_checked_sub(no_est, no_implied) {
                                Some(ev) => Ok(
                                    Some(
                                        signal_spec(
                                            cfg,
                                            m,
                                            SignalType::MispricingHigh,
                                            ev,
                                            Action::BuyNo,
                                        ),
                                    ),
                                ),
                                None => Err(ArithmeticOverflow),
                            }
                        } else {
                            Ok(None)
                        },
                        None => Err(ArithmeticOverflow),
                    },
                    None => Err(ArithmeticOverflow),
                },
                None => Err(ArithmeticOverflow),
            },
            None => Err(ArithmeticOverflow),
        }
    } else {
        Ok(None)
    }
}

/// The signal for a market: arbitrage first, then a cheap YES, then an expensive YES;
/// `Err` where a step overflows.
pub open spec fn ev_spec(cfg: TradingConfig, m: MarketData) -> Result<
    Option<MispricingSignal>,
    ArithmeticOverflow,
> {
    match decimal_checked_add(m.yes_price, m.no_price) {
        Some(sum) => match arbitrage_stage(cfg, m, sum) {
            Ok(Some(s)) => Ok(Some(s)),
            Ok(None) => match low_stage(cfg, m) {
                Ok(Some(s)) => Ok(Some(s)),
                Ok(None) => high_stage(cfg, m),
                Err(e) => Err(e),
            },
            Err(e) => Err(e),
        },
        None => Err(ArithmeticOverflow),
    }
}

impl MispricingEngine {
    /// The configuration the engine works with.
    pub closed spec fn cfg(self) -> TradingConfig {
        self.config
    }

    /// An engine with a copy of the trading configuration.
    pub fn new(config: &TradingConfig) -> (e: MispricingEngine)
        ensures
            e.cfg() == *config,
    {
        MispricingEngine { config: *config }
    }

    /// The signal for a market, or `Err` where an arithmetic step overflows.
    pub fn try_calculate_ev(&self, market: &MarketData) -> (r: Result<
        Option<MispricingSignal>,
        ArithmeticOverflow,
    >)
        ensures
            r == ev_spec(self.cfg(), *market),
            // An arbitrage gap reaches the threshold and comes from YES and NO costing under one.
            r matches Ok(Some(s)) ==> (s.signal_type is Arbitrage ==> s.ev.units()
                >= self.cfg().min_ev_threshold.units() && decimal_checked_add(
                market.yes_price,
                market.no_price,
            )->0.units() < pow10(28)),
            // Wherever the arithmetic behind it is exact, every edge is the one expected and
            // above the bar.
            r matches Ok(Some(s)) ==> {
                let yes = market.yes_price;
                let t = self.cfg().min_ev_threshold;
                &&& (s.signal_type is Arbitrage && arbitrage_sums_exact(*market) ==> s.ev.units()
                    == pow10(28) - yes.units() - market.no_price.units())
                &&& (s.signal_type is MispricingLow && exact_fits(yes.units() + t.units(), yes, t)
                    && estimate_gaps_exact(yes) ==> estimate_spec(*market) is Some && s.ev.units()
                    == estimate_spec(*market)->0.units() - yes.units() && s.ev.units() > t.units())
                &&& (s.signal_type is MispricingHigh && threshold_sums_exact(yes, t)
                    && estimate_gaps_exact(yes) ==> estimate_spec(*market) is Some && s.ev.units()
                    == yes.units() - estimate_spec(*market)->0.units() && s.ev.units() > t.units())
            },
    {
        proof {
            use_type_invariant(&market.yes_price);
            use_type_invariant(&market.no_price);
            use_type_invariant(&self.config.min_ev_threshold);
            law_signal_edge(self.cfg(), *market);
        }
        let cfg = &self.config;
        let yes_price = market.yes_price;
        let sum = match yes_price.checked_add(market.no_price) {
            Some(s) => s,
            None => return Err(ArithmeticOverflow),
        };
        let one = Dec::one();
        proof {
            Dec::lemma_lit(1, 0);
        }
        if sum.lt(&one) {
            match one.checked_sub(sum) {
                Some(gap) => {
                    if gap.ge(&cfg.min_ev_threshold) {
                        return Ok(
                            Some(
                                MispricingSignal {
                                    market_id: market.market_id.clone(),
                                    signal_type: SignalType::Arbitrage,
                                    yes_price,
                                    no_price: market.no_price,
                                    ev: gap,
                                    recommended_action: Action::BuyBoth,
                                    size: cfg.order_size,
                                },
                            ),
                        );
                    }
                },
                None => return Err(ArithmeticOverflow),
            }
        }
        if yes_price.lt(&cfg.mispricing_low_threshold) {
            let estimated = match self.estimate_true_probability(market) {
                Some(e) => e,
                None => return Err(ArithmeticOverflow),
            };
            let bar = match yes_price.checked_add(cfg.min_ev_threshold) {
                Some(b) => b,
                None => return Err(ArithmeticOverflow),
            };
            if estimated.gt(&bar) {
                let ev = match estimated.checked_sub(yes_price) {
                    Some(v) => v,
                    None => return Err(ArithmeticOverflow),
                };
                return Ok(
                    Some(
                        MispricingSignal {
                            market_id: market.market_id.clone(),
                            signal_type: SignalType::MispricingLow,
                            yes_price,
                            no_price: market.no_price,
                            ev,
                            recommended_action: Action::BuyYes,
                            size: cfg.order_size,
                        },
                    ),
                );
            }
        }
        if yes_price.gt(&cfg.mispricing_high_threshold) {
            let estimated = match self.estimate_true_probability(market) {
                Some(e) => e,
                None => return Err(ArithmeticOverflow),
            };
            let no_implied = match one.checked_sub(yes_price) {
                Some(v) => v,
                None => return Err(ArithmeticOverflow),
            };
            let no_estimated = match one.checked_sub(estimated) {
                Some(v) => v,
                None => return Err(ArithmeticOverflow),
            };
            let bar = match no_implied.checked_add(cfg.min_ev_threshold) {
                Some(b) => b,
                None => return Err(ArithmeticOverflow),
            };
            if no_estimated.gt(&bar) {
                let ev = match no_estimated.checked_sub(no_implied) {
                    Some(v) => v,
                    None => return Err(ArithmeticOverflow),
                };
                return Ok(
                    Some(
                        MispricingSignal {
                            market_id: market.market_id.clone(),
                            signal_type: SignalType::MispricingHigh,
                            yes_price,
                            no_price: market.no_price,
                            ev,
                            recommended_action: Action::BuyNo,
                            size: cfg.order_size,
                        },
                    ),
                );
            }
        }
        Ok(None)
    }

    /// The signal for a market: `Some` for arbitrage, a cheap YES or an expensive YES.
    pub fn calculate_ev(&self, market: &MarketData) -> (r: Option<MispricingSignal>)
        requires
            ev_spec(self.cfg(), *market) is Ok,
        ensures
            ev_spec(self.cfg(), *market) == Ok::<Option<MispricingSignal>, ArithmeticOverflow>(r),
    {
        match self.try_calculate_ev(market) {
            Ok(r) => r,
            Err(_) => None,
        }
    }

    /// The estimated probability of YES, clamped to `[0, 1]`; `None` where a step overflows.
    pub fn estimate_true_probability(&self, market: &MarketData) -> (r: Option<Dec>)
        ensures
            r == estimate_spec(*market),
            r matches Some(p) ==> 0 <= p.units() <= pow10(28),
    {
        let base = market.yes_price;
        let liquidity_factor = if market.liquidity.gt(&Dec::new(10000, 0)) {
            Dec::one()
        } else if market.liquidity.gt(&Dec::new(1000, 0)) {
            Dec::new(2, 0)
        } else {
            Dec::new(5, 0)
        };
        let half = match Dec::new(50, 0).checked_div(Dec::new(100, 0)) {
            Some(h) => h,
            None => return None,
        };
        let diff = match half.checked_sub(base) {
            Some(d) => d,
            None => return None,
        };
        let adjustment = match diff.checked_div(liquidity_factor) {
            Some(a) => a,
            None => return None,
        };
        let moved = match base.checked_add(adjustment) {
            Some(s) => s,
            None => return None,
        };
        proof {
            Dec::lemma_lit(0, 0);
            Dec::lemma_lit(1, 0);
            lemma_pow10_pos(28);
        }
        Some(moved.max(Dec::zero()).min(Dec::one()))
    }
}

/// Every estimate of the true probability lies between zero and one.
pub proof fn law_estimate_in_unit_interval(m: MarketData)
    ensures
        estimate_spec(m) matches Some(p) ==> 0 <= p.units() <= pow10(28),
{
    Dec::lemma_lit(0, 0);
    Dec::lemma_lit(1, 0);
    lemma_pow10_pos(28);
}

/// A signal always carries its market's id and prices, the configured size, and the action
/// that goes with its kind: arbitrage buys both sides, a cheap YES buys YES, an expensive YES
/// buys NO. A cheap-YES signal only comes from a YES price below the low threshold, and an
/// expensive-YES signal from one above the high threshold.
pub proof fn law_signal_shape(cfg: TradingConfig, m: MarketData)
    ensures
        ev_spec(cfg, m) matches Ok(Some(s)) ==> {
            &&& s.market_id == m.market_id
            &&& s.yes_price == m.yes_price
            &&& s.no_price == m.no_price
            &&& s.size == cfg.order_size
            &&& (s.signal_type is Arbitrage <==> s.recommended_action is BuyBoth)
            &&& (s.signal_type is MispricingLow <==> s.recommended_action is BuyYes)
            &&& (s.signal_type is MispricingHigh <==> s.recommended_action is BuyNo)
            &&& (s.signal_type is MispricingLow ==> m.yes_price.units()
                < cfg.mispricing_low_threshold.units())
            &&& (s.signal_type is MispricingHigh ==> m.yes_price.units()
                > cfg.mispricing_high_threshold.units())
        },
{
}

/// The estimate of a market with a well-formed YES price is itself well formed.
proof fn lemma_estimate_well_formed(m: MarketData)
    requires
        m.yes_price.well_formed(),
    ensures
        estimate_spec(m) matches Some(p) ==> p.well_formed() && 0 <= p.units() <= pow10(28),
{
    lemma_zero_one();
    law_estimate_in_unit_interval(m);
    if let Some(half) = half_spec() {
        if let Some(diff) = decimal_checked_sub(half, m.yes_price) {
            if let Some(adj) = decimal_checked_div(diff, liquidity_factor(m.liquidity)) {
                lemma_checked_add(m.yes_price, adj);
            }
        }
    }
}

/// The two sums of the arbitrage check, `yes + no` and `1 - (yes + no)`, are exact at the
/// larger scale of the YES and NO prices.
pub open spec fn arbitrage_sums_exact(m: MarketData) -> bool {
    &&& exact_fits(m.yes_price.units() + m.no_price.units(), m.yes_price, m.no_price)
    &&& exact_fits(pow10(28) - m.yes_price.units() - m.no_price.units(), m.yes_price, m.no_price)
}

/// The sums of the threshold checks at threshold `t`, `yes + t`, `1 - yes` and
/// `(1 - yes) + t`, are exact at the larger scale of their operands.
pub open spec fn threshold_sums_exact(yes: Dec, t: Dec) -> bool {
    &&& exact_fits(yes.units() + t.units(), yes, t)
    &&& exact_fits(pow10(28) - yes.units(), Dec::lit(1, 0), yes)
    &&& exact_fits(pow10(28) - yes.units() + t.units(), yes, t)
}

/// Every difference between the YES price and an estimate in `[0, 1]` stays below `2^96`
/// steps of `10^-28`, so is exact whatever the estimate's scale.
pub open spec fn estimate_gaps_exact(yes: Dec) -> bool {
    abs_int(yes.units()) + pow10(28) < mantissa_bound()
}

/// `1 - yes` is exact, and `(1 - yes) + t` with it, where the sums at the prices' own scales are.
proof fn lemma_no_implied_exact(yes: Dec, t: Dec)
    requires
        yes.well_formed(),
        t.well_formed(),
        threshold_sums_exact(yes, t),
    ensures
        decimal_checked_sub(Dec::lit(1, 0), yes) is Some,
        decimal_checked_sub(Dec::lit(1, 0), yes)->0.units() == pow10(28) - yes.units(),
        decimal_checked_add(decimal_checked_sub(Dec::lit(1, 0), yes)->0, t) is Some,
        decimal_checked_add(decimal_checked_sub(Dec::lit(1, 0), yes)->0, t)->0.units() == pow10(28)
            - yes.units() + t.units(),
{
    let one = Dec::lit(1, 0);
    lemma_zero_one();
    Dec::lemma_lit(1, 0);
    lemma_checked_sub(one, yes);
    let ni = decimal_checked_sub(one, yes)->0;
    lemma_exact_fits_mono(pow10(28) - yes.units() + t.units(), yes, t, ni, t);
    lemma_checked_add(ni, t);
}

/// The edge of every signal wherever the arithmetic behind it is exact: an arbitrage gap
/// reaches the threshold and is `1 - (yes + no)`; a cheap YES earns `estimate - yes` and an
/// expensive YES earns `yes - estimate`, each strictly above the threshold.
pub proof fn law_signal_edge(cfg: TradingConfig, m: MarketData)
    requires
        m.yes_price.well_formed(),
        m.no_price.well_formed(),
        cfg.min_ev_threshold.well_formed(),
    ensures
        ev_spec(cfg, m) matches Ok(Some(s)) ==> {
            &&& (s.signal_type is Arbitrage ==> s.ev.units() >= cfg.min_ev_threshold.units())
            &&& (s.signal_type is Arbitrage && arbitrage_sums_exact(m) ==> s.ev.units() == pow10(28)
                - m.yes_price.units() - m.no_price.units())
            &&& (s.signal_type is MispricingLow && exact_fits(
                m.yes_price.units() + cfg.min_ev_threshold.units(),
                m.yes_price,
                cfg.min_ev_threshold,
            ) && estimate_gaps_exact(m.yes_price) ==> estimate_spec(m) is Some && s.ev.units()
                == estimate_spec(m)->0.units() - m.yes_price.units() && s.ev.units()
                > cfg.min_ev_threshold.units())
            &&& (s.signal_type is MispricingHigh && threshold_sums_exact(
                m.yes_price,
                cfg.min_ev_threshold,
            ) && estimate_gaps_exact(m.yes_price) ==> estimate_spec(m) is Some && s.ev.units()
                == m.yes_price.units() - estimate_spec(m)->0.units() && s.ev.units()
                > cfg.min_ev_threshold.units())
        },
{
    let yes = m.yes_price;
    let t = cfg.min_ev_threshold;
    let one = Dec::lit(1, 0);
    lemma_zero_one();
    Dec::lemma_lit(1, 0);
    lemma_checked_add(yes, m.no_price);
    if arbitrage_sums_exact(m) {
        let sum = decimal_checked_add(yes, m.no_price)->0;
        lemma_exact_fits_mono(pow10(28) - yes.units() - m.no_price.units(), yes, m.no_price, one, sum);
        lemma_checked_sub(one, sum);
    }
    lemma_checked_add(yes, t);
    if threshold_sums_exact(yes, t) {
        lemma_no_implied_exact(yes, t);
    }
    lemma_estimate_well_formed(m);
    if let Some(est) = estimate_spec(m) {
        if estimate_gaps_exact(yes) {
            lemma_sub_exact(est, yes);
            lemma_sub_exact(one, est);
            if threshold_sums_exact(yes, t) {
                lemma_checked_sub(one, yes);
                let no_implied = decimal_checked_sub(one, yes)->0;
                let no_est = decimal_checked_sub(one, est)->0;
                lemma_sub_exact(no_est, no_implied);
            }
        }
    }
}

/// Raising the EV threshold never creates a signal where there was none, wherever the
/// threshold sums at both thresholds are exact.
pub proof fn law_raising_threshold_adds_no_signal(cfg: TradingConfig, higher: Dec, m: MarketData)
    requires
        m.yes_price.well_formed(),
        cfg.min_ev_threshold.well_formed(),
        higher.well_formed(),
        cfg.min_ev_threshold.units() <= higher.units(),
        threshold_sums_exact(m.yes_price, cfg.min_ev_threshold),
        threshold_sums_exact(m.yes_price, higher),
    ensures
        ev_spec(cfg, m) == Ok::<Option<MispricingSignal>, ArithmeticOverflow>(None) ==> ev_spec(
            (TradingConfig { min_ev_threshold: higher, ..cfg }),
            m,
        ) == Ok::<Option<MispricingSignal>, ArithmeticOverflow>(None),
{
    let yes = m.yes_price;
    lemma_zero_one();
    lemma_checked_add(yes, cfg.min_ev_threshold);
    lemma_checked_add(yes, higher);
    lemma_no_implied_exact(yes, cfg.min_ev_threshold);
    lemma_no_implied_exact(yes, higher);
}

/// One half, where `50 / 100` succeeds, is exactly one half.
pub proof fn law_half_is_one_half()
    ensures
        half_spec() matches Some(h) ==> h.well_formed() && h.units() == 5
            * 1_000_000_000_000_000_000_000_000_000,
{
    lemma_zero_one();
    assert(pow10(27) == 1_000_000_000_000_000_000_000_000_000);
    Dec::lemma_lit(50, 0);
    Dec::lemma_lit(100, 0);
    assert(exact_quotient(Dec::lit(50, 0), Dec::lit(100, 0), 5, 1));
    lemma_checked_div(Dec::lit(50, 0), Dec::lit(100, 0), 5, 1);
}

/// The divisor of the pull toward one half, as a whole number: 1, 2 or 5.
pub open spec fn liquidity_divisor(liquidity: Dec) -> int {
    if liquidity.units() > Dec::lit(10000, 0).units() {
        1
    } else if liquidity.units() > Dec::lit(1000, 0).units() {
        2
    } else {
        5
    }
}

/// A value in steps of `10^-28`, clamped to `[0, 1]`.
pub open spec fn clamp_unit(x: int) -> int {
    if x < 0 {
        0
    } else if x > pow10(28) {
        pow10(28)
    } else {
        x
    }
}

/// The estimate is exactly `yes + (1/2 - yes) / f`, `f` the liquidity divisor, clamped to
/// `[0, 1]`, wherever each step is exact: `1/2 - yes` and `yes + (1/2 - yes) / f` stay below
/// `2^96` steps of `10^-28`, and `f` divides `1/2 - yes` at 28 places.
pub proof fn law_estimate_value(m: MarketData)
    requires
        m.yes_price.well_formed(),
        abs_int(5 * pow10(27) - m.yes_price.units()) < mantissa_bound(),
        (5 * pow10(27) - m.yes_price.units()) % liquidity_divisor(m.liquidity) == 0,
        abs_int(
            m.yes_price.units() + (5 * pow10(27) - m.yes_price.units()) / liquidity_divisor(
                m.liquidity,
            ),
        ) < mantissa_bound(),
    ensures
        estimate_spec(m) matches Some(p) ==> p.units() == clamp_unit(
            m.yes_price.units() + (5 * pow10(27) - m.yes_price.units()) / liquidity_divisor(
                m.liquidity,
            ),
        ),
{
    let yes = m.yes_price;
    let y = yes.units();
    let f = liquidity_divisor(m.liquidity);
    let factor = liquidity_factor(m.liquidity);
    lemma_zero_one();
    assert(pow10(27) == 1_000_000_000_000_000_000_000_000_000);
    law_half_is_one_half();
    Dec::lemma_lit(1, 0);
    Dec::lemma_lit(2, 0);
    Dec::lemma_lit(5, 0);
    Dec::lemma_lit(1000, 0);
    Dec::lemma_lit(10000, 0);
    assert(factor == Dec::lit(f, 0));
    if let Some(h) = half_spec() {
        lemma_sub_exact(h, yes);
        let diff = decimal_checked_sub(h, yes)->0;
        let d = diff.units();
        assert(d == 5 * pow10(27) - y);
        let q = d / f;
        assert(q * f == d && abs_int(q) <= abs_int(d)) by (nonlinear_arith)
            requires
                d % f == 0,
                f == 1 || f == 2 || f == 5,
                q == d / f,
        ;
        assert(exact_quotient(diff, factor, q, 28)) by (nonlinear_arith)
            requires
                q * f == d,
                d == diff.units(),
                factor.units() == f * pow10(28),
                pow10(0) == 1,
                abs_int(q) <= abs_int(d),
                abs_int(d) < mantissa_bound(),
        ;
        lemma_checked_div(diff, factor, q, 28);
        if let Some(adj) = decimal_checked_div(diff, factor) {
            assert(adj.units() == q) by (nonlinear_arith)
                requires
                    adj.units() * (f * pow10(28)) == d * pow10(28),
                    q * f == d,
                    pow10(28) > 0,
                    f > 0,
            ;
            lemma_add_exact(yes, adj);
        }
    }
}

/// The arbitrage check gives no signal: `yes + no` is exact and either at least one, or it
/// leaves an exact gap `1 - (yes + no)` below the threshold.
pub open spec fn no_arbitrage(cfg: TradingConfig, m: MarketData) -> bool {
    let total = m.yes_price.units() + m.no_price.units();
    &&& exact_fits(total, m.yes_price, m.no_price)
    &&& (total >= pow10(28) || (exact_fits(pow10(28) - total, m.yes_price, m.no_price)
        && pow10(28) - total < cfg.min_ev_threshold.units()))
}

/// Where the arbitrage check gives no signal, the check goes on to the YES price: the sum of
/// YES and NO and the arbitrage gap are exact, and the arbitrage stage answers `Ok(None)`.
proof fn lemma_arbitrage_falls_through(cfg: TradingConfig, m: MarketData)
    requires
        m.yes_price.well_formed(),
        m.no_price.well_formed(),
        cfg.min_ev_threshold.well_formed(),
        no_arbitrage(cfg, m),
    ensures
        decimal_checked_add(m.yes_price, m.no_price) is Some,
        arbitrage_stage(cfg, m, decimal_checked_add(m.yes_price, m.no_price)->0) == Ok::<
            Option<MispricingSignal>,
            ArithmeticOverflow,
        >(None),
{
    let one = Dec::lit(1, 0);
    lemma_zero_one();
    Dec::lemma_lit(1, 0);
    lemma_checked_add(m.yes_price, m.no_price);
    let sum = decimal_checked_add(m.yes_price, m.no_price)->0;
    let total = m.yes_price.units() + m.no_price.units();
    if total < pow10(28) {
        lemma_exact_fits_mono(pow10(28) - total, m.yes_price, m.no_price, one, sum);
        lemma_checked_sub(one, sum);
    }
}

/// A cheap YES is found whatever `yes + no` is, as long as the arbitrage check gives no
/// signal: a YES price below the low threshold whose estimate exceeds `yes + threshold` gives
/// a cheap-YES signal that buys YES, earns `estimate - yes`, and carries the market's id and
/// the configured size (wherever the sums involved are exact).
pub proof fn law_cheap_yes_found(cfg: TradingConfig, m: MarketData)
    requires
        m.yes_price.well_formed(),
        m.no_price.well_formed(),
        cfg.min_ev_threshold.well_formed(),
        no_arbitrage(cfg, m),
        m.yes_price.units() < cfg.mispricing_low_threshold.units(),
        estimate_spec(m) is Some,
        estimate_spec(m)->0.units() > m.yes_price.units() + cfg.min_ev_threshold.units(),
        exact_fits(m.yes_price.units() + cfg.min_ev_threshold.units(), m.yes_price, cfg.min_ev_threshold),
        estimate_gaps_exact(m.yes_price),
    ensures
        ev_spec(cfg, m) is Ok,
        ev_spec(cfg, m)->Ok_0 is Some,
        ({
            let s = ev_spec(cfg, m)->Ok_0->0;
            &&& s.signal_type is MispricingLow
            &&& s.recommended_action is BuyYes
            &&& s.ev.units() == estimate_spec(m)->0.units() - m.yes_price.units()
            &&& s.market_id == m.market_id
            &&& s.size == cfg.order_size
        }),
{
    lemma_arbitrage_falls_through(cfg, m);
    lemma_checked_add(m.yes_price, cfg.min_ev_threshold);
    lemma_estimate_well_formed(m);
    lemma_sub_exact(estimate_spec(m)->0, m.yes_price);
}

/// An expensive YES is found whatever `yes + no` is, as long as the arbitrage check gives no
/// signal and the YES price is not below the low threshold: a YES price above the high
/// threshold whose estimate lies more than the threshold below it gives an expensive-YES
/// signal that buys NO and earns `yes - estimate` (wherever the sums involved are exact).
pub proof fn law_expensive_yes_found(cfg: TradingConfig, m: MarketData)
    requires
        m.yes_price.well_formed(),
        m.no_price.well_formed(),
        cfg.min_ev_threshold.well_formed(),
        no_arbitrage(cfg, m),
        m.yes_price.units() >= cfg.mispricing_low_threshold.units(),
        m.yes_price.units() > cfg.mispricing_high_threshold.units(),
        estimate_spec(m) is Some,
        m.yes_price.units() - estimate_spec(m)->0.units() > cfg.min_ev_threshold.units(),
        threshold_sums_exact(m.yes_price, cfg.min_ev_threshold),
        estimate_gaps_exact(m.yes_price),
    ensures
        ev_spec(cfg, m) is Ok,
        ev_spec(cfg, m)->Ok_0 is Some,
        ({
            let s = ev_spec(cfg, m)->Ok_0->0;
            &&& s.signal_type is MispricingHigh
            &&& s.recommended_action is BuyNo
            &&& s.ev.units() == m.yes_price.units() - estimate_spec(m)->0.units()
            &&& s.market_id == m.market_id
            &&& s.size == cfg.order_size
        }),
{
    let one = Dec::lit(1, 0);
    let yes = m.yes_price;
    lemma_arbitrage_falls_through(cfg, m);
    lemma_no_implied_exact(yes, cfg.min_ev_threshold);
    lemma_estimate_well_formed(m);
    let est = estimate_spec(m)->0;
    lemma_zero_one();
    lemma_sub_exact(one, est);
    lemma_checked_sub(one, yes);
    let no_implied = decimal_checked_sub(one, yes)->0;
    let no_est = decimal_checked_sub(one, est)->0;
    lemma_sub_exact(no_est, no_implied);
}

} // verus!
