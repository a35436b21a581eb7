//! Hedging: pairs of markets whose slugs share a team name while their YES prices drift
//! more than ten cents apart.
use vstd::prelude::*;
use vstd::utf8::encode_utf8;
use crate::decimal::{
    Dec, decimal_checked_sub, decimal_checked_div, exact_quotient, lemma_checked_div, lemma_zero_one,
    pow10, exact_fits, abs_int, lemma_checked_sub, lemma_abs_units,
};
use crate::types::{MarketData, ArithmeticOverflow};
use crate::config::HedgingConfig;
use crate::text::{split_chars, split_on, texts, to_lowercase, lowercase_text, str_eq};

verus! {

/// Two markets, by their indices, whose prices deviate while they share a team.
#[derive(Clone, Copy, Debug, PartialEq, Eq, Structural)]
pub struct HedgeSignal {
    pub first: usize,
    pub second: usize,
    pub deviation: Dec,
}

/// Watches pairs of markets for correlated prices that drift apart.
#[derive(Debug)]
pub struct HedgingEngine {
    config: HedgingConfig,
}

/// The dash-separated words of a slug, after lower-casing it.
pub open spec fn slug_tokens(slug: Seq<char>) -> Seq<Seq<char>> {
    split_chars(lowercase_text(slug), '-')
}

/// Two words name the same team: they are equal and longer than three bytes in UTF-8.
pub open spec fn tokens_match(x: Seq<char>, y: Seq<char>) -> bool {
    x == y && (encode_utf8(x).len() as usize) > 3
}

/// How many words of `tb` match `x`.
pub open spec fn matches_in(x: Seq<char>, tb: Seq<Seq<char>>) -> nat
    decreases tb.len(),
{
    if tb.len() == 0 {
        0
    } else {
        matches_in(x, tb.drop_last()) + if tokens_match(x, tb.last()) {
            1nat
        } else {
            0nat
        }
    }
}

/// How many pairs of a word of `ta` and a word of `tb` match.
pub open spec fn shared_count(ta: Seq<Seq<char>>, tb: Seq<Seq<char>>) -> nat
    decreases ta.len(),
{
    if ta.len() == 0 {
        0
    } else {
        shared_count(ta.drop_last(), tb) + matches_in(ta.last(), tb)
    }
}

/// The ten cents that a deviation must exceed, as `Decimal::from(10) / Decimal::from(100)`.
pub open spec fn threshold_spec() -> Option<Dec> {
    decimal_checked_div(Dec::lit(10, 0), Dec::lit(100, 0))
}

/// The signals for markets `i` and `j`: one for every matching pair of their words, when
/// `|yes_i - yes_j|` exceeds the threshold; `Err` where a step overflows.
pub open spec fn pair_spec(markets: Seq<MarketData>, i: int, j: int) -> Result<
    Seq<HedgeSignal>,
    ArithmeticOverflow,
> {
    let k = shared_count(slug_tokens(markets[i].slug@), slug_tokens(markets[j].slug@));
    if k == 0 {
        Ok(Seq::<HedgeSignal>::empty())
    } else {
        match decimal_checked_sub(markets[i].yes_price, markets[j].yes_price) {
            Some(d) => match threshold_spec() {
                Some(thr) => if d.abs_spec().units() > thr.units() {
                    Ok(
                        Seq::new(
                            k,
                            |_n: int|
                                HedgeSignal {
                                    first: i as usize,
                                    second: j as usize,
                                    deviation: d.abs_spec(),
                                },
                        ),
                    )
                } else {
                    Ok(Seq::<HedgeSignal>::empty())
                },
                None => Err(ArithmeticOverflow),
            },
            None => Err(ArithmeticOverflow),
        }
    }
}

/// `a` followed by `b`, or the first error.
pub open spec fn concat_res(
    a: Result<Seq<HedgeSignal>, ArithmeticOverflow>,
    b: Result<Seq<HedgeSignal>, ArithmeticOverflow>,
) -> Result<Seq<HedgeSignal>, ArithmeticOverflow> {
    match a {
        Ok(x) => match b {
            Ok(y) => Ok(x + y),
            Err(e) => Err(e),
        },
        Err(e) => Err(e),
    }
}

/// The signals of market `i` paired with each later market before `jend`, in order.
pub open spec fn row_spec(markets: Seq<MarketData>, i: int, jend: int) -> Result<
    Seq<HedgeSignal>,
    ArithmeticOverflow,
>
    decreases jend - i,
{
    if jend <= i + 1 {
        Ok(Seq::<HedgeSignal>::empty())
    } else {
        concat_res(row_spec(markets, i, jend - 1), pair_spec(markets, i, jend - 1))
    }
}

/// The signals of every pair `i < j` with `i` before `iend`, in order.
pub open spec fn table_spec(markets: Seq<MarketData>, iend: int) -> Result<
    Seq<HedgeSignal>,
    ArithmeticOverflow,
>
    decreases iend,
{
    if iend <= 0 {
        Ok(Seq::<HedgeSignal>::empty())
    } else {
        concat_res(table_spec(markets, iend - 1), row_spec(markets, iend - 1, markets.len() as int))
    }
}

/// No signals when hedging is disabled, else the signals of every pair of markets.
pub open spec fn hedge_spec(cfg: HedgingConfig, markets: Seq<MarketData>) -> Result<
    Seq<HedgeSignal>,
    ArithmeticOverflow,
> {
    if !cfg.enabled {
        Ok(Seq::<HedgeSignal>::empty())
    } else {
        table_spec(markets, markets.len() as int)
    }
}

proof fn lemma_row_err_extends(markets: Seq<MarketData>, i: int, j: int, jend: int)
    requires
        i + 1 <= j <= jend,
        row_spec(markets, i, j) is Err,
    ensures
        row_spec(markets, i, jend) is Err,
    decreases jend - j,
{
    if j < jend {
        lemma_row_err_extends(markets, i, j + 1, jend);
    }
}

proof fn lemma_table_err_extends(markets: Seq<MarketData>, i: int, iend: int)
    requires
        0 <= i <= iend,
        table_spec(markets, i) is Err,
    ensures
        table_spec(markets, iend) is Err,
    decreases iend - i,
{
    if i < iend {
        lemma_table_err_extends(markets, i + 1, iend);
    }
}

proof fn lemma_matches_in_prefix(x: Seq<char>, tb: Seq<Seq<char>>, b: int)
    requires
        0 <= b <= tb.len(),
    ensures
        matches_in(x, tb.take(b)) <= matches_in(x, tb),
    decreases tb.len() - b,
{
    if b < tb.len() {
        assert(tb.take(b + 1).drop_last() =~= tb.take(b));
        lemma_matches_in_prefix(x, tb, b + 1);
    } else {
        assert(tb.take(b) =~= tb);
    }
}

proof fn lemma_shared_count_prefix(ta: Seq<Seq<char>>, tb: Seq<Seq<char>>, a: int)
    requires
        0 <= a <= ta.len(),
    ensures
        shared_count(ta.take(a), tb) <= shared_count(ta, tb),
    decreases ta.len() - a,
{
    if a < ta.len() {
        assert(ta.take(a + 1).drop_last() =~= ta.take(a));
        lemma_shared_count_prefix(ta, tb, a + 1);
    } else {
        assert(ta.take(a) =~= ta);
    }
}

/// Whether some word of `ta` matches some word of `tb`.
fn any_shared(ta: &Vec<String>, tb: &Vec<String>) -> (r: bool)
    ensures
        r == (shared_count(texts(ta@), texts(tb@)) > 0),
{
    let ghost tav = texts(ta@);
    let ghost tbv = texts(tb@);
    let mut a: usize = 0;
    while a < ta.len()
        invariant
            a <= ta@.len(),
            tav == texts(ta@),
            tbv == texts(tb@),
            shared_count(tav.take(a as int), tbv) == 0,
        decreases ta@.len() - a,
    {
        let mut b: usize = 0;
        while b < tb.len()
            invariant
                a < ta@.len(),
                b <= tb@.len(),
                tav == texts(ta@),
                tbv == texts(tb@),
                shared_count(tav.take(a as int), tbv) == 0,
                matches_in(tav[a as int], tbv.take(b as int)) == 0,
            decreases tb@.len() - b,
        {
            let x = ta[a].as_str();
            let y = tb[b].as_str();
            proof {
                assert(tbv.take(b + 1).drop_last() =~= tbv.take(b as int));
                assert(tav.take(a + 1).drop_last() =~= tav.take(a as int));
            }
            if str_eq(x, y) && x.len() > 3 {
                proof {
                    assert(tokens_match(tav[a as int], tbv[b as int]));
                    assert(matches_in(tav[a as int], tbv.take(b + 1)) >= 1);
                    lemma_matches_in_prefix(tav[a as int], tbv, b + 1);
                    assert(shared_count(tav.take(a + 1), tbv) >= 1);
                    lemma_shared_count_prefix(tav, tbv, a + 1);
                }
                return true;
            }
            b = b + 1;
        }
        proof {
            assert(tbv.take(tb@.len() as int) =~= tbv);
            assert(tav.take(a + 1).drop_last() =~= tav.take(a as int));
        }
        a = a + 1;
    }
    proof {
        assert(tav.take(ta@.len() as int) =~= tav);
    }
    false
}

/// Appends `sig` once for every matching pair of words, in order.
fn push_shared(ta: &Vec<String>, tb: &Vec<String>, sig: HedgeSignal, out: &mut Vec<HedgeSignal>)
    ensures
        final(out)@ == old(out)@ + Seq::new(
            shared_count(texts(ta@), texts(tb@)),
            |_n: int| sig,
        ),
{
    let ghost tav = texts(ta@);
    let ghost tbv = texts(tb@);
    let ghost start = out@;
    let mut a: usize = 0;
    proof {
        assert(tav.take(0) =~= Seq::<Seq<char>>::empty());
        assert(out@ =~= start + Seq::new(0nat, |_n: int| sig));
    }
    while a < ta.len()
        invariant
            a <= ta@.len(),
            tav == texts(ta@),
            tbv == texts(tb@),
            out@ == start + Seq::new(shared_count(tav.take(a as int), tbv), |_n: int| sig),
        decreases ta@.len() - a,
    {
        let ghost base = shared_count(tav.take(a as int), tbv);
        let mut b: usize = 0;
        proof {
            assert(tbv.take(0) =~= Seq::<Seq<char>>::empty());
        }
        while b < tb.len()
            invariant
                a < ta@.len(),
                b <= tb@.len(),
                tav == texts(ta@),
                tbv == texts(tb@),
                base == shared_count(tav.take(a as int), tbv),
                out@ == start + Seq::new(
                    base + matches_in(tav[a as int], tbv.take(b as int)),
                    |_n: int| sig,
                ),
            decreases tb@.len() - b,
        {
            let x = ta[a].as_str();
            let y = tb[b].as_str();
            proof {
                assert(tbv.take(b + 1).drop_last() =~= tbv.take(b as int));
            }
            let ghost before = matches_in(tav[a as int], tbv.take(b as int));
            if str_eq(x, y) && x.len() > 3 {
                out.push(sig);
                proof {
                    assert(out@ =~= start + Seq::new(base + before + 1, |_n: int| sig));
                }
            }
            b = b + 1;
        }
        proof {
            assert(tbv.take(tb@.len() as int) =~= tbv);
            assert(tav.take(a + 1).drop_last() =~= tav.take(a as int));
        }
        a = a + 1;
    }
    proof {
        assert(tav.take(ta@.len() as int) =~= tav);
    }
}

/// The signals of markets `i` and `j` appended to `out`; `Err` (with `out` unchanged) where
/// a step overflows.
fn pair_signals(
    markets: &Vec<MarketData>,
    tokens: &Vec<Vec<String>>,
    i: usize,
    j: usize,
    out: &mut Vec<HedgeSignal>,
) -> (r: Result<(), ArithmeticOverflow>)
    requires
        i < j < markets@.len(),
        tokens@.len() == markets@.len(),
        forall|q: int|
            0 <= q < markets@.len() ==> #[trigger] texts(tokens@[q]@) == slug_tokens(
                markets@[q].slug@,
            ),
    ensures
        r is Ok <==> pair_spec(markets@, i as int, j as int) is Ok,
        r is Ok ==> final(out)@ == old(out)@ + pair_spec(markets@, i as int, j as int)->Ok_0,
        r is Err ==> final(out)@ == old(out)@,
{
    let ta = &tokens[i];
    let tb = &tokens[j];
    proof {
        assert(texts(tokens@[i as int]@) == slug_tokens(markets@[i as int].slug@));
        assert(texts(tokens@[j as int]@) == slug_tokens(markets@[j as int].slug@));
    }
    if !any_shared(ta, tb) {
        proof {
            assert(old(out)@ + Seq::<HedgeSignal>::empty() =~= old(out)@);
        }
        return Ok(());
    }
    let d = match markets[i].yes_price.checked_sub(markets[j].yes_price) {
        Some(v) => v,
        None => return Err(ArithmeticOverflow),
    };
    let deviation = d.abs();
    let threshold = match Dec::new(10, 0).checked_div(Dec::new(100, 0)) {
        Some(v) => v,
        None => return Err(ArithmeticOverflow),
    };
    if !deviation.gt(&threshold) {
        proof {
            assert(old(out)@ + Seq::<HedgeSignal>::empty() =~= old(out)@);
        }
        return Ok(());
    }
    let sig = HedgeSignal { first: i, second: j, deviation };
    push_shared(ta, tb, sig, out);
    proof {
        let k = shared_count(texts(ta@), texts(tb@));
        assert(Seq::new(k, |_n: int| sig) =~= pair_spec(markets@, i as int, j as int)->Ok_0);
    }
    Ok(())
}

/// A signal names two markets in order, whose slugs share a team name, and whose YES prices
/// differ by the signal's deviation, which exceeds the threshold.
pub open spec fn signal_valid(markets: Seq<MarketData>, sig: HedgeSignal) -> bool {
    &&& sig.first < sig.second < markets.len()
    &&& shared_count(
        slug_tokens(markets[sig.first as int].slug@),
        slug_tokens(markets[sig.second as int].slug@),
    ) > 0
    &&& threshold_spec() is Some
    &&& sig.deviation.units() > threshold_spec()->0.units()
    &&& decimal_checked_sub(markets[sig.first as int].yes_price, markets[sig.second as int].yes_price) is Some
    &&& sig.deviation == decimal_checked_sub(
        markets[sig.first as int].yes_price,
        markets[sig.second as int].yes_price,
    )->0.abs_spec()
}

/// Every signal of the sequence is valid.
pub open spec fn all_valid(markets: Seq<MarketData>, sigs: Seq<HedgeSignal>) -> bool {
    forall|k: int| 0 <= k < sigs.len() ==> signal_valid(markets, #[trigger] sigs[k])
}

proof fn lemma_all_valid_concat(markets: Seq<MarketData>, a: Seq<HedgeSignal>, b: Seq<HedgeSignal>)
    requires
        all_valid(markets, a),
        all_valid(markets, b),
    ensures
        all_valid(markets, a + b),
{
    assert forall|k: int| 0 <= k < (a + b).len() implies signal_valid(markets, #[trigger] (a + b)[k]) by {
        if k < a.len() {
            assert((a + b)[k] == a[k]);
        } else {
            assert((a + b)[k] == b[k - a.len()]);
        }
    }
}

proof fn lemma_pair_valid(markets: Seq<MarketData>, i: int, j: int)
    requires
        0 <= i < j < markets.len(),
        markets.len() <= usize::MAX,
        pair_spec(markets, i, j) is Ok,
    ensures
        all_valid(markets, pair_spec(markets, i, j)->Ok_0),
{
}

proof fn lemma_row_valid(markets: Seq<MarketData>, i: int, jend: int)
    requires
        0 <= i,
        jend <= markets.len(),
        markets.len() <= usize::MAX,
        row_spec(markets, i, jend) is Ok,
    ensures
        all_valid(markets, row_spec(markets, i, jend)->Ok_0),
    decreases jend - i,
{
    if jend > i + 1 {
        lemma_row_valid(markets, i, jend - 1);
        lemma_pair_valid(markets, i, jend - 1);
        lemma_all_valid_concat(
            markets,
            row_spec(markets, i, jend - 1)->Ok_0,
            pair_spec(markets, i, jend - 1)->Ok_0,
        );
    }
}

proof fn lemma_table_valid(markets: Seq<MarketData>, iend: int)
    requires
        iend <= markets.len(),
        markets.len() <= usize::MAX,
        table_spec(markets, iend) is Ok,
    ensures
        all_valid(markets, table_spec(markets, iend)->Ok_0),
    decreases iend,
{
    if iend > 0 {
        lemma_table_valid(markets, iend - 1);
        lemma_row_valid(markets, iend - 1, markets.len() as int);
        lemma_all_valid_concat(
            markets,
            table_spec(markets, iend - 1)->Ok_0,
            row_spec(markets, iend - 1, markets.len() as int)->Ok_0,
        );
    }
}

/// Every hedge signal names a pair of markets, first before second, whose slugs share a team
/// name and whose YES prices differ by the signal's deviation, which exceeds ten cents.
pub proof fn law_hedge_signals_valid(cfg: HedgingConfig, markets: Seq<MarketData>)
    requires
        markets.len() <= usize::MAX,
        hedge_spec(cfg, markets) is Ok,
    ensures
        all_valid(markets, hedge_spec(cfg, markets)->Ok_0),
{
    if cfg.enabled {
        lemma_table_valid(markets, markets.len() as int);
    }
}

impl HedgingEngine {
    /// The configuration the engine works with.
    pub closed spec fn cfg(self) -> HedgingConfig {
        self.config
    }

    /// An engine with the hedging configuration.
    pub fn new(config: HedgingConfig) -> (e: HedgingEngine)
        ensures
            e.cfg() == config,
    {
        HedgingEngine { config }
    }

    /// The hedge signals for a list of markets, or `Err` where an arithmetic step overflows.
    pub fn try_hedge_signals(&self, markets: &Vec<MarketData>) -> (r: Result<
        Vec<HedgeSignal>,
        ArithmeticOverflow,
    >)
        ensures
            r is Ok <==> hedge_spec(self.cfg(), markets@) is Ok,
            r matches Ok(v) ==> hedge_spec(self.cfg(), markets@) == Ok::<
                Seq<HedgeSignal>,
                ArithmeticOverflow,
            >(v@),
    {
        if !self.config.enabled {
            return Ok(Vec::new());
        }
        let n = markets.len();
        let mut tokens: Vec<Vec<String>> = Vec::new();
        let mut k: usize = 0;
        while k < n
            invariant
                n == markets@.len(),
                k <= n,
                tokens@.len() == k,
                forall|q: int|
                    0 <= q < k ==> #[trigger] texts(tokens@[q]@) == slug_tokens(markets@[q].slug@),
            decreases n - k,
        {
            let lower = to_lowercase(markets[k].slug.as_str());
            let words = split_on(lower.as_str(), '-');
            tokens.push(words);
            k = k + 1;
        }
        let mut out: Vec<HedgeSignal> = Vec::new();
        let mut i: usize = 0;
        while i < n
            invariant
                self.cfg().enabled,
                n == markets@.len(),
                i <= n,
                tokens@.len() == n,
                forall|q: int|
                    0 <= q < n ==> #[trigger] texts(tokens@[q]@) == slug_tokens(markets@[q].slug@),
                table_spec(markets@, i as int) == Ok::<Seq<HedgeSignal>, ArithmeticOverflow>(
                    out@,
                ),
            decreases n - i,
        {
            let ghost before = out@;
            let ghost mut row: Seq<HedgeSignal> = Seq::empty();
            let mut j: usize = i + 1;
            while j < n
                invariant
                    self.cfg().enabled,
                    n == markets@.len(),
                    i < n,
                    i + 1 <= j <= n,
                    tokens@.len() == n,
                    forall|q: int|
                        0 <= q < n ==> #[trigger] texts(tokens@[q]@) == slug_tokens(
                            markets@[q].slug@,
                        ),
                    table_spec(markets@, i as int) == Ok::<Seq<HedgeSignal>, ArithmeticOverflow>(
                        before,
                    ),
                    row_spec(markets@, i as int, j as int) == Ok::<
                        Seq<HedgeSignal>,
                        ArithmeticOverflow,
                    >(row),
                    out@ == before + row,
                decreases n - j,
            {
                let ghost prev = out@;
                match pair_signals(markets, &tokens, i, j, &mut out) {
                    Ok(()) => {
                        proof {
                            row = row + pair_spec(markets@, i as int, j as int)->Ok_0;
                            assert(out@ =~= before + row);
                        }
                    },
                    Err(e) => {
                        proof {
                            assert(row_spec(markets@, i as int, j + 1) is Err);
                            lemma_row_err_extends(markets@, i as int, j + 1, n as int);
                            assert(table_spec(markets@, i + 1) is Err);
                            lemma_table_err_extends(markets@, i + 1, n as int);
                            assert(table_spec(markets@, markets@.len() as int) is Err);
                            assert(hedge_spec(self.cfg(), markets@) is Err);
                        }
                        return Err(e);
                    },
                }
                j = j + 1;
            }
            i = i + 1;
        }
        Ok(out)
    }

    /// The hedge signals: for every pair of markets, in order, one signal for every team name
    /// their slugs share (words of more than three bytes) when their YES prices differ by more
    /// than ten cents; none when hedging is disabled.
    pub fn hedge_signals(&self, markets: &Vec<MarketData>) -> (r: Vec<HedgeSignal>)
        requires
            hedge_spec(self.cfg(), markets@) is Ok,
        ensures
            hedge_spec(self.cfg(), markets@) == Ok::<Seq<HedgeSignal>, ArithmeticOverflow>(r@),
    {
        match self.try_hedge_signals(markets) {
            Ok(v) => v,
            Err(_) => Vec::new(),
        }
    }
}

/// The deviation bar, where `10 / 100` succeeds, is exactly ten percent.
pub proof fn law_hedge_bar_is_ten_percent()
    ensures
        threshold_spec() matches Some(b) ==> b.well_formed() && b.units() == 1_000_000_000_000_000_000_000_000_000,
{
    lemma_zero_one();
    assert(pow10(27) == 1_000_000_000_000_000_000_000_000_000);
    assert(pow10(26) == 100_000_000_000_000_000_000_000_000);
    Dec::lemma_lit(10, 0);
    Dec::lemma_lit(100, 0);
    assert(exact_quotient(Dec::lit(10, 0), Dec::lit(100, 0), 1, 1));
    lemma_checked_div(Dec::lit(10, 0), Dec::lit(100, 0), 1, 1);
}

/// A word of `ta` that matches a word of `tb` makes the two share at least one team.
proof fn lemma_match_shared(ta: Seq<Seq<char>>, tb: Seq<Seq<char>>, a: int, b: int)
    requires
        0 <= a < ta.len(),
        0 <= b < tb.len(),
        tokens_match(ta[a], tb[b]),
    ensures
        shared_count(ta, tb) >= 1,
{
    assert(tb.take(b + 1).drop_last() =~= tb.take(b));
    assert(tb.take(b + 1).last() == tb[b]);
    assert(matches_in(ta[a], tb.take(b + 1)) >= 1);
    lemma_matches_in_prefix(ta[a], tb, b + 1);
    assert(ta.take(a + 1).drop_last() =~= ta.take(a));
    assert(ta.take(a + 1).last() == ta[a]);
    assert(shared_count(ta.take(a + 1), tb) >= 1);
    lemma_shared_count_prefix(ta, tb, a + 1);
}

/// A row that succeeds holds every signal of each of its pairs.
proof fn lemma_row_holds_pair(markets: Seq<MarketData>, i: int, j: int, jend: int, k: int)
    requires
        i < j < jend,
        row_spec(markets, i, jend) is Ok,
        pair_spec(markets, i, j) is Ok,
        0 <= k < pair_spec(markets, i, j)->Ok_0.len(),
    ensures
        row_spec(markets, i, jend)->Ok_0.contains(pair_spec(markets, i, j)->Ok_0[k]),
    decreases jend - i,
{
    let prev = row_spec(markets, i, jend - 1);
    let last = pair_spec(markets, i, jend - 1);
    if j == jend - 1 {
        let x = prev->Ok_0;
        assert((x + last->Ok_0)[x.len() + k] == last->Ok_0[k]);
    } else {
        lemma_row_holds_pair(markets, i, j, jend - 1, k);
        let x = prev->Ok_0;
        let w = choose|w: int| 0 <= w < x.len() && x[w] == pair_spec(markets, i, j)->Ok_0[k];
        assert((x + last->Ok_0)[w] == x[w]);
    }
}

/// A table that succeeds holds every signal of each of its rows' pairs.
proof fn lemma_table_holds_pair(markets: Seq<MarketData>, i: int, j: int, iend: int, k: int)
    requires
        0 <= i < iend,
        i < j < markets.len(),
        table_spec(markets, iend) is Ok,
        pair_spec(markets, i, j) is Ok,
        0 <= k < pair_spec(markets, i, j)->Ok_0.len(),
    ensures
        table_spec(markets, iend)->Ok_0.contains(pair_spec(markets, i, j)->Ok_0[k]),
    decreases iend,
{
    let prev = table_spec(markets, iend - 1);
    let row = row_spec(markets, iend - 1, markets.len() as int);
    if i == iend - 1 {
        lemma_row_holds_pair(markets, i, j, markets.len() as int, k);
        let x = prev->Ok_0;
        let w = choose|w: int| 0 <= w < row->Ok_0.len() && row->Ok_0[w] == pair_spec(markets, i, j)->Ok_0[k];
        assert((x + row->Ok_0)[x.len() + w] == row->Ok_0[w]);
    } else {
        lemma_table_holds_pair(markets, i, j, iend - 1, k);
        let x = prev->Ok_0;
        let w = choose|w: int| 0 <= w < x.len() && x[w] == pair_spec(markets, i, j)->Ok_0[k];
        assert((x + row->Ok_0)[w] == x[w]);
    }
}

/// A pair that fails spoils its row and so the whole table.
proof fn lemma_pair_err_spoils_table(markets: Seq<MarketData>, i: int, j: int)
    requires
        0 <= i < j < markets.len(),
        pair_spec(markets, i, j) is Err,
    ensures
        table_spec(markets, markets.len() as int) is Err,
{
    assert(row_spec(markets, i, j + 1) is Err);
    lemma_row_err_extends(markets, i, j + 1, markets.len() as int);
    assert(table_spec(markets, i + 1) is Err);
    lemma_table_err_extends(markets, i + 1, markets.len() as int);
}

/// Every qualifying pair is reported, whichever of the two YES prices is the higher: when
/// hedging is enabled and succeeds, markets `i < j` whose slugs share a team word (word `a` of
/// the first and word `b` of the second are equal and longer than three bytes) and whose YES
/// prices differ by more than ten cents get a signal `(i, j)` with the absolute difference as
/// its deviation (wherever that difference is exact).
pub proof fn law_hedge_pair_reported(
    cfg: HedgingConfig,
    markets: Seq<MarketData>,
    i: int,
    j: int,
    a: int,
    b: int,
)
    requires
        cfg.enabled,
        markets.len() <= usize::MAX,
        0 <= i < j < markets.len(),
        0 <= a < slug_tokens(markets[i].slug@).len(),
        0 <= b < slug_tokens(markets[j].slug@).len(),
        tokens_match(slug_tokens(markets[i].slug@)[a], slug_tokens(markets[j].slug@)[b]),
        markets[i].yes_price.well_formed(),
        markets[j].yes_price.well_formed(),
        exact_fits(
            markets[i].yes_price.units() - markets[j].yes_price.units(),
            markets[i].yes_price,
            markets[j].yes_price,
        ),
        abs_int(markets[i].yes_price.units() - markets[j].yes_price.units()) > pow10(27),
    ensures
        hedge_spec(cfg, markets) is Ok ==> exists|k: int|
            0 <= k < hedge_spec(cfg, markets)->Ok_0.len() && {
                let sig = #[trigger] hedge_spec(cfg, markets)->Ok_0[k];
                &&& sig.first == i
                &&& sig.second == j
                &&& sig.deviation.units() == abs_int(
                    markets[i].yes_price.units() - markets[j].yes_price.units(),
                )
            },
{
    if hedge_spec(cfg, markets) is Ok {
        let ti = slug_tokens(markets[i].slug@);
        let tj = slug_tokens(markets[j].slug@);
        lemma_match_shared(ti, tj, a, b);
        lemma_checked_sub(markets[i].yes_price, markets[j].yes_price);
        let d = decimal_checked_sub(markets[i].yes_price, markets[j].yes_price)->0;
        lemma_abs_units(d);
        law_hedge_bar_is_ten_percent();
        lemma_zero_one();
        assert(pow10(27) == 1_000_000_000_000_000_000_000_000_000);
        // the table succeeded, so this pair did, and its signals are in it
        if pair_spec(markets, i, j) is Err {
            lemma_pair_err_spoils_table(markets, i, j);
            assert(false);
        }
        let p = pair_spec(markets, i, j)->Ok_0;
        assert(p.len() >= 1);
        lemma_table_holds_pair(markets, i, j, markets.len() as int, 0);
        let t = hedge_spec(cfg, markets)->Ok_0;
        let w = choose|w: int| 0 <= w < t.len() && t[w] == p[0];
        assert(t[w].first == i);
    }
}

} // verus!
