//! Exact decimal numbers, backed by `rust_decimal` for every arithmetic step.
//!
//! A [`Dec`] holds the two plain values that make up a `rust_decimal::Decimal`:
//! a signed mantissa of at most 96 bits and a scale of at most 28 decimal places.
//! Its mathematical value is `mantissa / 10^scale`; contracts speak of it through
//! [`Dec::units`], the value counted in steps of `10^-28`, which is always an integer.
use vstd::prelude::*;
use rust_decimal::Decimal;

verus! {

/// `10^n`.
pub open spec fn pow10(n: nat) -> int
    decreases n,
{
    if n == 0 {
        1
    } else {
        10 * pow10((n - 1) as nat)
    }
}

/// Every power of ten is positive.
pub proof fn lemma_pow10_pos(n: nat)
    ensures
        pow10(n) >= 1,
    decreases n,
{
    if n > 0 {
        lemma_pow10_pos((n - 1) as nat);
    }
}

/// `2^96`: the mantissa of a decimal stays strictly below it in magnitude.
pub open spec fn mantissa_bound() -> int {
    0x1_0000_0000_0000_0000_0000_0000
}

/// The largest scale a decimal can carry.
pub const MAX_SCALE: u32 = 28;

/// The absolute value of an integer.
pub open spec fn abs_int(x: int) -> int {
    if x < 0 {
        -x
    } else {
        x
    }
}

/// A decimal number `mantissa / 10^scale` with `|mantissa| < 2^96` and `scale <= 28`.
#[derive(Clone, Copy, Debug, PartialEq, Eq, Structural)]
pub struct Dec {
    mantissa: i128,
    scale: u32,
}

impl Dec {
    /// Every decimal keeps its mantissa below `2^96` in magnitude and its scale at most 28;
    /// `use_type_invariant` gives this of any decimal value held by executable code.
    #[verifier::type_invariant]
    pub open spec fn well_formed(self) -> bool {
        &&& -mantissa_bound() < self.mant() < mantissa_bound()
        &&& self.places() <= 28
    }

    /// The decimal with mantissa `m` and scale `s` (for `|m| < 2^96`, `s <= 28`).
    pub closed spec fn lit(m: int, s: nat) -> Dec {
        Dec { mantissa: m as i128, scale: s as u32 }
    }

    /// `lit` keeps its mantissa and scale.
    pub proof fn lemma_lit(m: int, s: nat)
        requires
            -mantissa_bound() < m < mantissa_bound(),
            s <= 28,
        ensures
            Dec::lit(m, s).mant() == m,
            Dec::lit(m, s).places() == s,
            Dec::lit(m, s).units() == m * pow10((28 - s) as nat),
    {
    }

    /// The signed mantissa.
    pub closed spec fn mant(self) -> int {
        self.mantissa as int
    }

    /// The number of decimal places.
    pub closed spec fn places(self) -> nat {
        self.scale as nat
    }

    /// The same scale with the mantissa's sign dropped, as `Decimal::abs` gives it.
    pub open spec fn abs_spec(self) -> Dec {
        Dec::lit(abs_int(self.mant()), self.places())
    }

    /// The value of the number in steps of `10^-28`.
    pub open spec fn units(self) -> int {
        self.mant() * pow10((28 - self.places()) as nat)
    }

    /// `Decimal::new(num, scale)`: the number `num / 10^scale`.
    pub fn new(num: i64, scale: u32) -> (d: Dec)
        requires
            scale <= MAX_SCALE,
        ensures
            d == Dec::lit(num as int, scale as nat),
            d.mant() == num,
            d.places() == scale,
    {
        Dec { mantissa: num as i128, scale }
    }

    /// `Decimal::try_from_i128_with_scale`: `Some` exactly when the mantissa fits in 96 bits
    /// and the scale is at most 28.
    pub fn from_i128_with_scale(num: i128, scale: u32) -> (d: Option<Dec>)
        ensures
            d is Some <==> (-mantissa_bound() < num < mantissa_bound() && scale <= MAX_SCALE),
            d matches Some(v) ==> v.mant() == num && v.places() == scale,
    {
        if scale <= MAX_SCALE && -0x1_0000_0000_0000_0000_0000_0000 < num
            && num < 0x1_0000_0000_0000_0000_0000_0000 {
            Some(Dec { mantissa: num, scale })
        } else {
            None
        }
    }

    /// The signed mantissa.
    pub fn mantissa(&self) -> (m: i128)
        ensures
            m == self.mant(),
    {
        self.mantissa
    }

    /// The number of decimal places.
    pub fn scale(&self) -> (s: u32)
        ensures
            s == self.places(),
    {
        self.scale
    }

    /// `Decimal::ZERO`.
    pub fn zero() -> (d: Dec)
        ensures
            d == Dec::lit(0, 0),
            d.mant() == 0,
            d.places() == 0,
            d.units() == 0,
    {
        Dec { mantissa: 0, scale: 0 }
    }

    /// `Decimal::ONE`.
    pub fn one() -> (d: Dec)
        ensures
            d == Dec::lit(1, 0),
            d.mant() == 1,
            d.places() == 0,
            d.units() == pow10(28),
    {
        Dec { mantissa: 1, scale: 0 }
    }

    /// `Decimal::abs`: the same scale, the mantissa without its sign.
    pub fn abs(&self) -> (d: Dec)
        ensures
            d == self.abs_spec(),
            d.mant() == abs_int(self.mant()),
            d.places() == self.places(),
            d.units() == abs_int(self.units()),
    {
        proof {
            use_type_invariant(self);
            lemma_pow10_pos((28 - self.places()) as nat);
        }
        if self.mantissa < 0 {
            let d = Dec { mantissa: -self.mantissa, scale: self.scale };
            assert(d.units() == -self.units()) by (nonlinear_arith)
                requires
                    d.mant() == -self.mant(),
                    d.places() == self.places(),
                    d.units() == d.mant() * pow10((28 - d.places()) as nat),
                    self.units() == self.mant() * pow10((28 - self.places()) as nat),
            ;
            d
        } else {
            assert(self.units() >= 0) by (nonlinear_arith)
                requires
                    self.mant() >= 0,
                    pow10((28 - self.places()) as nat) >= 1,
                    self.units() == self.mant() * pow10((28 - self.places()) as nat),
            ;
            *self
        }
    }

    /// `a < b` on decimals: compares the values exactly.
    pub fn lt(&self, other: &Dec) -> (r: bool)
        ensures
            r == (self.units() < other.units()),
    {
        decimal_lt(self, other)
    }

    /// `a <= b` on decimals.
    pub fn le(&self, other: &Dec) -> (r: bool)
        ensures
            r == (self.units() <= other.units()),
    {
        !decimal_lt(other, self)
    }

    /// `a > b` on decimals.
    pub fn gt(&self, other: &Dec) -> (r: bool)
        ensures
            r == (self.units() > other.units()),
    {
        decimal_lt(other, self)
    }

    /// `a >= b` on decimals.
    pub fn ge(&self, other: &Dec) -> (r: bool)
        ensures
            r == (self.units() >= other.units()),
    {
        !decimal_lt(self, other)
    }

    /// `a == b` on decimals: equal values, whatever their scales.
    pub fn value_eq(&self, other: &Dec) -> (r: bool)
        ensures
            r == (self.units() == other.units()),
    {
        !decimal_lt(self, other) && !decimal_lt(other, self)
    }

    /// `Decimal::max`: `self` unless `self < other`.
    pub fn max(self, other: Dec) -> (r: Dec)
        ensures
            r == max_spec(self, other),
            r.units() >= self.units(),
            r.units() >= other.units(),
    {
        if decimal_lt(&self, &other) {
            other
        } else {
            self
        }
    }

    /// `Decimal::min`: `self` unless `self > other`.
    pub fn min(self, other: Dec) -> (r: Dec)
        ensures
            r == min_spec(self, other),
            r.units() <= self.units(),
            r.units() <= other.units(),
    {
        if decimal_lt(&other, &self) {
            other
        } else {
            self
        }
    }

    /// `Decimal::checked_add`: the sum, or `None` where `+` would overflow.
    pub fn checked_add(self, other: Dec) -> (r: Option<Dec>)
        ensures
            r == decimal_checked_add(self, other),
            exact_fits(self.units() + other.units(), self, other) ==> (r is Some && r->0.units()
                == self.units() + other.units()),
    {
        proof {
            use_type_invariant(self);
            use_type_invariant(&other);
            lemma_checked_add(self, other);
        }
        checked_add_outside(self, other)
    }

    /// `Decimal::checked_sub`: the difference, or `None` where `-` would overflow.
    pub fn checked_sub(self, other: Dec) -> (r: Option<Dec>)
        ensures
            r == decimal_checked_sub(self, other),
            exact_fits(self.units() - other.units(), self, other) ==> (r is Some && r->0.units()
                == self.units() - other.units()),
    {
        proof {
            use_type_invariant(self);
            use_type_invariant(&other);
            lemma_checked_sub(self, other);
        }
        checked_sub_outside(self, other)
    }

    /// `Decimal::checked_div`: the quotient, or `None` on division by zero or overflow.
    pub fn checked_div(self, other: Dec) -> (r: Option<Dec>)
        ensures
            r == decimal_checked_div(self, other),
            other.units() == 0 ==> r is None,
            (self.units() == 0 && other.units() != 0) ==> (r is Some && r->0.units() == 0),
            (other.units() != 0 && abs_int(self.units()) <= abs_int(other.units())) ==> r is Some,
            (other.units() != 0 && exists|m: int, k: nat| #[trigger] exact_quotient(self, other, m, k))
                ==> (r is Some && r->0.units() * other.units() == self.units() * pow10(28)),
    {
        checked_div_outside(self, other)
    }

    /// `Decimal::from_str_exact`: parses a decimal literal, refusing any that would need rounding.
    pub fn from_str_exact(s: &str) -> (r: Option<Dec>)
        ensures
            r == decimal_from_str_exact(s@),
    {
        from_str_exact_outside(s)
    }
}

/// The greater of two decimals, `a` on a tie, as `Decimal::max` picks: `b` only where
/// `a < b`.
pub open spec fn max_spec(a: Dec, b: Dec) -> Dec {
    if a.units() < b.units() {
        b
    } else {
        a
    }
}

/// The smaller of two decimals, `a` on a tie.
pub open spec fn min_spec(a: Dec, b: Dec) -> Dec {
    if b.units() < a.units() {
        b
    } else {
        a
    }
}

/// The larger of the two scales of `a` and `b`.
pub open spec fn common_places(a: Dec, b: Dec) -> nat {
    if a.places() >= b.places() {
        a.places()
    } else {
        b.places()
    }
}

/// The exact result `total` (in steps of `10^-28`) of adding or subtracting `a` and `b`
/// can be written with the larger of their two scales and a mantissa below `2^96`.
pub open spec fn exact_fits(total: int, a: Dec, b: Dec) -> bool {
    abs_int(total) < mantissa_bound() * pow10((28 - common_places(a, b)) as nat)
}

/// The decimal at the larger scale of `a` and `b` whose value is `total` steps of `10^-28`.
pub open spec fn at_common_scale(total: int, a: Dec, b: Dec) -> Dec {
    Dec::lit(total / pow10((28 - common_places(a, b)) as nat), common_places(a, b))
}

/// A result of `rust_decimal`, which is always a well-formed decimal.
pub open spec fn keep_valid(r: Option<Dec>) -> Option<Dec> {
    match r {
        Some(v) => if v.well_formed() {
            Some(v)
        } else {
            None
        },
        None => None,
    }
}

/// What `Decimal::checked_add` returns: the other operand where one is zero; the exact sum at
/// the larger scale where it fits; otherwise the rounded sum or overflow of the outside code.
#[verifier::opaque]
pub open spec fn decimal_checked_add(a: Dec, b: Dec) -> Option<Dec> {
    if a.mant() == 0 {
        Some(b)
    } else if b.mant() == 0 {
        Some(a)
    } else if exact_fits(a.units() + b.units(), a, b) {
        Some(at_common_scale(a.units() + b.units(), a, b))
    } else {
        keep_valid(decimal_add_rounded(a, b))
    }
}

/// What `Decimal::checked_sub` returns: the negated subtrahend where the minuend is zero, the
/// minuend where the subtrahend is zero; the exact difference at the larger scale where it
/// fits; otherwise the rounded difference or overflow of the outside code.
#[verifier::opaque]
pub open spec fn decimal_checked_sub(a: Dec, b: Dec) -> Option<Dec> {
    if a.mant() == 0 {
        Some(Dec::lit(-b.mant(), b.places()))
    } else if b.mant() == 0 {
        Some(a)
    } else if exact_fits(a.units() - b.units(), a, b) {
        Some(at_common_scale(a.units() - b.units(), a, b))
    } else {
        keep_valid(decimal_sub_rounded(a, b))
    }
}

/// The quotient `a / b` is exactly `m / 10^k`, a decimal with `k <= 28` places and a mantissa
/// below `2^96`.
pub open spec fn exact_quotient(a: Dec, b: Dec, m: int, k: nat) -> bool {
    &&& k <= 28
    &&& -mantissa_bound() < m < mantissa_bound()
    &&& m * pow10((28 - k) as nat) * b.units() == a.units() * pow10(28)
}

/// A result of `rust_decimal` for a quotient that is exactly a decimal: kept where it is
/// well formed and has exactly the quotient's value, which the outside code always gives.
pub open spec fn keep_exact_quotient(r: Option<Dec>, a: Dec, b: Dec) -> Option<Dec> {
    match r {
        Some(v) => if v.well_formed() && v.units() * b.units() == a.units() * pow10(28) {
            Some(v)
        } else {
            None
        },
        None => None,
    }
}

/// What `Decimal::checked_div` returns for two decimals: where the quotient is exactly a
/// decimal of at most 28 places with a 96-bit mantissa, a result with exactly that value;
/// otherwise the rounded quotient or overflow of the outside code.
pub open spec fn decimal_checked_div(a: Dec, b: Dec) -> Option<Dec> {
    if a.well_formed() && b.well_formed() && b.units() != 0 && exists|m: int, k: nat|
        #[trigger] exact_quotient(a, b, m, k) {
        keep_exact_quotient(decimal_div_result(a, b), a, b)
    } else {
        keep_valid(decimal_div_result(a, b))
    }
}

/// What `Decimal::checked_add` returns for two non-zero decimals whose exact sum does not fit.
pub uninterp spec fn decimal_add_rounded(a: Dec, b: Dec) -> Option<Dec>;

/// What `Decimal::checked_sub` returns for two non-zero decimals whose exact difference does
/// not fit.
pub uninterp spec fn decimal_sub_rounded(a: Dec, b: Dec) -> Option<Dec>;

/// What `Decimal::checked_div` returns for two decimals.
pub uninterp spec fn decimal_div_result(a: Dec, b: Dec) -> Option<Dec>;

/// What `Decimal::from_str_exact` returns for a string.
pub uninterp spec fn decimal_from_str_exact(s: Seq<char>) -> Option<Dec>;

/// `10^(x + y) == 10^x * 10^y`.
pub proof fn lemma_pow10_add(x: nat, y: nat)
    ensures
        pow10(x + y) == pow10(x) * pow10(y),
    decreases x,
{
    if x > 0 {
        let x1 = (x - 1) as nat;
        lemma_pow10_add(x1, y);
        assert(pow10(x + y) == 10 * pow10((x1 + y) as nat));
        assert(10 * (pow10(x1) * pow10(y)) == (10 * pow10(x1)) * pow10(y)) by (nonlinear_arith);
    }
}

/// A total below `2^96` steps of `10^-28` always fits, whatever the scales.
pub proof fn lemma_small_total_fits(total: int, a: Dec, b: Dec)
    requires
        abs_int(total) < mantissa_bound(),
    ensures
        exact_fits(total, a, b),
{
    let p = pow10((28 - common_places(a, b)) as nat);
    lemma_pow10_pos((28 - common_places(a, b)) as nat);
    assert(mantissa_bound() <= mantissa_bound() * p) by (nonlinear_arith)
        requires
            p >= 1,
            mantissa_bound() > 0,
    ;
}

/// `10^x <= 10^y` for `x <= y`.
pub proof fn lemma_pow10_mono(x: nat, y: nat)
    requires
        x <= y,
    ensures
        pow10(x) <= pow10(y),
{
    lemma_pow10_add(x, (y - x) as nat);
    lemma_pow10_pos(x);
    lemma_pow10_pos((y - x) as nat);
    assert(pow10(x) <= pow10(x) * pow10((y - x) as nat)) by (nonlinear_arith)
        requires
            pow10(x) >= 1,
            pow10((y - x) as nat) >= 1,
    ;
}

/// A total that fits at the larger scale of `a` and `b` also fits at any scale no larger,
/// such as that of `c` and `d`.
pub proof fn lemma_exact_fits_mono(total: int, a: Dec, b: Dec, c: Dec, d: Dec)
    requires
        exact_fits(total, a, b),
        common_places(c, d) <= common_places(a, b),
        common_places(a, b) <= 28,
    ensures
        exact_fits(total, c, d),
{
    lemma_pow10_mono((28 - common_places(a, b)) as nat, (28 - common_places(c, d)) as nat);
    assert(mantissa_bound() * pow10((28 - common_places(a, b)) as nat) <= mantissa_bound() * pow10(
        (28 - common_places(c, d)) as nat,
    )) by (nonlinear_arith)
        requires
            pow10((28 - common_places(a, b)) as nat) <= pow10((28 - common_places(c, d)) as nat),
            mantissa_bound() > 0,
    ;
}

/// Where the exact sum or difference of two well-formed decimals fits, the decimal at their
/// common scale holds exactly that value and is well formed.
proof fn lemma_at_common_scale(a: Dec, b: Dec, total: int)
    requires
        a.well_formed(),
        b.well_formed(),
        total == a.units() + b.units() || total == a.units() - b.units(),
        exact_fits(total, a, b),
    ensures
        at_common_scale(total, a, b).well_formed(),
        at_common_scale(total, a, b).units() == total,
        at_common_scale(total, a, b).places() == common_places(a, b),
{
    let s = common_places(a, b);
    let k = (28 - s) as nat;
    let da = (s - a.places()) as nat;
    let db = (s - b.places()) as nat;
    let p = pow10(k);
    lemma_pow10_pos(k);
    lemma_pow10_add(da, k);
    lemma_pow10_add(db, k);
    assert((28 - a.places()) as nat == da + k);
    assert((28 - b.places()) as nat == db + k);
    let ma = a.mant() * pow10(da);
    let mb = b.mant() * pow10(db);
    assert(a.units() == ma * p) by (nonlinear_arith)
        requires
            a.units() == a.mant() * pow10((28 - a.places()) as nat),
            pow10((28 - a.places()) as nat) == pow10(da) * p,
            ma == a.mant() * pow10(da),
    ;
    assert(b.units() == mb * p) by (nonlinear_arith)
        requires
            b.units() == b.mant() * pow10((28 - b.places()) as nat),
            pow10((28 - b.places()) as nat) == pow10(db) * p,
            mb == b.mant() * pow10(db),
    ;
    let m = if total == a.units() + b.units() {
        ma + mb
    } else {
        ma - mb
    };
    assert(total == m * p) by (nonlinear_arith)
        requires
            total == a.units() + b.units() || total == a.units() - b.units(),
            a.units() == ma * p,
            b.units() == mb * p,
            m == (if total == a.units() + b.units() {
                ma + mb
            } else {
                ma - mb
            }),
    ;
    vstd::arithmetic::div_mod::lemma_div_multiples_vanish(m, p);
    assert(p * m == m * p) by (nonlinear_arith);
    assert(total / p == m);
    assert(-mantissa_bound() < m < mantissa_bound()) by (nonlinear_arith)
        requires
            abs_int(total) < mantissa_bound() * p,
            total == m * p,
            p >= 1,
    ;
    Dec::lemma_lit(m, s);
}

/// The sum of two well-formed decimals is well formed where it exists, and is `Some` of the
/// exact sum wherever that sum fits at the larger scale.
pub proof fn lemma_checked_add(a: Dec, b: Dec)
    requires
        a.well_formed(),
        b.well_formed(),
    ensures
        decimal_checked_add(a, b) matches Some(v) ==> v.well_formed(),
        exact_fits(a.units() + b.units(), a, b) ==> (decimal_checked_add(a, b) is Some
            && decimal_checked_add(a, b)->0.units() == a.units() + b.units()
            && decimal_checked_add(a, b)->0.places() <= common_places(a, b)),
{
    reveal(decimal_checked_add);
    if a.mant() == 0 {
        assert(a.units() == 0);
    } else if b.mant() == 0 {
        assert(b.units() == 0);
    } else if exact_fits(a.units() + b.units(), a, b) {
        lemma_at_common_scale(a, b, a.units() + b.units());
    }
}

/// The difference of two well-formed decimals is well formed where it exists, and is `Some` of
/// the exact difference wherever that difference fits at the larger scale.
pub proof fn lemma_checked_sub(a: Dec, b: Dec)
    requires
        a.well_formed(),
        b.well_formed(),
    ensures
        decimal_checked_sub(a, b) matches Some(v) ==> v.well_formed(),
        exact_fits(a.units() - b.units(), a, b) ==> (decimal_checked_sub(a, b) is Some
            && decimal_checked_sub(a, b)->0.units() == a.units() - b.units()
            && decimal_checked_sub(a, b)->0.places() <= common_places(a, b)),
{
    reveal(decimal_checked_sub);
    if a.mant() == 0 {
        assert(a.units() == 0);
        Dec::lemma_lit(-b.mant(), b.places());
        let q = pow10((28 - b.places()) as nat);
        assert((-b.mant()) * q == -(b.mant() * q)) by (nonlinear_arith);
    } else if b.mant() == 0 {
        assert(b.units() == 0);
    } else if exact_fits(a.units() - b.units(), a, b) {
        lemma_at_common_scale(a, b, a.units() - b.units());
    }
}

/// A quotient is well formed where it exists; where it is exactly a decimal of at most 28
/// places with a 96-bit mantissa, it has exactly that value.
pub proof fn lemma_checked_div(a: Dec, b: Dec, m: int, k: nat)
    ensures
        decimal_checked_div(a, b) matches Some(v) ==> v.well_formed(),
        (a.well_formed() && b.well_formed() && b.units() != 0 && exact_quotient(a, b, m, k))
            ==> (decimal_checked_div(a, b) matches Some(v) ==> v.units() * b.units() == a.units()
            * pow10(28)),
{
}

/// The absolute value of a well-formed decimal is well formed and has the absolute value.
pub proof fn lemma_abs_units(d: Dec)
    requires
        d.well_formed(),
    ensures
        d.abs_spec().well_formed(),
        d.abs_spec().units() == abs_int(d.units()),
{
    Dec::lemma_lit(abs_int(d.mant()), d.places());
    let p = pow10((28 - d.places()) as nat);
    lemma_pow10_pos((28 - d.places()) as nat);
    assert(abs_int(d.mant()) * p == abs_int(d.mant() * p)) by (nonlinear_arith)
        requires
            p >= 1,
    ;
}

/// `10^28`, written out.
pub proof fn lemma_pow10_28()
    ensures
        pow10(28) == 10_000_000_000_000_000_000_000_000_000,
{
    reveal_with_fuel(pow10, 29);
}

/// Adding two well-formed decimals whose exact sum stays below `2^96` steps of `10^-28`
/// (below about 7.9 in value) gives exactly that sum, well formed.
pub proof fn lemma_add_exact(a: Dec, b: Dec)
    requires
        a.well_formed(),
        b.well_formed(),
        abs_int(a.units() + b.units()) < mantissa_bound(),
    ensures
        decimal_checked_add(a, b) is Some,
        decimal_checked_add(a, b)->0.well_formed(),
        decimal_checked_add(a, b)->0.units() == a.units() + b.units(),
{
    lemma_small_total_fits(a.units() + b.units(), a, b);
    lemma_checked_add(a, b);
}

/// Subtracting two well-formed decimals whose exact difference stays below `2^96` steps of
/// `10^-28` gives exactly that difference, well formed.
pub proof fn lemma_sub_exact(a: Dec, b: Dec)
    requires
        a.well_formed(),
        b.well_formed(),
        abs_int(a.units() - b.units()) < mantissa_bound(),
    ensures
        decimal_checked_sub(a, b) is Some,
        decimal_checked_sub(a, b)->0.well_formed(),
        decimal_checked_sub(a, b)->0.units() == a.units() - b.units(),
{
    lemma_small_total_fits(a.units() - b.units(), a, b);
    lemma_checked_sub(a, b);
}

/// The literals zero and one are well formed, with the values `0` and `10^28` steps.
pub proof fn lemma_zero_one()
    ensures
        Dec::lit(0, 0).well_formed(),
        Dec::lit(0, 0).units() == 0,
        Dec::lit(1, 0).well_formed(),
        Dec::lit(1, 0).units() == pow10(28),
        pow10(28) == 10_000_000_000_000_000_000_000_000_000,
{
    Dec::lemma_lit(0, 0);
    Dec::lemma_lit(1, 0);
    lemma_pow10_28();
}

/// `<` of `rust_decimal::Decimal` (its `PartialOrd`), which compares the two values exactly,
/// whatever their scales.
#[verifier::external_body]
fn decimal_lt(a: &Dec, b: &Dec) -> (r: bool)
    ensures
        r == (a.units() < b.units()),
{
    Decimal::from_i128_with_scale(a.mantissa, a.scale) < Decimal::from_i128_with_scale(b.mantissa, b.scale)
}

/// `Decimal::checked_add`. Claimed: where one operand is zero the result is the other one;
/// where the exact sum can be written at the larger scale with a 96-bit mantissa, it is `Some`
/// of the decimal at that scale with exactly that value. Where it cannot, the outside code
/// rounds away decimal places or reports overflow; which, and how it rounds, is left unsaid.
#[verifier::external_body]
fn checked_add_outside(a: Dec, b: Dec) -> (r: Option<Dec>)
    ensures
        r == decimal_checked_add(a, b),
        (a.mant() != 0 && b.mant() != 0 && !exact_fits(a.units() + b.units(), a, b)) ==> r
            == decimal_add_rounded(a, b),
{
    let x = Decimal::from_i128_with_scale(a.mantissa, a.scale);
    let y = Decimal::from_i128_with_scale(b.mantissa, b.scale);
    match x.checked_add(y) {
        Some(v) => Some(Dec { mantissa: v.mantissa(), scale: v.scale() }),
        None => None,
    }
}

/// `Decimal::checked_sub`. Claimed as for `checked_add_outside`, with the exact difference;
/// where the minuend is zero the result is the subtrahend with its sign flipped.
#[verifier::external_body]
fn checked_sub_outside(a: Dec, b: Dec) -> (r: Option<Dec>)
    ensures
        r == decimal_checked_sub(a, b),
        (a.mant() != 0 && b.mant() != 0 && !exact_fits(a.units() - b.units(), a, b)) ==> r
            == decimal_sub_rounded(a, b),
{
    let x = Decimal::from_i128_with_scale(a.mantissa, a.scale);
    let y = Decimal::from_i128_with_scale(b.mantissa, b.scale);
    match x.checked_sub(y) {
        Some(v) => Some(Dec { mantissa: v.mantissa(), scale: v.scale() }),
        None => None,
    }
}

/// `Decimal::checked_div`. Claimed: the result is the named one; division by zero gives `None`;
/// zero divided by a non-zero number gives zero; a quotient of magnitude at most one never
/// overflows; a quotient that is exactly a decimal of at most 28 places with a 96-bit mantissa
/// comes out with exactly that value. How the outside code rounds any other quotient, the scale
/// it gives a result, and where it overflows, are left unsaid.
#[verifier::external_body]
fn checked_div_outside(a: Dec, b: Dec) -> (r: Option<Dec>)
    ensures
        r == decimal_checked_div(a, b),
        r == decimal_div_result(a, b),
        b.units() == 0 ==> r is None,
        (a.units() == 0 && b.units() != 0) ==> (r is Some && r->0.units() == 0),
        (b.units() != 0 && abs_int(a.units()) <= abs_int(b.units())) ==> r is Some,
        (b.units() != 0 && exists|m: int, k: nat| #[trigger] exact_quotient(a, b, m, k)) ==> (r is Some
            && r->0.units() * b.units() == a.units() * pow10(28)),
{
    let x = Decimal::from_i128_with_scale(a.mantissa, a.scale);
    let y = Decimal::from_i128_with_scale(b.mantissa, b.scale);
    match x.checked_div(y) {
        Some(v) => Some(Dec { mantissa: v.mantissa(), scale: v.scale() }),
        None => None,
    }
}

/// `Decimal::from_str_exact`. Claimed: the result is the named one, a function of the string
/// alone; the grammar it accepts is left unsaid.
#[verifier::external_body]
fn from_str_exact_outside(s: &str) -> (r: Option<Dec>)
    ensures
        r == decimal_from_str_exact(s@),
{
    match Decimal::from_str_exact(s) {
        Ok(v) => Some(Dec { mantissa: v.mantissa(), scale: v.scale() }),
        Err(_) => None,
    }
}

} // verus!
