//! Fixed-point decimal numbers and the arithmetic on them.
//!
//! A `Dec` is the plain-value form of a `rust_decimal::Decimal`: a signed
//! mantissa of at most 96 bits and a scale of at most 28 digits. Its value is
//! modelled exactly by `units`, an integer count of 10^-28. The arithmetic is
//! done by `rust_decimal`; each call states what its source shows.
use rust_decimal::Decimal;
use rust_decimal::MathematicalOps;
use vstd::arithmetic::div_mod::{lemma_div_denominator, lemma_div_multiples_vanish};
use vstd::prelude::*;

verus! {

/// Largest mantissa magnitude: 2^96 - 1.
pub const MAX_MANTISSA: i128 = 79228162514264337593543950335;

/// Largest number of fractional digits.
pub const MAX_SCALE: u32 = 28;

/// `10^n`.
pub open spec fn pow10(n: nat) -> int
    decreases n,
{
    if n == 0 {
        1
    } else {
        10 * pow10((n - 1) as nat)
    }
}

/// A decimal number `mantissa / 10^scale`.
#[derive(Clone, Copy, Debug)]
pub struct Dec {
    pub mantissa: i128,
    pub scale: u32,
}

/// The decimal that `mantissa` and `scale` spell.
pub open spec fn dec(mantissa: int, scale: int) -> Dec {
    Dec { mantissa: mantissa as i128, scale: scale as u32 }
}

/// Zero, as `rust_decimal` writes it.
pub open spec fn zero() -> Dec {
    dec(0, 0)
}

/// One, as `rust_decimal` writes it.
pub open spec fn one() -> Dec {
    dec(1, 0)
}

impl Dec {
    /// Mantissa and scale lie in the ranges a `Decimal` can hold.
    pub open spec fn wf(self) -> bool {
        -MAX_MANTISSA <= self.mantissa <= MAX_MANTISSA && self.scale <= MAX_SCALE
    }

    /// The exact value, counted in units of 10^-28.
    pub open spec fn units(self) -> int {
        self.mantissa * pow10((MAX_SCALE - self.scale) as nat)
    }

    /// Builds `mantissa / 10^scale`.
    pub fn new(mantissa: i128, scale: u32) -> (r: Dec)
        ensures
            r == dec(mantissa as int, scale as int),
    {
        Dec { mantissa, scale }
    }

    /// Zero.
    pub fn zero() -> (r: Dec)
        ensures
            r == zero(),
            r.wf(),
            r.units() == 0,
    {
        Dec { mantissa: 0, scale: 0 }
    }

    /// An integer.
    pub fn from_i32(n: i32) -> (r: Dec)
        ensures
            r == dec(n as int, 0),
            r.wf(),
    {
        Dec { mantissa: n as i128, scale: 0 }
    }

    /// Whether the value is zero.
    pub fn is_zero(&self) -> (r: bool)
        ensures
            r == (self.mantissa == 0),
    {
        self.mantissa == 0
    }

    /// Whether the value is below zero.
    pub fn is_negative(&self) -> (r: bool)
        ensures
            r == (self.mantissa < 0),
    {
        self.mantissa < 0
    }

    /// Whether the value is above zero.
    pub fn is_positive(&self) -> (r: bool)
        ensures
            r == (self.mantissa > 0),
    {
        self.mantissa > 0
    }

    /// The absolute value, at the same scale.
    pub fn abs(&self) -> (r: Dec)
        requires
            self.wf(),
        ensures
            r.wf(),
            r.scale == self.scale,
            r.mantissa == abs_int(self.mantissa as int),
            r.units() == abs_int(self.units()),
    {
        proof {
            lemma_units_sign(*self);
        }
        if self.mantissa < 0 {
            Dec { mantissa: -self.mantissa, scale: self.scale }
        } else {
            *self
        }
    }
}

/// `|x|`.
pub open spec fn abs_int(x: int) -> int {
    if x < 0 {
        -x
    } else {
        x
    }
}

pub proof fn lemma_pow10_pos(n: nat)
    ensures
        pow10(n) > 0,
    decreases n,
{
    if n > 0 {
        lemma_pow10_pos((n - 1) as nat);
    }
}

/// A value's sign is its mantissa's sign.
pub proof fn lemma_units_sign(d: Dec)
    ensures
        (d.units() < 0) == (d.mantissa < 0),
        (d.units() == 0) == (d.mantissa == 0),
        (d.units() > 0) == (d.mantissa > 0),
        abs_int(d.units()) == abs_int(d.mantissa as int) * pow10((MAX_SCALE - d.scale) as nat),
{
    let p = pow10((MAX_SCALE - d.scale) as nat);
    lemma_pow10_pos((MAX_SCALE - d.scale) as nat);
    assert((d.mantissa < 0) ==> d.mantissa * p < 0) by (nonlinear_arith)
        requires
            p > 0,
    ;
    assert((d.mantissa > 0) ==> d.mantissa * p > 0) by (nonlinear_arith)
        requires
            p > 0,
    ;
    assert(abs_int(d.mantissa * p) == abs_int(d.mantissa as int) * p) by (nonlinear_arith)
        requires
            p > 0,
    ;
}

/// A decimal fits at its own scale.
pub proof fn lemma_fits_own_scale(d: Dec)
    requires
        d.wf(),
    ensures
        fits_at(d.units(), d.scale as nat),
{
    lemma_units_sign(d);
    let p = pow10((MAX_SCALE - d.scale) as nat);
    lemma_pow10_pos((MAX_SCALE - d.scale) as nat);
    assert(abs_int(d.mantissa as int) * p <= MAX_MANTISSA * p) by (nonlinear_arith)
        requires
            abs_int(d.mantissa as int) <= MAX_MANTISSA,
            p > 0,
    ;
}

/// Two decimals of equal value subtract without rounding.
pub proof fn lemma_equal_values_subtract_exactly(a: Dec, b: Dec)
    requires
        a.wf(),
        b.wf(),
        a.units() == b.units(),
    ensures
        exact_sum_fits(a, b, -1),
{
    lemma_fits_own_scale(a);
    lemma_fits_own_scale(b);
    lemma_pow10_pos((MAX_SCALE - common_scale(a, b)) as nat);
    assert(MAX_MANTISSA * pow10((MAX_SCALE - common_scale(a, b)) as nat) >= 0) by (nonlinear_arith)
        requires
            pow10((MAX_SCALE - common_scale(a, b)) as nat) > 0,
    ;
}

/// `u` has a mantissa of at most 96 bits at scale `s`.
pub open spec fn fits_at(u: int, s: nat) -> bool {
    abs_int(u) <= MAX_MANTISSA * pow10((MAX_SCALE - s) as nat)
}

/// The larger of two scales, at which sums are computed.
pub open spec fn common_scale(a: Dec, b: Dec) -> nat {
    if a.scale >= b.scale {
        a.scale as nat
    } else {
        b.scale as nat
    }
}

/// Both terms and the exact sum `a.units() + sign * b.units()` fit at the
/// common scale, where `rust_decimal` adds without rounding.
pub open spec fn exact_sum_fits(a: Dec, b: Dec, sign: int) -> bool {
    let s = common_scale(a, b);
    fits_at(a.units(), s) && fits_at(b.units(), s) && fits_at(a.units() + sign * b.units(), s)
}

/// The exact product of two decimals, as `rust_decimal` writes it when no
/// rounding is needed.
pub open spec fn exact_product(a: Dec, b: Dec) -> Dec {
    if a.mantissa == 0 || b.mantissa == 0 {
        zero()
    } else {
        dec(a.mantissa * b.mantissa, a.scale + b.scale)
    }
}

/// The product of `a` and `b` needs no rounding.
pub open spec fn product_is_exact(a: Dec, b: Dec) -> bool {
    a.mantissa == 0 || b.mantissa == 0 || (a.scale + b.scale <= MAX_SCALE && abs_int(
        a.mantissa * b.mantissa,
    ) <= MAX_MANTISSA)
}

/// Round half to even of `u / q`.
pub open spec fn round_half_even(u: int, q: int) -> int {
    let f = u / q;
    let rem = u - f * q;
    if 2 * rem < q {
        f
    } else if 2 * rem > q {
        f + 1
    } else if f % 2 == 0 {
        f
    } else {
        f + 1
    }
}

/// What `Decimal::saturating_add` returns.
pub uninterp spec fn sum_of(a: Dec, b: Dec) -> Dec;

/// What `Decimal::saturating_sub` returns.
pub uninterp spec fn difference_of(a: Dec, b: Dec) -> Dec;

/// What `Decimal::saturating_mul` returns.
pub uninterp spec fn product_of(a: Dec, b: Dec) -> Dec;

/// What `Decimal::checked_div` returns.
pub uninterp spec fn quotient_of(a: Dec, b: Dec) -> Option<Dec>;

/// What `Decimal::checked_exp` returns: an approximation of e^x.
pub uninterp spec fn exp_of(x: Dec) -> Option<Dec>;

/// What `Decimal::checked_ln` returns: an approximation of the natural logarithm.
pub uninterp spec fn ln_of(x: Dec) -> Option<Dec>;

/// Relies on `Decimal::saturating_add`: the sum, exact where it fits at the
/// larger scale; with a zero first term the second comes back unchanged, and
/// with only the second term zero the first does; non-negative terms give a
/// non-negative sum.
#[verifier::external_body]
pub(crate) fn dec_add(a: Dec, b: Dec) -> (r: Dec)
    requires
        a.wf(),
        b.wf(),
    ensures
        r.wf(),
        r == sum_of(a, b),
        a.mantissa == 0 ==> r == b,
        a.mantissa != 0 && b.mantissa == 0 ==> r == a,
        exact_sum_fits(a, b, 1) ==> r.units() == a.units() + b.units(),
        a.mantissa >= 0 && b.mantissa >= 0 ==> r.mantissa >= 0,
{
    let x = Decimal::from_i128_with_scale(a.mantissa, a.scale);
    let y = Decimal::from_i128_with_scale(b.mantissa, b.scale);
    let z = x.saturating_add(y);
    Dec { mantissa: z.mantissa(), scale: z.scale() }
}

/// Relies on `Decimal::saturating_sub`: the difference, exact where it fits
/// at the larger scale; `-b` at `b`'s scale when `a` is zero, and `a`
/// unchanged when only `b` is zero.
#[verifier::external_body]
pub(crate) fn dec_sub(a: Dec, b: Dec) -> (r: Dec)
    requires
        a.wf(),
        b.wf(),
    ensures
        r.wf(),
        r == difference_of(a, b),
        a.mantissa == 0 ==> r == dec(-b.mantissa, b.scale as int),
        a.mantissa != 0 && b.mantissa == 0 ==> r == a,
        exact_sum_fits(a, b, -1) ==> r.units() == a.units() - b.units(),
{
    let x = Decimal::from_i128_with_scale(a.mantissa, a.scale);
    let y = Decimal::from_i128_with_scale(b.mantissa, b.scale);
    let z = x.saturating_sub(y);
    Dec { mantissa: z.mantissa(), scale: z.scale() }
}

/// Relies on `Decimal::saturating_mul`: zero when a factor is zero, the
/// mantissas multiplied with the scales added when that fits, and the sign
/// of the product of the signs.
#[verifier::external_body]
pub(crate) fn dec_mul(a: Dec, b: Dec) -> (r: Dec)
    requires
        a.wf(),
        b.wf(),
    ensures
        r.wf(),
        r == product_of(a, b),
        product_is_exact(a, b) ==> r == exact_product(a, b),
        a.mantissa >= 0 && b.mantissa >= 0 ==> r.mantissa >= 0,
{
    let x = Decimal::from_i128_with_scale(a.mantissa, a.scale);
    let y = Decimal::from_i128_with_scale(b.mantissa, b.scale);
    let z = x.saturating_mul(y);
    Dec { mantissa: z.mantissa(), scale: z.scale() }
}

/// Relies on `Decimal::checked_div`: `None` for a zero divisor, zero for a
/// zero dividend, `None` also on overflow.
#[verifier::external_body]
pub(crate) fn dec_div(a: Dec, b: Dec) -> (r: Option<Dec>)
    requires
        a.wf(),
        b.wf(),
    ensures
        r == quotient_of(a, b),
        r matches Some(q) ==> q.wf(),
        b.mantissa == 0 ==> r is None,
        b.mantissa != 0 && a.mantissa == 0 ==> r == Some(zero()),
{
    let x = Decimal::from_i128_with_scale(a.mantissa, a.scale);
    let y = Decimal::from_i128_with_scale(b.mantissa, b.scale);
    match x.checked_div(y) {
        Some(z) => Some(Dec { mantissa: z.mantissa(), scale: z.scale() }),
        None => None,
    }
}

/// Relies on `MathematicalOps::checked_exp` of `Decimal`: exactly one at
/// zero, `None` where the result leaves the decimal range.
#[verifier::external_body]
pub(crate) fn dec_exp(x: Dec) -> (r: Option<Dec>)
    requires
        x.wf(),
    ensures
        r == exp_of(x),
        r matches Some(e) ==> e.wf(),
        x.mantissa == 0 ==> r == Some(one()),
{
    let d = Decimal::from_i128_with_scale(x.mantissa, x.scale);
    match d.checked_exp() {
        Some(z) => Some(Dec { mantissa: z.mantissa(), scale: z.scale() }),
        None => None,
    }
}

/// Relies on `MathematicalOps::checked_ln` of `Decimal`: `None` for zero and
/// negative numbers, exactly zero at one.
#[verifier::external_body]
pub(crate) fn dec_ln(x: Dec) -> (r: Option<Dec>)
    requires
        x.wf(),
    ensures
        r == ln_of(x),
        r matches Some(l) ==> l.wf(),
        x.units() <= 0 ==> r is None,
        x.units() == pow10(28) ==> r == Some(zero()),
{
    let d = Decimal::from_i128_with_scale(x.mantissa, x.scale);
    match d.checked_ln() {
        Some(z) => Some(Dec { mantissa: z.mantissa(), scale: z.scale() }),
        None => None,
    }
}

/// Relies on `Decimal::round`: the nearest integer, ties to even.
#[verifier::external_body]
pub(crate) fn dec_round(x: Dec) -> (r: Dec)
    requires
        x.wf(),
    ensures
        r.wf(),
        r.units() == pow10(28) * round_half_even(x.units(), pow10(28)),
{
    let d = Decimal::from_i128_with_scale(x.mantissa, x.scale);
    let z = d.round();
    Dec { mantissa: z.mantissa(), scale: z.scale() }
}

/// Relies on the ordering of `Decimal`, which compares values.
#[verifier::external_body]
pub(crate) fn dec_lt(a: Dec, b: Dec) -> (r: bool)
    requires
        a.wf(),
        b.wf(),
    ensures
        r == (a.units() < b.units()),
{
    Decimal::from_i128_with_scale(a.mantissa, a.scale) < Decimal::from_i128_with_scale(
        b.mantissa,
        b.scale,
    )
}

/// The integer part of `d`, rounded toward zero.
pub open spec fn trunc_of(d: Dec) -> int {
    if d.mantissa < 0 {
        -(abs_int(d.mantissa as int) / pow10(d.scale as nat))
    } else {
        (d.mantissa as int) / pow10(d.scale as nat)
    }
}

impl Dec {
    /// The integer part as an `i32`, or `None` where it does not fit.
    pub fn to_i32(&self) -> (r: Option<i32>)
        requires
            self.wf(),
        ensures
            r == (if i32::MIN <= trunc_of(*self) <= i32::MAX {
                Some(trunc_of(*self) as i32)
            } else {
                None
            }),
    {
        let d = *self;
        let negative = d.mantissa < 0;
        let magnitude: u128 = if negative {
            (-d.mantissa) as u128
        } else {
            d.mantissa as u128
        };
        let mut m: u128 = magnitude;
        let mut i: u32 = 0;
        while i < d.scale
            invariant
                i <= d.scale,
                magnitude == abs_int(d.mantissa as int),
                m == (magnitude as int) / pow10(i as nat),
            decreases d.scale - i,
        {
            proof {
                lemma_pow10_pos(i as nat);
                lemma_div_denominator(magnitude as int, pow10(i as nat), 10);
                assert(pow10((i + 1) as nat) == pow10(i as nat) * 10);
            }
            m = m / 10;
            i = i + 1;
        }
        if negative {
            if m <= 2147483648 {
                Some((-(m as i128)) as i32)
            } else {
                None
            }
        } else {
            if m <= 2147483647 {
                Some(m as i32)
            } else {
                None
            }
        }
    }
}

pub proof fn lemma_pow10_add(a: nat, b: nat)
    ensures
        pow10(a + b) == pow10(a) * pow10(b),
    decreases a,
{
    if a > 0 {
        lemma_pow10_add((a - 1) as nat, b);
        let pa = pow10((a - 1) as nat);
        let pb = pow10(b);
        assert(pow10(a + b) == 10 * pow10((a - 1 + b) as nat));
        assert(pow10(a) == 10 * pa);
        assert(pow10(a) * pb == 10 * (pa * pb)) by (nonlinear_arith)
            requires
                pow10(a) == 10 * pa,
        ;
    } else {
        assert(a + b == b);
    }
}

/// A decimal whose value is the integer `n` has `n` as its integer part.
pub proof fn lemma_integral_trunc(d: Dec, n: int)
    requires
        d.wf(),
        d.units() == pow10(28) * n,
    ensures
        trunc_of(d) == n,
{
    let s = d.scale as nat;
    let p = pow10((28 - s) as nat);
    let q = pow10(s);
    lemma_pow10_add(s, (28 - s) as nat);
    lemma_pow10_pos(s);
    lemma_pow10_pos((28 - s) as nat);
    assert(d.mantissa * p == n * q * p) by (nonlinear_arith)
        requires
            d.mantissa * p == pow10(28) * n,
            pow10(28) == q * p,
    ;
    assert(d.mantissa == n * q) by (nonlinear_arith)
        requires
            d.mantissa * p == n * q * p,
            p > 0,
    ;
    if d.mantissa < 0 {
        assert(abs_int(d.mantissa as int) == (-n) * q) by (nonlinear_arith)
            requires
                d.mantissa == n * q,
                d.mantissa < 0,
        ;
        lemma_div_multiples_vanish(-n, q);
    } else {
        lemma_div_multiples_vanish(n, q);
    }
}

} // verus!
