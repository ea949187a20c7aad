//! Fixed-point numbers with eighteen decimal places, as used for rates, ratios,
//! exchange rates and prices. The arithmetic itself is done by
//! `sp_arithmetic::FixedU128`; this module states what each operation returns.
use sp_arithmetic::traits::Saturating;
use sp_arithmetic::{FixedPointNumber, FixedU128};
use vstd::prelude::*;

verus! {

/// Number of inner units in `1.0`.
pub const ACCURACY: u128 = 1_000_000_000_000_000_000;

/// The integer value of `ACCURACY`, for specifications.
pub open spec fn accuracy() -> int {
    1_000_000_000_000_000_000
}

/// Clamp a mathematical integer to the range of `u128` from above.
pub open spec fn saturate(x: int) -> int {
    if x > u128::MAX as int {
        u128::MAX as int
    } else {
        x
    }
}

/// `a * b / accuracy`, rounded down, saturated at `u128::MAX`.
pub open spec fn mul_down(a: int, b: int) -> int {
    saturate((a * b) / accuracy())
}

/// An unsigned fixed-point number: `inner / ACCURACY`.
#[derive(PartialEq, Eq, Structural, Clone, Copy, Debug)]
pub struct Fixed {
    pub inner: u128,
}

/// Per-block fee or penalty rate.
pub type Rate = Fixed;

/// Collateral ratio or slippage.
pub type Ratio = Fixed;

/// Stablecoin value of one debit unit.
pub type ExchangeRate = Fixed;

/// Relative price of two currencies.
pub type Price = Fixed;

/// Relies on `FixedU128::saturating_mul` (trait `Saturating`): the exact product
/// divided by the accuracy, rounded down, or the maximum when it does not fit.
#[verifier::external_body]
fn fixed_u128_saturating_mul(a: u128, b: u128) -> (r: u128)
    ensures
        r as int == mul_down(a as int, b as int),
{
    FixedU128::from_inner(a).saturating_mul(FixedU128::from_inner(b)).into_inner()
}

/// Relies on `FixedU128::saturating_add` (trait `Saturating`): the sum of the inner
/// values, or the maximum when it does not fit.
#[verifier::external_body]
fn fixed_u128_saturating_add(a: u128, b: u128) -> (r: u128)
    ensures
        r as int == saturate(a as int + b as int),
{
    <FixedU128 as Saturating>::saturating_add(FixedU128::from_inner(a), FixedU128::from_inner(b)).into_inner()
}

/// Relies on `FixedPointNumber::saturating_mul_int` for `FixedU128` and `u128`: the
/// exact product of the inner value and `n`, divided by the accuracy, rounded down,
/// or the maximum when it does not fit.
#[verifier::external_body]
fn fixed_u128_saturating_mul_int(a: u128, n: u128) -> (r: u128)
    ensures
        r as int == mul_down(a as int, n as int),
{
    FixedU128::from_inner(a).saturating_mul_int(n)
}

/// Relies on `FixedPointNumber::checked_from_rational` for `FixedU128` and `u128`:
/// `None` when `d` is zero or `n / d` does not fit, otherwise `n / d` rounded down.
#[verifier::external_body]
fn fixed_u128_checked_from_rational(n: u128, d: u128) -> (r: Option<u128>)
    ensures
        d == 0 ==> r.is_none(),
        d != 0 ==> (r.is_some() <==> (n as int * accuracy()) / (d as int) <= u128::MAX as int),
        r matches Some(v) ==> v as int == (n as int * accuracy()) / (d as int),
{
    FixedU128::checked_from_rational(n, d).map(|f: FixedU128| f.into_inner())
}

impl Fixed {
    /// The inner value as an integer: the number times `ACCURACY`.
    pub open spec fn value(self) -> int {
        self.inner as int
    }

    /// `0.0`.
    pub fn zero() -> (r: Fixed)
        ensures
            r.inner == 0,
    {
        Fixed { inner: 0 }
    }

    /// `1.0`.
    pub fn one() -> (r: Fixed)
        ensures
            r.inner == ACCURACY,
    {
        Fixed { inner: ACCURACY }
    }

    pub fn from_inner(inner: u128) -> (r: Fixed)
        ensures
            r.inner == inner,
    {
        Fixed { inner }
    }

    pub fn into_inner(self) -> (r: u128)
        ensures
            r == self.inner,
    {
        self.inner
    }

    pub fn is_zero(&self) -> (r: bool)
        ensures
            r == (self.inner == 0),
    {
        self.inner == 0
    }

    /// `self * rhs`, rounded down, saturated.
    pub fn saturating_mul(self, rhs: Fixed) -> (r: Fixed)
        ensures
            r.value() == mul_down(self.value(), rhs.value()),
    {
        Fixed { inner: fixed_u128_saturating_mul(self.inner, rhs.inner) }
    }

    /// `self + rhs`, saturated.
    pub fn saturating_add(self, rhs: Fixed) -> (r: Fixed)
        ensures
            r.value() == saturate(self.value() + rhs.value()),
    {
        Fixed { inner: fixed_u128_saturating_add(self.inner, rhs.inner) }
    }

    /// The integer `self * n`, rounded down, saturated.
    pub fn saturating_mul_int(self, n: u128) -> (r: u128)
        ensures
            r as int == mul_down(self.value(), n as int),
    {
        fixed_u128_saturating_mul_int(self.inner, n)
    }

    /// The fixed-point quotient `n / d`, rounded down: `None` when `d` is zero or the
    /// quotient does not fit.
    pub fn checked_from_rational(n: u128, d: u128) -> (r: Option<Fixed>)
        ensures
            d == 0 ==> r.is_none(),
            d != 0 ==> (r.is_some() <==> (n as int * accuracy()) / (d as int) <= u128::MAX as int),
            r matches Some(v) ==> v.value() == (n as int * accuracy()) / (d as int),
    {
        match fixed_u128_checked_from_rational(n, d) {
            Some(v) => Some(Fixed { inner: v }),
            None => None,
        }
    }
}

} // verus!
