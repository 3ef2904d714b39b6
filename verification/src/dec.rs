//! Fixed-point amounts.
//!
//! Pooled value, the commission pool and the commission rate are kept as
//! fixed-point numbers with six fractional digits, wide enough that balances
//! multiplied by rates stay inside the machine word. A `Decimal` stores the
//! raw count of fractional units; the number it denotes is `raw / FRACTIONAL`.

use vstd::prelude::*;

verus! {

/// Number of raw units in one whole unit.
pub const FRACTIONAL: u128 = 1_000_000;

/// A non-negative fixed-point number with six fractional digits.
#[derive(Clone, Copy, Debug, PartialEq, Eq, Structural)]
pub struct Decimal {
    pub raw: u128,
}

impl Decimal {
    /// The number zero.
    pub fn zero() -> (r: Decimal)
        ensures
            r.raw == 0,
    {
        Decimal { raw: 0 }
    }

    /// The number one.
    pub fn one() -> (r: Decimal)
        ensures
            r.raw == FRACTIONAL,
    {
        Decimal { raw: FRACTIONAL }
    }

    /// Whether this is exactly zero.
    pub fn is_zero(&self) -> (r: bool)
        ensures
            r == (self.raw == 0),
    {
        self.raw == 0
    }

    /// The whole number `u`, as a fixed-point value.
    pub fn from_uint(u: u128) -> (r: Decimal)
        requires
            u * FRACTIONAL <= u128::MAX,
        ensures
            r.raw == u * FRACTIONAL,
    {
        Decimal { raw: u * FRACTIONAL }
    }

    /// The whole part of this value, truncating the fraction.
    pub fn to_uint(self) -> (r: u128)
        ensures
            r == self.raw as int / FRACTIONAL as int,
    {
        self.raw / FRACTIONAL
    }

    /// Sum of two fixed-point values.
    pub fn add_dec(self, other: Decimal) -> (r: Decimal)
        requires
            self.raw + other.raw <= u128::MAX,
        ensures
            r.raw == self.raw + other.raw,
    {
        Decimal { raw: self.raw + other.raw }
    }

    /// Difference of two fixed-point values; `None` when it would go negative.
    pub fn checked_sub_dec(self, other: Decimal) -> (r: Option<Decimal>)
        ensures
            other.raw <= self.raw ==> (r matches Some(d) && d.raw == self.raw - other.raw),
            other.raw > self.raw ==> r is None,
    {
        if other.raw <= self.raw {
            Some(Decimal { raw: self.raw - other.raw })
        } else {
            None
        }
    }

    /// Product of two fixed-point values, truncating to six fractional digits.
    pub fn mul_dec(self, other: Decimal) -> (r: Decimal)
        requires
            self.raw * other.raw <= u128::MAX,
        ensures
            r.raw == (self.raw * other.raw) / (FRACTIONAL as int),
    {
        Decimal { raw: self.raw * other.raw / FRACTIONAL }
    }

    /// The whole number `u` scaled by this value, truncated to a whole number.
    pub fn mul_uint(self, u: u128) -> (r: u128)
        requires
            u * self.raw <= u128::MAX,
        ensures
            r == (u * self.raw) / (FRACTIONAL as int),
    {
        u * self.raw / FRACTIONAL
    }

    /// The whole number `u` divided by this value, truncated to a whole number.
    pub fn div_uint(self, u: u128) -> (r: u128)
        requires
            self.raw > 0,
            u * FRACTIONAL <= u128::MAX,
        ensures
            r == (u * FRACTIONAL) / (self.raw as int),
    {
        u * FRACTIONAL / self.raw
    }

    /// The quotient of a fixed-point value by a whole-number count,
    /// truncated to six fractional digits.
    pub fn from_ratio(numerator: Decimal, denominator: u128) -> (r: Decimal)
        requires
            denominator > 0,
        ensures
            r.raw == numerator.raw as int / denominator as int,
    {
        Decimal { raw: numerator.raw / denominator }
    }
}

} // verus!
