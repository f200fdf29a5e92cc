use vstd::prelude::*;
use crate::math::checked_mul_div;

verus! {

/// Atomic units in one whole: eighteen fractional digits.
pub const DECIMAL_FRACTIONAL: u128 = 1_000_000_000_000_000_000;

/// A fixed-point number with eighteen fractional digits, held as a count of
/// atomic units.
#[derive(Clone, Copy, Debug, PartialEq, Eq, Structural)]
pub struct Decimal {
    pub atomics: u128,
}

/// The atomic units of `numerator / denominator`, rounded down; nothing when
/// the denominator is zero or the quotient exceeds 128 bits.
pub open spec fn ratio_atomics(numerator: u128, denominator: u128) -> Option<u128> {
    checked_mul_div(numerator, DECIMAL_FRACTIONAL, denominator)
}

/// Calls `cosmwasm_std::Decimal::checked_from_ratio` and hands back the
/// atomic units of its result. The contract claims that it computes
/// `numerator * 10^18 / denominator` rounded down, and fails exactly on a zero
/// denominator or a quotient beyond 128 bits.
#[verifier::external_body]
fn decimal_checked_from_ratio(numerator: u128, denominator: u128) -> (r: Option<u128>)
    ensures
        r == ratio_atomics(numerator, denominator),
{
    match cosmwasm_std::Decimal::checked_from_ratio(numerator, denominator) {
        Ok(d) => Some(d.atomics().u128()),
        Err(_) => None,
    }
}

impl Decimal {
    /// The decimal made of `atomics` atomic units.
    pub fn new(atomics: u128) -> (d: Decimal)
        ensures
            d.atomics == atomics,
    {
        Decimal { atomics }
    }

    /// 0.0
    pub fn zero() -> (d: Decimal)
        ensures
            d.atomics == 0,
    {
        Decimal { atomics: 0 }
    }

    /// 1.0
    pub fn one() -> (d: Decimal)
        ensures
            d.atomics == DECIMAL_FRACTIONAL,
    {
        Decimal { atomics: DECIMAL_FRACTIONAL }
    }

    /// `x` percent.
    pub fn percent(x: u64) -> (d: Decimal)
        ensures
            d.atomics == x * 10_000_000_000_000_000,
    {
        let x128: u128 = x as u128;
        Decimal { atomics: x128 * 10_000_000_000_000_000 }
    }

    /// The number of atomic units.
    pub fn atomics(&self) -> (a: u128)
        ensures
            a == self.atomics,
    {
        self.atomics
    }

    /// `numerator / denominator` rounded down to eighteen digits, or `None`
    /// when the denominator is zero or the ratio is out of range.
    pub fn checked_from_ratio(numerator: u128, denominator: u128) -> (r: Option<Decimal>)
        ensures
            match ratio_atomics(numerator, denominator) {
                Some(a) => r == Some(Decimal { atomics: a }),
                None => r is None,
            },
    {
        match decimal_checked_from_ratio(numerator, denominator) {
            Some(a) => Some(Decimal { atomics: a }),
            None => None,
        }
    }

    /// Whether the value lies in `[0, 1]`.
    pub open spec fn is_fraction(&self) -> bool {
        self.atomics <= DECIMAL_FRACTIONAL
    }
}

} // verus!
