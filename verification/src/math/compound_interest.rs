//! Compound interest.

use crate::cal_types::{NewDeposit, NewDepositView};
use crate::decimal::{
    checked_add, checked_div, checked_mul, checked_powd, checked_sub, checked_difference,
    decimal_power, checked_product, checked_quotient, checked_sum, round_dp, rounded, Decimal,
    DecimalValue,
};
use crate::math::individual_calculation_error::{is_overflow, Error};
use crate::math::simple_interest::hundred;
use vstd::prelude::*;

verus! {

/// The number one: the interest is compounded once a year.
pub open spec fn one() -> DecimalValue {
    DecimalValue { mantissa: 1, scale: 0 }
}

/// What a principal of one has grown to after `years` years at `apy` percent
/// a year, compounded `n` times a year: `(1 + r/n)^(n*t)` with `r = apy / 100`.
pub open spec fn growth_factor(apy: DecimalValue, years: DecimalValue, n: DecimalValue) -> Option<
    DecimalValue,
> {
    match checked_quotient(apy, hundred()) {
        None => None,
        Some(rate) => match checked_quotient(rate, n) {
            None => None,
            Some(per_period) => match checked_sum(one(), per_period) {
                None => None,
                Some(base) => match checked_product(n, years) {
                    None => None,
                    Some(periods) => decimal_power(base, periods),
                },
            },
        },
    }
}

/// Compound interest of a deposit: `A = P * (1 + r/n)^(n*t)` with `n = 1`, less
/// the principal `P`, rounded to two decimal places at the end; `None` where an
/// intermediate result is out of range.
pub open spec fn compound_interest(deposit: NewDepositView) -> Option<DecimalValue> {
    match growth_factor(deposit.apy, deposit.years, one()) {
        None => None,
        Some(factor) => match checked_product(deposit.amount, factor) {
            None => None,
            Some(total_amount) => match checked_difference(total_amount, deposit.amount) {
                None => None,
                Some(interest) => Some(rounded(interest, 2)),
            },
        },
    }
}

/// Computes `(1 + r/n)^(n*t)`.
fn compute_growth_factor(apy: Decimal, years: Decimal, n: Decimal) -> (factor: Option<Decimal>)
    ensures
        crate::decimal::value_of(factor) == growth_factor(apy@, years@, n@),
{
    let rate = checked_div(apy, Decimal::new(100, 0))?;
    let per_period = checked_div(rate, n)?;
    let base = checked_add(Decimal::new(1, 0), per_period)?;
    let periods = checked_mul(n, years)?;
    checked_powd(base, periods)
}

/// Computes the compound interest of a deposit over its whole duration,
/// compounded once a year.
pub fn compute_interest(deposit: &NewDeposit) -> (r: Result<Decimal, Error>)
    ensures
        match r {
            Ok(interest) => compound_interest(deposit@) == Some(interest@),
            Err(e) => compound_interest(deposit@) is None && is_overflow(e),
        },
{
    let principal = deposit.amount;
    let n = Decimal::new(1, 0);
    let factor = match compute_growth_factor(deposit.apy, deposit.years, n) {
        Some(factor) => factor,
        None => {
            return Err(Error::overflow());
        },
    };
    let total_amount = match checked_mul(principal, factor) {
        Some(total_amount) => total_amount,
        None => {
            return Err(Error::overflow());
        },
    };
    match checked_sub(total_amount, principal) {
        Some(interest) => Ok(round_dp(interest, 2)),
        None => Err(Error::overflow()),
    }
}

} // verus!
