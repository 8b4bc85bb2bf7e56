//! Simple interest.

use crate::cal_types::{NewDeposit, NewDepositView};
use crate::decimal::{
    checked_div, checked_mul, checked_product, checked_quotient, round_dp, rounded, Decimal,
    DecimalValue,
};
use crate::math::individual_calculation_error::{is_overflow, Error};
use vstd::prelude::*;

verus! {

/// The number one hundred, by which a percentage is divided.
pub open spec fn hundred() -> DecimalValue {
    DecimalValue { mantissa: 100, scale: 0 }
}

/// Simple interest of a deposit: `I = P * R * T`, with the principal `P`, the
/// annual rate `R = apy / 100` and the time `T` in years, rounded to two
/// decimal places at the end; `None` where an intermediate result is out of
/// range.
pub open spec fn simple_interest(deposit: NewDepositView) -> Option<DecimalValue> {
    match checked_quotient(deposit.apy, hundred()) {
        None => None,
        Some(rate) => match checked_product(deposit.amount, rate) {
            None => None,
            Some(yearly) => match checked_product(yearly, deposit.years) {
                None => None,
                Some(interest) => Some(rounded(interest, 2)),
            },
        },
    }
}

/// Computes the simple interest of a deposit over its whole duration.
pub fn compute_interest(deposit: &NewDeposit) -> (r: Result<Decimal, Error>)
    ensures
        match r {
            Ok(interest) => simple_interest(deposit@) == Some(interest@),
            Err(e) => simple_interest(deposit@) is None && is_overflow(e),
        },
{
    let principal = deposit.amount;
    let rate = match checked_div(deposit.apy, Decimal::new(100, 0)) {
        Some(rate) => rate,
        None => {
            return Err(Error::overflow());
        },
    };
    let years = deposit.years;
    let yearly = match checked_mul(principal, rate) {
        Some(yearly) => yearly,
        None => {
            return Err(Error::overflow());
        },
    };
    match checked_mul(yearly, years) {
        Some(simple) => Ok(round_dp(simple, 2)),
        None => Err(Error::overflow()),
    }
}

} // verus!
