//! The total at maturity.

use crate::decimal::{checked_add, checked_sum, round_dp, rounded, Decimal, DecimalValue};
use crate::math::individual_calculation_error::{is_overflow, Error};
use vstd::prelude::*;

verus! {

/// The total at maturity: principal plus interest, rounded to two decimal
/// places; `None` where the sum is out of range.
pub open spec fn total(initial_amount: DecimalValue, interest: DecimalValue) -> Option<
    DecimalValue,
> {
    match checked_sum(initial_amount, interest) {
        Some(sum) => Some(rounded(sum, 2)),
        None => None,
    }
}

/// Computes the total at maturity of a principal and its interest.
pub fn compute(initial_amount: Decimal, interest: Decimal) -> (r: Result<Decimal, Error>)
    ensures
        match r {
            Ok(t) => total(initial_amount@, interest@) == Some(t@),
            Err(e) => total(initial_amount@, interest@) is None && is_overflow(e),
        },
{
    match checked_add(initial_amount, interest) {
        Some(sum) => Ok(round_dp(sum, 2)),
        None => Err(Error::overflow()),
    }
}

} // verus!
