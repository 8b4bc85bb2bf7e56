//! The date on which a deposit matures.

use crate::date::{in_calendar, Date};
use crate::decimal::{
    checked_mul, checked_product, half_even, pow10, product_is_exact, round_dp, rounded, Decimal,
    DecimalValue, MAX_SCALE,
};
use crate::decimal_laws::{
    lemma_half_even_monotonic, lemma_half_even_of_zero, lemma_units_order,
};
use crate::math::growth::days_per_year;
use crate::math::individual_calculation_error::{is_overflow, Error};
use vstd::prelude::*;
use vstd::string::*;

verus! {

/// The days that a duration in years lasts: `years * 365`, rounded to the
/// nearest whole number, ties going to the even neighbour; `None` where the
/// product is out of range.
pub open spec fn day_count(years: DecimalValue) -> Option<int> {
    match checked_product(years, days_per_year()) {
        Some(days) => Some(rounded(days, 0).mantissa),
        None => None,
    }
}

/// Whether an error says that a day count lies above the 64-bit integers.
pub open spec fn is_too_large(error: Error) -> bool {
    error matches Error::ParseInt(detail) && detail@
        == "number too large to fit in target type"@
}

/// Whether an error says that a day count lies below the 64-bit integers.
pub open spec fn is_too_small(error: Error) -> bool {
    error matches Error::ParseInt(detail) && detail@
        == "number too small to fit in target type"@
}

/// The day on which a deposit matures that starts on day `start` and lasts
/// `years` years, if that day can be computed and is a date.
pub open spec fn maturity_day(start: int, years: DecimalValue) -> Option<int> {
    match day_count(years) {
        Some(days) => if i64::MIN <= days <= i64::MAX && in_calendar(start + days) {
            Some(start + days)
        } else {
            None
        },
        None => None,
    }
}

/// What [`maturity_date`] returns for a start day and a duration: the
/// maturity date where there is one, else the error that says why not.
pub open spec fn is_maturity_date(start: int, years: DecimalValue, r: Result<Date, Error>) -> bool {
    match r {
        Ok(date) => maturity_day(start, years) == Some(date@),
        Err(e) => match day_count(years) {
            None => is_overflow(e),
            Some(days) => if days > i64::MAX {
                is_too_large(e)
            } else if days < i64::MIN {
                is_too_small(e)
            } else {
                !in_calendar(start + days) && is_overflow(e)
            },
        },
    }
}

/// Whether the days of a duration are counted without rounding the product
/// `years * 365` before the count itself is rounded.
pub open spec fn days_are_exact(years: DecimalValue) -> bool {
    years.mantissa == 0 || product_is_exact(years, days_per_year())
}

/// The maturity date is determined by the start date and the duration: two
/// computations of it agree on whether there is one, and on the date.
pub proof fn lemma_maturity_date_is_deterministic(
    start: int,
    years: DecimalValue,
    first: Result<Date, Error>,
    second: Result<Date, Error>,
)
    requires
        is_maturity_date(start, years, first),
        is_maturity_date(start, years, second),
    ensures
        first is Ok <==> second is Ok,
        first is Ok ==> first->Ok_0@ == second->Ok_0@,
{
}

/// The day count does not fall as the duration grows: of two durations whose
/// days are counted exactly, the longer has at least as many days.
pub proof fn lemma_day_count_is_monotonic(shorter: DecimalValue, longer: DecimalValue)
    requires
        shorter.scale <= MAX_SCALE,
        longer.scale <= MAX_SCALE,
        days_are_exact(shorter),
        days_are_exact(longer),
        shorter.units() <= longer.units(),
    ensures
        day_count(shorter) is Some,
        day_count(longer) is Some,
        day_count(shorter)->0 <= day_count(longer)->0,
{
    let k1 = (shorter.scale + 1) as nat;
    let k2 = (longer.scale + 1) as nat;
    let m1 = shorter.mantissa * 3650;
    let m2 = longer.mantissa * 3650;
    assert(day_count(shorter) == Some(half_even(m1, k1))) by {
        if shorter.mantissa == 0 {
            lemma_half_even_of_zero(k1);
        }
    }
    assert(day_count(longer) == Some(half_even(m2, k2))) by {
        if longer.mantissa == 0 {
            lemma_half_even_of_zero(k2);
        }
    }
    lemma_units_order(shorter, longer);
    let p1 = pow10(shorter.scale) as int;
    let p2 = pow10(longer.scale) as int;
    assert(pow10(k1) == 10 * p1);
    assert(pow10(k2) == 10 * p2);
    assert(m1 * (10 * p2) <= m2 * (10 * p1)) by (nonlinear_arith)
        requires
            shorter.mantissa * p2 <= longer.mantissa * p1,
            m1 == shorter.mantissa * 3650,
            m2 == longer.mantissa * 3650,
    ;
    lemma_half_even_monotonic(m1, k1, m2, k2);
}

/// The maturity date does not move back as the duration grows: for one start
/// date and two durations whose days are counted exactly, the longer duration
/// matures on the same day or later.
pub proof fn lemma_maturity_date_is_monotonic(
    start: int,
    shorter: DecimalValue,
    longer: DecimalValue,
)
    requires
        shorter.scale <= MAX_SCALE,
        longer.scale <= MAX_SCALE,
        days_are_exact(shorter),
        days_are_exact(longer),
        shorter.units() <= longer.units(),
        maturity_day(start, shorter) is Some,
        maturity_day(start, longer) is Some,
    ensures
        maturity_day(start, shorter)->0 <= maturity_day(start, longer)->0,
{
    lemma_day_count_is_monotonic(shorter, longer);
}

/// Computes the date on which a deposit matures: its start date and the days
/// of its duration. The day count must fit a 64-bit integer and the date must
/// lie within the calendar; each failure is an error of its own.
pub fn maturity_date(start_date: Date, years: Decimal) -> (r: Result<Date, Error>)
    ensures
        is_maturity_date(start_date@, years@, r),
{
    let product = match checked_mul(years, Decimal::new(3650, 1)) {
        Some(product) => product,
        None => {
            return Err(Error::overflow());
        },
    };
    let days = round_dp(product, 0).mantissa();
    if days > i64::MAX as i128 {
        return Err(Error::ParseInt(String::from_str("number too large to fit in target type")));
    }
    if days < i64::MIN as i128 {
        return Err(Error::ParseInt(String::from_str("number too small to fit in target type")));
    }
    match start_date.checked_add_days(days as i64) {
        Some(date) => Ok(date),
        None => Err(Error::overflow()),
    }
}

} // verus!
