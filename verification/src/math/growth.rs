//! Growth within a reporting period.

use crate::cal_types::{NewDelta, NewDeltaView, NewDeposit, NewDepositView, PeriodUnit};
use crate::decimal::{
    checked_div, checked_mul, checked_product, checked_quotient, round_dp, rounded, value_of,
    Decimal, DecimalValue,
};
use crate::math::individual_calculation_error::{is_overflow, Error};
use vstd::prelude::*;
use vstd::string::*;

verus! {

/// The days in a year, as counted here: 365, leap years or not.
pub open spec fn days_per_year() -> DecimalValue {
    DecimalValue { mantissa: 3650, scale: 1 }
}

/// The days in a month, as counted here: 30 for every month.
pub open spec fn days_per_month() -> DecimalValue {
    DecimalValue { mantissa: 300, scale: 1 }
}

/// The days in a week.
pub open spec fn days_per_week() -> DecimalValue {
    DecimalValue { mantissa: 70, scale: 1 }
}

/// The length of a reporting period in days: a week has 7 days, a month 30, a
/// year 365; a period in days, or in no stated unit, counts as it stands.
pub open spec fn period_in_days(delta: NewDeltaView) -> Option<DecimalValue> {
    match delta.period_unit {
        PeriodUnit::Day => Some(delta.period),
        PeriodUnit::Week => checked_product(delta.period, days_per_week()),
        PeriodUnit::Month => checked_product(delta.period, days_per_month()),
        PeriodUnit::Year => checked_product(delta.period, days_per_year()),
        PeriodUnit::Unspecified => Some(delta.period),
    }
}

/// The growth of a deposit that lasts more than zero years: the interest per
/// day, `interest / (365 * years)`, times the days of the reporting period,
/// rounded to two decimal places at the end; `None` where an intermediate
/// result is out of range.
pub open spec fn growth(years: DecimalValue, interest: DecimalValue, delta: NewDeltaView) -> Option<
    DecimalValue,
> {
    match checked_product(days_per_year(), years) {
        None => None,
        Some(days) => match checked_quotient(interest, days) {
            None => None,
            Some(per_day) => match period_in_days(delta) {
                None => None,
                Some(period) => match checked_product(per_day, period) {
                    None => None,
                    Some(g) => Some(rounded(g, 2)),
                },
            },
        },
    }
}

/// Whether an error says that growth was asked for a deposit of zero years.
pub open spec fn is_zero_years(error: Error) -> bool {
    error matches Error::ZeroYears(detail) && detail@
        == "cannot calculate growth for zero years"@
}

/// Computes the length of a reporting period in days.
fn compute_period_in_days(delta: &NewDelta) -> (days: Option<Decimal>)
    ensures
        value_of(days) == period_in_days(delta@),
{
    match delta.period_unit {
        PeriodUnit::Day => Some(delta.period),
        PeriodUnit::Week => checked_mul(delta.period, Decimal::new(70, 1)),
        PeriodUnit::Month => checked_mul(delta.period, Decimal::new(300, 1)),
        PeriodUnit::Year => checked_mul(delta.period, Decimal::new(3650, 1)),
        _ => Some(delta.period),
    }
}

/// Computes the growth of a deposit with the given interest within a reporting
/// period. A deposit of zero years has no growth per day: that is an error,
/// whatever its rate and principal.
pub fn compute(deposit: &NewDeposit, interest: Decimal, delta: &NewDelta) -> (r: Result<
    Decimal,
    Error,
>)
    ensures
        match r {
            Ok(g) => deposit@.years.mantissa != 0 && growth(deposit@.years, interest@, delta@)
                == Some(g@),
            Err(e) => if deposit@.years.mantissa == 0 {
                is_zero_years(e)
            } else {
                growth(deposit@.years, interest@, delta@) is None && is_overflow(e)
            },
        },
{
    if deposit.years.is_zero() {
        return Err(Error::ZeroYears(String::from_str("cannot calculate growth for zero years")));
    }
    let days = match checked_mul(Decimal::new(3650, 1), deposit.years) {
        Some(days) => days,
        None => {
            return Err(Error::overflow());
        },
    };
    let interest_per_day = match checked_div(interest, days) {
        Some(per_day) => per_day,
        None => {
            return Err(Error::overflow());
        },
    };
    let period = match compute_period_in_days(delta) {
        Some(period) => period,
        None => {
            return Err(Error::overflow());
        },
    };
    match checked_mul(interest_per_day, period) {
        Some(delta) => Ok(round_dp(delta, 2)),
        None => Err(Error::overflow()),
    }
}

} // verus!
