//! Outcomes: the figures of a deposit, of a bank and of a portfolio.
//!
//! What goes wrong while a single deposit is computed is data: the outcome
//! then holds no figures and one error. Nothing here fails as a whole.

use crate::cal_types::{
    AccountType, Bank, Delta, DeltaView, Deposit, Maturity, MaturityView, NewDelta, NewDeltaView,
    NewDeposit, NewDepositView, Outcome, OutcomeView, OutcomeWithDates, OutcomeWithDatesView,
    ProcessingError,
};
use crate::cal_types::outcome_view;
use crate::decimal::{Decimal, DecimalValue};
use crate::identifier::Uuid;
use crate::math::accumulator::{
    accumulate, accumulate_banks, accumulate_deposits, bank_outcomes, deposit_outcomes,
    Accumulator, AccumulatorError, AccumulatorView,
};
use crate::math::compound_interest::{
    compound_interest, compute_interest as compute_compound_interest,
};
use crate::math::growth::{compute as compute_growth, growth};
use crate::math::individual_calculation_error::{error_message, Error};
use crate::math::maturity_date::{day_count, maturity_date, maturity_day};
use crate::math::simple_interest::{compute_interest as compute_simple_interest, simple_interest};
use crate::math::total::{compute as compute_total, total};
use crate::text::{quoted, quoted_text};
use vstd::prelude::*;
use vstd::string::*;

verus! {

/// The message of an outcome whose figures are out of range.
pub open spec fn overflow_message() -> Seq<char> {
    "Overflow error Individual Calculation is incomplete: "@ + "result is out of range"@
}

/// The message of an outcome for a deposit of zero years.
pub open spec fn zero_years_message() -> Seq<char> {
    "ZeroYears error Individual Calculation is incomplete: "@
        + "cannot calculate growth for zero years"@
}

/// The message of an outcome for a deposit whose account type is not stated.
pub open spec fn unspecified_message(account: Seq<char>) -> Seq<char> {
    "Unspecified account type...Error calculating outcome for account type Unspecified deposit: "@
        + quoted_text(account)
}

/// The message under which a failed sum is reported.
pub open spec fn accumulator_message(error: AccumulatorError) -> Seq<char> {
    match error {
        AccumulatorError::MissingOutcome => "Missing outcome in deposit"@,
        AccumulatorError::MissingDelta => "Missing delta in deposit"@,
        AccumulatorError::MissingMaturity => "Missing maturity in deposit"@,
        AccumulatorError::Overflow => "Sum of outcomes is out of range"@,
    }
}

/// The outcome that holds no figures and one error.
pub open spec fn failed(message: Seq<char>) -> OutcomeView {
    OutcomeView { delta: None, maturity: None, errors: seq![message] }
}

/// The outcome of a deposit whose interest is known: the total at maturity
/// and the growth within the reporting period, or what stood in their way.
pub open spec fn outcome_of_interest(
    deposit: NewDepositView,
    delta: NewDeltaView,
    interest: DecimalValue,
) -> OutcomeView {
    match total(deposit.amount, interest) {
        None => failed(overflow_message()),
        Some(total) => if deposit.years.mantissa == 0 {
            failed(zero_years_message())
        } else {
            match growth(deposit.years, interest, delta) {
                None => failed(overflow_message()),
                Some(growth) => OutcomeView {
                    delta: Some(
                        DeltaView { period: delta.period, period_unit: delta.period_unit, growth },
                    ),
                    maturity: Some(MaturityView { amount: deposit.amount, interest, total }),
                    errors: seq![],
                },
            }
        },
    }
}

/// The interest of a deposit: compound for checking and savings accounts and
/// certificates of deposit, simple for brokerage certificates of deposit.
/// The outer `None` stands for an account type that is not stated, the inner
/// one for an interest that is out of range.
pub open spec fn interest_of(deposit: NewDepositView) -> Option<Option<DecimalValue>> {
    match deposit.account_type {
        AccountType::Checking | AccountType::Savings | AccountType::CertificateOfDeposit => Some(
            compound_interest(deposit),
        ),
        AccountType::BrokerageCertificateOfDeposit => Some(simple_interest(deposit)),
        AccountType::Unspecified => None,
    }
}

/// The outcome of a deposit for a reporting period.
pub open spec fn deposit_outcome(deposit: NewDepositView, delta: NewDeltaView) -> OutcomeView {
    match interest_of(deposit) {
        None => failed(unspecified_message(deposit.account)),
        Some(None) => failed(overflow_message()),
        Some(Some(interest)) => outcome_of_interest(deposit, delta, interest),
    }
}

/// The message of the error that stands in the way of a maturity date.
pub open spec fn maturity_error_message(start: int, years: DecimalValue) -> Seq<char> {
    match day_count(years) {
        None => overflow_message(),
        Some(days) => if days > i64::MAX {
            "number too large to fit in target type"@
        } else if days < i64::MIN {
            "number too small to fit in target type"@
        } else {
            overflow_message()
        },
    }
}

/// The dates of a deposit: its start date and its maturity date, or the
/// start date and what stood in the way of the other.
pub open spec fn dates_outcome(deposit: NewDepositView) -> OutcomeWithDatesView {
    match maturity_day(deposit.start_date, deposit.years) {
        Some(day) => OutcomeWithDatesView {
            start_date: deposit.start_date,
            maturity_date: Some(day),
            errors: seq![],
        },
        None => OutcomeWithDatesView {
            start_date: deposit.start_date,
            maturity_date: None,
            errors: seq![maturity_error_message(deposit.start_date, deposit.years)],
        },
    }
}

/// The outcome that states a sum for a reporting period, or reports why the
/// sum could not be formed.
pub open spec fn sum_outcome(
    sum: Result<AccumulatorView, AccumulatorError>,
    delta: NewDeltaView,
) -> OutcomeView {
    match sum {
        Ok(acc) => OutcomeView {
            delta: Some(
                DeltaView {
                    period: delta.period,
                    period_unit: delta.period_unit,
                    growth: acc.growth,
                },
            ),
            maturity: Some(
                MaturityView { amount: acc.amount, interest: acc.interest, total: acc.total },
            ),
            errors: seq![],
        },
        Err(e) => failed(accumulator_message(e)),
    }
}

impl ProcessingError {
    /// The report of a failed sum, under a fresh identifier.
    pub fn from_accumulator_error(error: AccumulatorError) -> (report: ProcessingError)
        ensures
            report@ == accumulator_message(error),
    {
        let message = match error {
            AccumulatorError::MissingOutcome => String::from_str("Missing outcome in deposit"),
            AccumulatorError::MissingDelta => String::from_str("Missing delta in deposit"),
            AccumulatorError::MissingMaturity => String::from_str("Missing maturity in deposit"),
            AccumulatorError::Overflow => String::from_str("Sum of outcomes is out of range"),
        };
        ProcessingError { uuid: Uuid::new_v4(), message }
    }
}

/// The outcome that holds no figures and the given error.
fn failed_outcome(report: ProcessingError) -> (outcome: Outcome)
    ensures
        outcome@ == failed(report@),
{
    let outcome = Outcome { delta: None, maturity: None, errors: vec![report] };
    assert(outcome@.errors =~= seq![report@]);
    outcome
}

/// The outcome that reports a calculation error.
fn outcome_of_error(error: Error) -> (outcome: Outcome)
    ensures
        outcome@ == failed(error_message(error)),
{
    failed_outcome(ProcessingError::from_error(error))
}

fn outcome_with_growth(new_deposit: &NewDeposit, new_delta: &NewDelta, interest: Decimal) -> (r:
    Option<Outcome>)
    ensures
        outcome_view(r) == Some(outcome_of_interest(new_deposit@, new_delta@, interest@)),
{
    let total = match compute_total(new_deposit.amount, interest) {
        Ok(total) => total,
        Err(e) => {
            return Some(outcome_of_error(e));
        },
    };
    match compute_growth(new_deposit, interest, new_delta) {
        Err(e) => Some(outcome_of_error(e)),
        Ok(growth) => {
            let outcome = Outcome {
                delta: Some(
                    Delta {
                        period: new_delta.period,
                        period_unit: new_delta.period_unit,
                        growth,
                    },
                ),
                maturity: Some(Maturity { amount: new_deposit.amount, interest, total }),
                errors: vec![],
            };
            assert(outcome@.errors =~= seq![]);
            Some(outcome)
        },
    }
}

/// Builds the outcome of a deposit for a reporting period: its interest by
/// the formula of its account type, the total at maturity and the growth
/// within the period. The outcome is always there; where a figure cannot be
/// computed it holds no figures and the error.
pub fn build_outcome_from_new_deposit(new_deposit: &NewDeposit, new_delta: &NewDelta) -> (r:
    Option<Outcome>)
    ensures
        outcome_view(r) == Some(deposit_outcome(new_deposit@, new_delta@)),
        deposit_outcome(new_deposit@, new_delta@).consistent(),
{
    let interest = match new_deposit.account_type {
        AccountType::Checking | AccountType::Savings | AccountType::CertificateOfDeposit => {
            compute_compound_interest(new_deposit)
        },
        AccountType::BrokerageCertificateOfDeposit => compute_simple_interest(new_deposit),
        _ => {
            let message = String::from_str(
                "Unspecified account type...Error calculating outcome for account type Unspecified deposit: ",
            ).concat(quoted(new_deposit.account.as_str()).as_str());
            return Some(failed_outcome(ProcessingError { uuid: Uuid::new_v4(), message }));
        },
    };
    match interest {
        Ok(interest) => outcome_with_growth(new_deposit, new_delta, interest),
        Err(e) => Some(outcome_of_error(e)),
    }
}

/// Builds the dates of a deposit: the start date and the maturity date. The
/// result is always there; where the maturity date cannot be computed it
/// holds the start date and the error.
pub fn build_outcome_with_dates_from_new_deposit(new_deposit: &NewDeposit) -> (r: Option<
    OutcomeWithDates,
>)
    ensures
        r matches Some(o) && o@ == dates_outcome(new_deposit@),
        dates_outcome(new_deposit@).consistent(),
{
    match maturity_date(new_deposit.start_date_in_bank_tz, new_deposit.years) {
        Err(e) => {
            let report = ProcessingError::from_error(e);
            let outcome = OutcomeWithDates {
                start_date_in_bank_tz: new_deposit.start_date_in_bank_tz,
                maturity_date_in_bank_tz: None,
                errors: vec![report],
            };
            assert(outcome@.errors =~= seq![report@]);
            Some(outcome)
        },
        Ok(calculated_maturity_date) => {
            let outcome = OutcomeWithDates {
                start_date_in_bank_tz: new_deposit.start_date_in_bank_tz,
                maturity_date_in_bank_tz: Some(calculated_maturity_date),
                errors: vec![],
            };
            assert(outcome@.errors =~= seq![]);
            Some(outcome)
        },
    }
}

fn outcome_from_accumulator(accumulator: Accumulator, new_delta: &NewDelta) -> (r: Option<Outcome>)
    ensures
        outcome_view(r) == Some(
            sum_outcome(Ok::<AccumulatorView, AccumulatorError>(accumulator@), new_delta@),
        ),
{
    let outcome = Outcome {
        delta: Some(
            Delta {
                period: new_delta.period,
                period_unit: new_delta.period_unit,
                growth: accumulator.growth,
            },
        ),
        maturity: Some(
            Maturity {
                amount: accumulator.amount,
                interest: accumulator.interest,
                total: accumulator.total,
            },
        ),
        errors: vec![],
    };
    assert(outcome@.errors =~= seq![]);
    Some(outcome)
}

/// Builds the outcome of a bank: the sums over its deposits, stated for the
/// reporting period. The outcome is always there; where a deposit lacks its
/// figures, or a sum is out of range, it holds no figures and the error.
pub fn build_outcome_from_deposits(deposits: &[Deposit], new_delta: &NewDelta) -> (r: Option<
    Outcome,
>)
    ensures
        outcome_view(r) == Some(
            sum_outcome(accumulate(deposit_outcomes(deposits@)), new_delta@),
        ),
        sum_outcome(accumulate(deposit_outcomes(deposits@)), new_delta@).consistent(),
{
    match accumulate_deposits(deposits) {
        Err(e) => Some(failed_outcome(ProcessingError::from_accumulator_error(e))),
        Ok(accumulator) => outcome_from_accumulator(accumulator, new_delta),
    }
}

/// Builds the outcome of a portfolio: the sums over its banks, as
/// [`build_outcome_from_deposits`] builds that of a bank.
pub fn build_outcome_from_banks(banks: &[Bank], new_delta: &NewDelta) -> (r: Option<Outcome>)
    ensures
        outcome_view(r) == Some(sum_outcome(accumulate(bank_outcomes(banks@)), new_delta@)),
        sum_outcome(accumulate(bank_outcomes(banks@)), new_delta@).consistent(),
{
    match accumulate_banks(banks) {
        Err(e) => Some(failed_outcome(ProcessingError::from_accumulator_error(e))),
        Ok(accumulator) => outcome_from_accumulator(accumulator, new_delta),
    }
}

} // verus!
