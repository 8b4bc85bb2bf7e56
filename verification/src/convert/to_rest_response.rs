//! From a calculated response to the response as text.

use crate::cal_types::{
    AccountType, Bank, Delta, Deposit, Maturity, Outcome, OutcomeWithDates, PeriodUnit,
    PortfolioResponse, ProcessingError,
};
use crate::date::date_text;
use crate::decimal::decimal_text;
use crate::identifier::uuid_text;
use crate::rest_types::{
    Bank as RestBank, CalculatePortfolioResponse as RestCalculatePortfolioResponse,
    Delta as RestDelta, Deposit as RestDeposit, Maturity as RestMaturity, Outcome as RestOutcome,
    OutcomeWithDates as RestOutcomeWithDates, ProcessingError as RestProcessingError,
};
use crate::text::{to_upper_camel_case, upper_camel_case};
use vstd::prelude::*;
use vstd::string::*;

verus! {

/// Whether an error as text is the given error.
pub open spec fn is_rest_processing_error(rest: RestProcessingError, cal: ProcessingError)
    -> bool {
    rest.uuid@ == uuid_text(cal.uuid.bits) && rest.message@ == cal.message@
}

/// Whether errors as text are the given errors, in their order.
pub open spec fn are_rest_processing_errors(
    rest: Seq<RestProcessingError>,
    cal: Seq<ProcessingError>,
) -> bool {
    rest.len() == cal.len() && forall|i: int|
        0 <= i < cal.len() ==> is_rest_processing_error(#[trigger] rest[i], cal[i])
}

/// Whether figures at maturity as text are the given figures.
pub open spec fn is_rest_maturity(rest: RestMaturity, cal: Maturity) -> bool {
    &&& rest.amount@ == decimal_text(cal.amount@)
    &&& rest.interest@ == decimal_text(cal.interest@)
    &&& rest.total@ == decimal_text(cal.total@)
}

/// Whether a growth as text is the given growth: the unit is named in
/// `UpperCamelCase`.
pub open spec fn is_rest_delta(rest: RestDelta, cal: Delta) -> bool {
    &&& rest.period@ == decimal_text(cal.period@)
    &&& rest.period_unit@ == upper_camel_case(cal.period_unit.wire_name())
    &&& rest.growth@ == decimal_text(cal.growth@)
}

/// Whether an outcome as text is the given outcome.
pub open spec fn is_rest_outcome(rest: RestOutcome, cal: Outcome) -> bool {
    &&& match cal.delta {
        Some(delta) => rest.delta matches Some(d) && is_rest_delta(d, delta),
        None => rest.delta is None,
    }
    &&& match cal.maturity {
        Some(maturity) => rest.maturity matches Some(m) && is_rest_maturity(m, maturity),
        None => rest.maturity is None,
    }
    &&& are_rest_processing_errors(rest.errors@, cal.errors@)
}

/// Whether an optional outcome as text is the given optional outcome.
pub open spec fn is_rest_outcome_option(rest: Option<RestOutcome>, cal: Option<Outcome>) -> bool {
    match cal {
        Some(outcome) => rest matches Some(o) && is_rest_outcome(o, outcome),
        None => rest is None,
    }
}

/// Whether dates as text are the given dates.
pub open spec fn is_rest_outcome_with_dates(rest: RestOutcomeWithDates, cal: OutcomeWithDates)
    -> bool {
    &&& rest.start_date_in_bank_tz@ == date_text(cal.start_date_in_bank_tz@)
    &&& match cal.maturity_date_in_bank_tz {
        Some(date) => rest.maturity_date_in_bank_tz matches Some(d) && d@ == date_text(date@),
        None => rest.maturity_date_in_bank_tz is None,
    }
    &&& are_rest_processing_errors(rest.errors@, cal.errors@)
}

/// Whether a deposit as text is the given deposit: the account type is named
/// in `UpperCamelCase`.
pub open spec fn is_rest_deposit(rest: RestDeposit, cal: Deposit) -> bool {
    &&& rest.uuid@ == uuid_text(cal.uuid.bits)
    &&& rest.account@ == cal.account@
    &&& rest.account_type@ == upper_camel_case(cal.account_type.wire_name())
    &&& rest.apy@ == decimal_text(cal.apy@)
    &&& rest.years@ == decimal_text(cal.years@)
    &&& is_rest_outcome_option(rest.outcome, cal.outcome)
    &&& match cal.outcome_with_dates {
        Some(dates) => rest.outcome_with_dates matches Some(d) && is_rest_outcome_with_dates(
            d,
            dates,
        ),
        None => rest.outcome_with_dates is None,
    }
}

/// Whether a bank as text is the given bank, with its deposits in their order.
pub open spec fn is_rest_bank(rest: RestBank, cal: Bank) -> bool {
    &&& rest.uuid@ == uuid_text(cal.uuid.bits)
    &&& rest.name@ == cal.name@
    &&& rest.bank_tz@ == cal.bank_tz@
    &&& rest.deposits@.len() == cal.deposits@.len()
    &&& forall|i: int|
        0 <= i < cal.deposits@.len() ==> is_rest_deposit(
            #[trigger] rest.deposits@[i],
            cal.deposits@[i],
        )
    &&& is_rest_outcome_option(rest.outcome, cal.outcome)
}

/// Whether a response as text is the given response, with its banks in their
/// order.
pub open spec fn is_rest_response(rest: RestCalculatePortfolioResponse, cal: PortfolioResponse)
    -> bool {
    &&& rest.uuid@ == uuid_text(cal.uuid.bits)
    &&& rest.banks@.len() == cal.banks@.len()
    &&& forall|i: int|
        0 <= i < cal.banks@.len() ==> is_rest_bank(#[trigger] rest.banks@[i], cal.banks@[i])
    &&& is_rest_outcome_option(rest.outcome, cal.outcome)
    &&& rest.created_at@ == cal.created_at@
}

/// An error as text.
pub fn rest_processing_error(cal: ProcessingError) -> (rest: RestProcessingError)
    ensures
        is_rest_processing_error(rest, cal),
{
    RestProcessingError { uuid: cal.uuid.to_text(), message: cal.message }
}

fn rest_processing_errors(cal: Vec<ProcessingError>) -> (rest: Vec<RestProcessingError>)
    ensures
        are_rest_processing_errors(rest@, cal@),
{
    let mut rest: Vec<RestProcessingError> = Vec::new();
    for error in iter: cal
        invariant
            cal@ == iter.seq(),
            rest@.len() == iter.index(),
            forall|j: int|
                0 <= j < rest@.len() ==> is_rest_processing_error(#[trigger] rest@[j], cal@[j]),
    {
        rest.push(rest_processing_error(error));
    }
    rest
}

/// The figures at maturity as text.
pub fn rest_maturity(cal: Maturity) -> (rest: RestMaturity)
    ensures
        is_rest_maturity(rest, cal),
{
    RestMaturity {
        amount: cal.amount.to_text(),
        interest: cal.interest.to_text(),
        total: cal.total.to_text(),
    }
}

/// The growth as text.
pub fn rest_delta(cal: Delta) -> (rest: RestDelta)
    ensures
        is_rest_delta(rest, cal),
{
    RestDelta {
        period: cal.period.to_text(),
        period_unit: to_upper_camel_case(cal.period_unit.as_str_name()),
        growth: cal.growth.to_text(),
    }
}

/// The dates as text.
pub fn rest_outcome_with_dates(cal: OutcomeWithDates) -> (rest: RestOutcomeWithDates)
    ensures
        is_rest_outcome_with_dates(rest, cal),
{
    RestOutcomeWithDates {
        start_date_in_bank_tz: cal.start_date_in_bank_tz.to_text(),
        maturity_date_in_bank_tz: match cal.maturity_date_in_bank_tz {
            Some(date) => Some(date.to_text()),
            None => None,
        },
        errors: rest_processing_errors(cal.errors),
    }
}

/// The outcome as text.
pub fn rest_outcome(cal: Outcome) -> (rest: RestOutcome)
    ensures
        is_rest_outcome(rest, cal),
{
    RestOutcome {
        delta: match cal.delta {
            Some(delta) => Some(rest_delta(delta)),
            None => None,
        },
        maturity: match cal.maturity {
            Some(maturity) => Some(rest_maturity(maturity)),
            None => None,
        },
        errors: rest_processing_errors(cal.errors),
    }
}

fn rest_outcome_option(cal: Option<Outcome>) -> (rest: Option<RestOutcome>)
    ensures
        is_rest_outcome_option(rest, cal),
{
    match cal {
        Some(outcome) => Some(rest_outcome(outcome)),
        None => None,
    }
}

/// The deposit as text.
pub fn rest_deposit(cal: Deposit) -> (rest: RestDeposit)
    ensures
        is_rest_deposit(rest, cal),
{
    RestDeposit {
        uuid: cal.uuid.to_text(),
        account: cal.account,
        account_type: to_upper_camel_case(cal.account_type.as_str_name()),
        apy: cal.apy.to_text(),
        years: cal.years.to_text(),
        outcome: rest_outcome_option(cal.outcome),
        outcome_with_dates: match cal.outcome_with_dates {
            Some(dates) => Some(rest_outcome_with_dates(dates)),
            None => None,
        },
    }
}

/// The bank as text.
pub fn rest_bank(cal: Bank) -> (rest: RestBank)
    ensures
        is_rest_bank(rest, cal),
{
    let uuid = cal.uuid.to_text();
    let bank_tz = String::from_str(cal.bank_tz.name());
    let ghost wanted = cal.deposits@;
    let mut deposits: Vec<RestDeposit> = Vec::new();
    for deposit in iter: cal.deposits
        invariant
            wanted == iter.seq(),
            deposits@.len() == iter.index(),
            forall|j: int|
                0 <= j < deposits@.len() ==> is_rest_deposit(#[trigger] deposits@[j], wanted[j]),
    {
        deposits.push(rest_deposit(deposit));
    }
    RestBank { uuid, name: cal.name, bank_tz, deposits, outcome: rest_outcome_option(cal.outcome) }
}

/// The response as text.
pub fn rest_portfolio_response(cal: PortfolioResponse) -> (rest: RestCalculatePortfolioResponse)
    ensures
        is_rest_response(rest, cal),
{
    let uuid = cal.uuid.to_text();
    let ghost wanted = cal.banks@;
    let mut banks: Vec<RestBank> = Vec::new();
    for bank in iter: cal.banks
        invariant
            wanted == iter.seq(),
            banks@.len() == iter.index(),
            forall|j: int| 0 <= j < banks@.len() ==> is_rest_bank(#[trigger] banks@[j], wanted[j]),
    {
        banks.push(rest_bank(bank));
    }
    RestCalculatePortfolioResponse {
        uuid,
        banks,
        created_at: cal.created_at,
        outcome: rest_outcome_option(cal.outcome),
    }
}

} // verus!
