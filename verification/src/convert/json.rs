//! Outcomes as JSON text, as they are stored with an item.
//!
//! The members of an object stand in the order of the fields, without any
//! space; what is absent is `null`.

use crate::rest_types::{Delta, Maturity, Outcome, OutcomeWithDates, ProcessingError};
use crate::text::{json_string, json_string_text};
use vstd::prelude::*;
use vstd::string::*;

verus! {

/// An error as JSON text.
pub open spec fn processing_error_json(error: ProcessingError) -> Seq<char> {
    "{\"uuid\":"@ + json_string_text(error.uuid@) + ",\"message\":"@ + json_string_text(
        error.message@,
    ) + "}"@
}

/// Errors as JSON text, with commas between them.
pub open spec fn processing_errors_json(errors: Seq<ProcessingError>) -> Seq<char>
    decreases errors.len(),
{
    if errors.len() == 0 {
        Seq::empty()
    } else if errors.len() == 1 {
        processing_error_json(errors[0])
    } else {
        processing_errors_json(errors.drop_last()) + ","@ + processing_error_json(errors.last())
    }
}

/// A growth as JSON text.
pub open spec fn delta_json(delta: Delta) -> Seq<char> {
    "{\"period\":"@ + json_string_text(delta.period@) + ",\"period_unit\":"@ + json_string_text(
        delta.period_unit@,
    ) + ",\"growth\":"@ + json_string_text(delta.growth@) + "}"@
}

/// Figures at maturity as JSON text.
pub open spec fn maturity_json(maturity: Maturity) -> Seq<char> {
    "{\"amount\":"@ + json_string_text(maturity.amount@) + ",\"interest\":"@ + json_string_text(
        maturity.interest@,
    ) + ",\"total\":"@ + json_string_text(maturity.total@) + "}"@
}

/// An outcome as JSON text.
pub open spec fn outcome_json(outcome: Outcome) -> Seq<char> {
    "{\"delta\":"@ + (match outcome.delta {
        Some(delta) => delta_json(delta),
        None => "null"@,
    }) + ",\"maturity\":"@ + (match outcome.maturity {
        Some(maturity) => maturity_json(maturity),
        None => "null"@,
    }) + ",\"errors\":["@ + processing_errors_json(outcome.errors@) + "]}"@
}

/// An optional outcome as JSON text.
pub open spec fn outcome_option_json(outcome: Option<Outcome>) -> Seq<char> {
    match outcome {
        Some(outcome) => outcome_json(outcome),
        None => "null"@,
    }
}

/// Dates as JSON text.
pub open spec fn outcome_with_dates_json(dates: OutcomeWithDates) -> Seq<char> {
    "{\"start_date_in_bank_tz\":"@ + json_string_text(dates.start_date_in_bank_tz@)
        + ",\"maturity_date_in_bank_tz\":"@ + (match dates.maturity_date_in_bank_tz {
        Some(date) => json_string_text(date@),
        None => "null"@,
    }) + ",\"errors\":["@ + processing_errors_json(dates.errors@) + "]}"@
}

/// Optional dates as JSON text.
pub open spec fn outcome_with_dates_option_json(dates: Option<OutcomeWithDates>) -> Seq<char> {
    match dates {
        Some(dates) => outcome_with_dates_json(dates),
        None => "null"@,
    }
}

fn write_processing_error(error: &ProcessingError) -> (text: String)
    ensures
        text@ == processing_error_json(*error),
{
    String::from_str("{\"uuid\":").concat(json_string(error.uuid.as_str()).as_str()).concat(
        ",\"message\":",
    ).concat(json_string(error.message.as_str()).as_str()).concat("}")
}

fn write_processing_errors(errors: &Vec<ProcessingError>) -> (text: String)
    ensures
        text@ == processing_errors_json(errors@),
{
    let mut text = String::new();
    let mut i: usize = 0;
    assert(errors@.take(0) =~= Seq::empty());
    while i < errors.len()
        invariant
            0 <= i <= errors.len(),
            text@ == processing_errors_json(errors@.take(i as int)),
        decreases errors.len() - i,
    {
        let ghost upto = errors@.take(i + 1);
        assert(upto.drop_last() =~= errors@.take(i as int));
        assert(upto.last() == errors@[i as int]);
        if i > 0 {
            text = text.concat(",");
        } else {
            assert(upto[0] == errors@[0]);
            assert(text@ + processing_error_json(errors@[0]) =~= processing_error_json(
                errors@[0],
            ));
        }
        text = text.concat(write_processing_error(&errors[i]).as_str());
        i += 1;
    }
    assert(errors@.take(i as int) =~= errors@);
    text
}

fn write_delta(delta: &Delta) -> (text: String)
    ensures
        text@ == delta_json(*delta),
{
    String::from_str("{\"period\":").concat(json_string(delta.period.as_str()).as_str()).concat(
        ",\"period_unit\":",
    ).concat(json_string(delta.period_unit.as_str()).as_str()).concat(",\"growth\":").concat(
        json_string(delta.growth.as_str()).as_str(),
    ).concat("}")
}

fn write_maturity(maturity: &Maturity) -> (text: String)
    ensures
        text@ == maturity_json(*maturity),
{
    String::from_str("{\"amount\":").concat(json_string(maturity.amount.as_str()).as_str()).concat(
        ",\"interest\":",
    ).concat(json_string(maturity.interest.as_str()).as_str()).concat(",\"total\":").concat(
        json_string(maturity.total.as_str()).as_str(),
    ).concat("}")
}

/// Writes an optional outcome as JSON text.
pub fn write_outcome(outcome: &Option<Outcome>) -> (text: String)
    ensures
        text@ == outcome_option_json(*outcome),
{
    let outcome = match outcome {
        Some(outcome) => outcome,
        None => {
            return String::from_str("null");
        },
    };
    let delta = match &outcome.delta {
        Some(delta) => write_delta(delta),
        None => String::from_str("null"),
    };
    let maturity = match &outcome.maturity {
        Some(maturity) => write_maturity(maturity),
        None => String::from_str("null"),
    };
    String::from_str("{\"delta\":").concat(delta.as_str()).concat(",\"maturity\":").concat(
        maturity.as_str(),
    ).concat(",\"errors\":[").concat(write_processing_errors(&outcome.errors).as_str()).concat(
        "]}",
    )
}

/// Writes optional dates as JSON text.
pub fn write_outcome_with_dates(dates: &Option<OutcomeWithDates>) -> (text: String)
    ensures
        text@ == outcome_with_dates_option_json(*dates),
{
    let dates = match dates {
        Some(dates) => dates,
        None => {
            return String::from_str("null");
        },
    };
    let maturity_date = match &dates.maturity_date_in_bank_tz {
        Some(date) => json_string(date.as_str()),
        None => String::from_str("null"),
    };
    String::from_str("{\"start_date_in_bank_tz\":").concat(
        json_string(dates.start_date_in_bank_tz.as_str()).as_str(),
    ).concat(",\"maturity_date_in_bank_tz\":").concat(maturity_date.as_str()).concat(
        ",\"errors\":[",
    ).concat(write_processing_errors(&dates.errors).as_str()).concat("]}")
}

} // verus!
