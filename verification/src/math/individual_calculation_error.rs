//! Why the calculation of a single figure failed.

use crate::cal_types::ProcessingError;
use crate::identifier::{is_random_layout, Uuid};
use vstd::prelude::*;
use vstd::string::*;

verus! {

/// Why a figure of a single deposit could not be computed.
#[derive(Debug)]
pub enum Error {
    Internal,
    /// A day count does not fit a 64-bit integer; the text says on which side.
    ParseInt(String),
    /// Growth per day is undefined for a deposit that lasts zero years.
    ZeroYears(String),
    /// An intermediate result, or a date, lies outside what can be represented.
    Overflow(String),
}

/// The text of an error.
pub open spec fn error_text(error: Error) -> Seq<char> {
    match error {
        Error::Internal => "Internal error Individual Calculation is incomplete"@,
        Error::ParseInt(detail) => "ParseInt error Individual Calculation is incomplete: "@
            + detail@,
        Error::ZeroYears(detail) => "ZeroYears error Individual Calculation is incomplete: "@
            + detail@,
        Error::Overflow(detail) => "Overflow error Individual Calculation is incomplete: "@
            + detail@,
    }
}

/// The message under which an error is reported in an outcome: for a day
/// count that does not fit, the detail alone; else the error's text.
pub open spec fn error_message(error: Error) -> Seq<char> {
    match error {
        Error::ParseInt(detail) => detail@,
        _ => error_text(error),
    }
}

/// Whether an error says that something lies outside what can be represented.
pub open spec fn is_overflow(error: Error) -> bool {
    error matches Error::Overflow(detail) && detail@ == "result is out of range"@
}

impl Error {
    /// The error's text.
    pub fn to_text(&self) -> (text: String)
        ensures
            text@ == error_text(*self),
    {
        match self {
            Error::Internal => String::from_str(
                "Internal error Individual Calculation is incomplete",
            ),
            Error::ParseInt(detail) => String::from_str(
                "ParseInt error Individual Calculation is incomplete: ",
            ).concat(detail.as_str()),
            Error::ZeroYears(detail) => String::from_str(
                "ZeroYears error Individual Calculation is incomplete: ",
            ).concat(detail.as_str()),
            Error::Overflow(detail) => String::from_str(
                "Overflow error Individual Calculation is incomplete: ",
            ).concat(detail.as_str()),
        }
    }

    /// The error that reports a result outside what can be represented.
    pub fn overflow() -> (error: Error)
        ensures
            is_overflow(error),
    {
        Error::Overflow(String::from_str("result is out of range"))
    }
}

impl ProcessingError {
    /// The report of a calculation error, under a fresh identifier.
    pub fn from_error(error: Error) -> (report: ProcessingError)
        ensures
            report@ == error_message(error),
            is_random_layout(report.uuid.bits),
    {
        let message = match &error {
            Error::ParseInt(detail) => detail.clone(),
            _ => error.to_text(),
        };
        ProcessingError { uuid: Uuid::new_v4(), message }
    }
}

} // verus!
