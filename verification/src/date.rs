//! Calendar dates.
//!
//! A [`Date`] is a day of the proleptic Gregorian calendar, held as the day's
//! number: 1 for January 1 of the year 1, growing by one with every day. The
//! calendar itself (years, months, leap years, text) is the `chrono` crate's.

use vstd::prelude::*;

verus! {

/// The number of the first day that a date can be: January 1 of the year -262143.
pub const MIN_DAY: i32 = -95_746_129;

/// The number of the last day that a date can be: December 31 of the year 262142.
pub const MAX_DAY: i32 = 95_745_399;

/// The number of January 1, 1970.
pub const EPOCH_DAY: i32 = 719_163;

/// Whether a day number is that of a date.
pub open spec fn in_calendar(day: int) -> bool {
    MIN_DAY <= day <= MAX_DAY
}

/// The day number that `chrono` gives to a year, month and day of month, or
/// `None` where there is no such date.
pub uninterp spec fn day_number(year: int, month: int, day: int) -> Option<int>;

/// What `chrono` makes of a text of the form `YYYY-MM-DD`: the day number of
/// the date that it reads, or the text in which it says why it reads none.
pub uninterp spec fn date_read(text: Seq<char>) -> Result<int, Seq<char>>;

/// The day number of the date that is read from a text, if one is read.
pub open spec fn date_parsed(text: Seq<char>) -> Option<int> {
    match date_read(text) {
        Ok(day) => Some(day),
        Err(_) => None,
    }
}

/// Why no date is read from a text.
pub open spec fn date_refusal(text: Seq<char>) -> Seq<char> {
    match date_read(text) {
        Ok(_) => Seq::empty(),
        Err(reason) => reason,
    }
}

/// The text that `chrono` prints for the date with a day number.
pub uninterp spec fn date_text(day: int) -> Seq<char>;

/// A calendar date.
#[derive(Clone, Copy, Debug, PartialEq, Eq, Structural)]
pub struct Date {
    days: i32,
}

impl View for Date {
    type V = int;

    closed spec fn view(&self) -> int {
        self.days as int
    }
}

/// The day number of an optional date.
pub open spec fn day_of(d: Option<Date>) -> Option<int> {
    match d {
        Some(d) => Some(d@),
        None => None,
    }
}

impl Date {
    #[verifier::type_invariant]
    spec fn well_formed(self) -> bool {
        in_calendar(self@)
    }

    /// The date with the given year, month and day of month, if there is one.
    pub fn from_ymd(year: i32, month: u32, day: u32) -> (d: Option<Date>)
        ensures
            day_of(d) == day_number(year as int, month as int, day as int),
    {
        calendar_day(year, month, day)
    }

    /// The date with the given day number, if there is one.
    pub fn from_days_from_ce(days: i32) -> (d: Option<Date>)
        ensures
            d is Some <==> in_calendar(days as int),
            d matches Some(d) ==> d@ == days,
    {
        if MIN_DAY <= days && days <= MAX_DAY {
            Some(Date { days })
        } else {
            None
        }
    }

    /// January 1, 1970: the date that stands in for one that could not be read.
    pub fn epoch() -> (d: Date)
        ensures
            d@ == EPOCH_DAY,
    {
        Date { days: EPOCH_DAY }
    }

    /// The day number: 1 for January 1 of the year 1.
    pub fn days_from_ce(&self) -> (days: i32)
        ensures
            days == self@,
            in_calendar(days as int),
    {
        proof {
            use_type_invariant(self);
        }
        self.days
    }

    /// The date read from a text of the form `YYYY-MM-DD`, if it holds one.
    pub fn parse(text: &str) -> (d: Option<Date>)
        ensures
            day_of(d) == date_parsed(text@),
    {
        match read(text) {
            Ok(date) => Some(date),
            Err(_) => None,
        }
    }

    /// The date read from a text of the form `YYYY-MM-DD`, or the reason for
    /// which the text is refused.
    pub fn parse_or_reason(text: &str) -> (d: Result<Date, String>)
        ensures
            match d {
                Ok(date) => date_parsed(text@) == Some(date@),
                Err(reason) => date_parsed(text@) is None && reason@ == date_refusal(text@),
            },
    {
        read(text)
    }

    /// The date as text, `YYYY-MM-DD` for the years 0 to 9999.
    pub fn to_text(&self) -> (text: String)
        ensures
            text@ == date_text(self@),
    {
        print(*self)
    }

    /// The date `days` days after this one (before it, for a negative
    /// number), or `None` where the calendar ends before that.
    pub fn checked_add_days(&self, days: i64) -> (end: Option<Date>)
        ensures
            end is Some <==> in_calendar(self@ + days),
            end matches Some(d) ==> d@ == self@ + days,
    {
        plus_days(*self, days)
    }
}

/// `chrono::NaiveDate::from_ymd_opt`, then `Datelike::num_days_from_ce`: the
/// day number of a calendar date, `None` where the date does not exist.
#[verifier::external_body]
fn calendar_day(year: i32, month: u32, day: u32) -> (d: Option<Date>)
    ensures
        day_of(d) == day_number(year as int, month as int, day as int),
{
    match chrono::NaiveDate::from_ymd_opt(year, month, day) {
        Some(date) => Some(Date { days: chrono::Datelike::num_days_from_ce(&date) }),
        None => None,
    }
}

/// `chrono::NaiveDate::parse_from_str` with the format `%Y-%m-%d`: the date
/// read, or the text of the error where the text is refused.
#[verifier::external_body]
fn read(text: &str) -> (d: Result<Date, String>)
    ensures
        match d {
            Ok(date) => date_read(text@) == Ok::<int, Seq<char>>(date@),
            Err(reason) => date_read(text@) == Err::<int, Seq<char>>(reason@),
        },
{
    match chrono::NaiveDate::parse_from_str(text, "%Y-%m-%d") {
        Ok(date) => Ok(Date { days: chrono::Datelike::num_days_from_ce(&date) }),
        Err(e) => Err(e.to_string()),
    }
}

/// `chrono`'s `Display` for a `NaiveDate`.
#[verifier::external_body]
fn print(d: Date) -> (text: String)
    ensures
        text@ == date_text(d@),
{
    match chrono::NaiveDate::from_num_days_from_ce_opt(d.days) {
        Some(date) => date.to_string(),
        None => String::new(),
    }
}

/// `chrono::NaiveDate::checked_add_signed` with `TimeDelta::try_days`: the date
/// that many days later, `None` where it would lie outside the calendar.
/// Day numbers count days, so the sum's number is the sum of the numbers.
#[verifier::external_body]
fn plus_days(start: Date, days: i64) -> (end: Option<Date>)
    ensures
        end is Some <==> in_calendar(start@ + days),
        end matches Some(d) ==> d@ == start@ + days,
{
    let date = chrono::NaiveDate::from_num_days_from_ce_opt(start.days)?;
    let delta = chrono::TimeDelta::try_days(days)?;
    let sum = date.checked_add_signed(delta)?;
    Some(Date { days: chrono::Datelike::num_days_from_ce(&sum) })
}

} // verus!
