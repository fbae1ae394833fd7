//! Differences between calendar dates, counted in days.

use crate::text::trimmed;
use chrono::{Datelike, Local, NaiveDate};
use vstd::prelude::*;

verus! {

/// The error that `chrono` gives for a text that is no date.
#[verifier::external_type_specification]
#[verifier::external_body]
pub struct ExParseError(chrono::ParseError);

/// A calendar date, held as its day number in the proleptic Gregorian
/// calendar: 1 January of the year 1 is day 1.
#[derive(Debug, Clone, Copy, PartialEq, Eq, Structural)]
pub struct Date {
    pub days_from_ce: i32,
}

/// Why a line of input gave no date.
#[derive(Debug, Clone, Copy, PartialEq, Eq, Structural)]
pub enum DateError {
    /// The text is no date written as year, month and day with hyphens
    /// between them, or there is no such day.
    NotADate,
}

/// The day number of the date that `text` writes as `YYYY-MM-DD`, as
/// `NaiveDate::parse_from_str` of `chrono` reads it; `None` where it reads no
/// date.
pub uninterp spec fn written_date(text: Seq<char>) -> Option<int>;

/// `NaiveDate::parse_from_str` of `chrono` with the format `%Y-%m-%d`. A date
/// that was read comes back as its day number, taken with
/// `Datelike::num_days_from_ce`.
#[verifier::external_body]
fn parse_iso_date(text: &str) -> (parsed: Result<Date, chrono::ParseError>)
    ensures
        match parsed {
            Ok(date) => written_date(text@) == Some(date.days_from_ce as int),
            Err(_) => written_date(text@) is None,
        },
{
    match NaiveDate::parse_from_str(text, "%Y-%m-%d") {
        Ok(date) => Ok(Date { days_from_ce: date.num_days_from_ce() }),
        Err(e) => Err(e),
    }
}

/// `Local::now` of `chrono`, cut down to the date: the day that the machine's
/// clock and time zone show. Nothing is known of it beforehand.
#[verifier::external_body]
pub(crate) fn today() -> Date {
    Date { days_from_ce: Local::now().date_naive().num_days_from_ce() }
}

/// Reads a date from a line of input, written as `YYYY-MM-DD`; white space
/// around it is dropped.
pub fn read_user_date(line: &str) -> (date: Result<Date, DateError>)
    ensures
        match date {
            Ok(d) => written_date(trimmed(line@)) == Some(d.days_from_ce as int),
            Err(e) => written_date(trimmed(line@)) is None && e == DateError::NotADate,
        },
{
    match parse_iso_date(line.trim()) {
        Ok(date) => Ok(date),
        Err(_) => Err(DateError::NotADate),
    }
}

/// Days in a year, leap days left aside.
pub const DAYS_IN_YEAR: i64 = 365;

/// Seconds in a day.
pub const SECONDS_IN_DAY: i64 = 86400;

/// The age from which one may vote.
pub const VOTING_AGE_LIMIT: i64 = 18;

/// How many days `date` lies before `today`; negative where it lies after.
pub open spec fn days_from(date: Date, today: Date) -> int {
    today.days_from_ce - date.days_from_ce
}

/// Whole years of 365 days in a number of days, rounded towards zero.
pub open spec fn whole_years(days: int) -> int {
    if days >= 0 {
        days / 365
    } else {
        -((-days) / 365)
    }
}

/// The days from `date` to `today`.
pub fn days_between(date: &Date, today: &Date) -> (days: i64)
    ensures
        days == days_from(*date, *today),
{
    today.days_from_ce as i64 - date.days_from_ce as i64
}

/// The seconds from the start of `date` to the start of `today`.
pub fn seconds_between(date: &Date, today: &Date) -> (seconds: i64)
    ensures
        seconds == 86400 * days_from(*date, *today),
{
    days_between(date, today) * SECONDS_IN_DAY
}

/// The whole years of 365 days from `date` to `today`.
pub fn years_between(date: &Date, today: &Date) -> (years: i64)
    ensures
        years == whole_years(days_from(*date, *today)),
{
    days_between(date, today) / DAYS_IN_YEAR
}

/// Whether someone born on `birth_date` is at least 18 years of 365 days old
/// on `today`.
pub fn is_of_voting_age(birth_date: &Date, today: &Date) -> (eligible: bool)
    ensures
        eligible == (whole_years(days_from(*birth_date, *today)) >= 18),
        eligible == (days_from(*birth_date, *today) >= 18 * 365),
{
    years_between(birth_date, today) >= VOTING_AGE_LIMIT
}

/// The days from `input_date` to the day that the clock shows.
pub fn get_days_difference(input_date: &Date) -> (days: i64)
    ensures
        exists|now: Date| days == #[trigger] days_from(*input_date, now),
{
    let now = today();
    days_between(input_date, &now)
}

/// The seconds from `input_date` to the day that the clock shows.
pub fn get_seconds_difference(input_date: &Date) -> (seconds: i64)
    ensures
        exists|now: Date| seconds == 86400 * #[trigger] days_from(*input_date, now),
{
    let now = today();
    seconds_between(input_date, &now)
}

/// The whole years from `input_date` to the day that the clock shows.
pub fn get_years_difference(input_date: &Date) -> (years: i64)
    ensures
        exists|now: Date| years == whole_years(#[trigger] days_from(*input_date, now)),
{
    let now = today();
    years_between(input_date, &now)
}

/// Whether someone born on `birth_date` may vote on the day that the clock
/// shows.
pub fn is_eligible_to_vote(birth_date: &Date) -> (eligible: bool)
    ensures
        exists|now: Date| eligible == (#[trigger] days_from(*birth_date, now) >= 18 * 365),
{
    let now = today();
    is_of_voting_age(birth_date, &now)
}

} // verus!
