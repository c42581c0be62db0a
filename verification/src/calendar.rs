//! The calendar, as far as the chip needs it: the day of the week of a date.
use vstd::prelude::*;
use rtcc::{Datelike, NaiveDate};

verus! {

/// The day of the week of the date `year`-`month`-`day` in the proleptic
/// Gregorian calendar, counted from Sunday = 1 to Saturday = 7; `None` where
/// the three numbers name no date.
pub uninterp spec fn calendar_weekday(year: u16, month: u8, day: u8) -> Option<u8>;

/// Asks `chrono` for the day of the week of a date: `NaiveDate::from_ymd_opt`
/// builds the date, or says that there is none, and
/// `weekday().number_from_sunday()` numbers its day. Taken on trust: that the
/// answer depends on the three numbers alone, that a weekday's number is 1 to
/// 7, and that a date has a month from 1 to 12 and a day from 1 to 31.
#[verifier::external_body]
pub(crate) fn weekday_from_sunday(year: u16, month: u8, day: u8) -> (weekday: Option<u8>)
    ensures
        weekday == calendar_weekday(year, month, day),
        weekday matches Some(n) ==> 1 <= n <= 7 && 1 <= month <= 12 && 1 <= day <= 31,
{
    match NaiveDate::from_ymd_opt(i32::from(year), u32::from(month), u32::from(day)) {
        Some(date) => Some(date.weekday().number_from_sunday() as u8),
        None => None,
    }
}

} // verus!
