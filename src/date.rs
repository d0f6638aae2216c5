//! Calendar dates as plain values, with the calendar rules that the records rely on.
use crate::store::StoreError;
use chrono::Datelike;
use vstd::prelude::*;

verus! {

/// Earliest year that a calendar date may carry.
pub const MIN_YEAR: i32 = -262143;

/// Latest year that a calendar date may carry.
pub const MAX_YEAR: i32 = 262142;

/// A day of the proleptic Gregorian calendar.
#[derive(Debug, Clone, Copy, PartialEq, Eq, Structural)]
pub struct Date {
    pub year: i32,
    pub month: u32,
    pub day: u32,
}

pub open spec fn is_leap_year(year: int) -> bool {
    (year % 4 == 0 && year % 100 != 0) || year % 400 == 0
}

pub open spec fn days_in_month(year: int, month: int) -> int {
    if month == 2 {
        if is_leap_year(year) {
            29
        } else {
            28
        }
    } else if month == 4 || month == 6 || month == 9 || month == 11 {
        30
    } else {
        31
    }
}

/// The triple names an existing day within the supported range of years.
pub open spec fn is_calendar_date(year: int, month: int, day: int) -> bool {
    &&& MIN_YEAR <= year <= MAX_YEAR
    &&& 1 <= month <= 12
    &&& 1 <= day <= days_in_month(year, month)
}

/// What reading `s` as `YYYY-MM-DD` gives: the year, month and day, or the reason it failed.
pub uninterp spec fn iso_date_parse(s: Seq<char>) -> Result<(i32, u32, u32), Seq<char>>;

impl Date {
    pub open spec fn valid(self) -> bool {
        is_calendar_date(self.year as int, self.month as int, self.day as int)
    }

    /// The date with the given fields, if that day exists.
    pub fn from_ymd(year: i32, month: u32, day: u32) -> (r: Option<Date>)
        ensures
            r is Some <==> is_calendar_date(year as int, month as int, day as int),
            r matches Some(d) ==> d == (Date { year, month, day }),
    {
        if calendar_date_exists(year, month, day) {
            Some(Date { year, month, day })
        } else {
            None
        }
    }

    /// The first day of the month that follows this date's month.
    pub fn first_of_next_month(&self) -> (r: Option<Date>)
        requires
            self.valid(),
        ensures
            r is Some <==> (self.month < 12 || self.year < MAX_YEAR),
            r matches Some(d) ==> d.valid() && d.day == 1 && (if self.month == 12 {
                d.year == self.year + 1 && d.month == 1
            } else {
                d.year == self.year && d.month == self.month + 1
            }),
    {
        if self.month == 12 {
            if self.year < MAX_YEAR {
                Date::from_ymd(self.year + 1, 1, 1)
            } else {
                None
            }
        } else {
            Date::from_ymd(self.year, self.month + 1, 1)
        }
    }
}

/// Relies on chrono's `NaiveDate::from_ymd_opt`, which gives `None` exactly for a day that
/// does not exist, a month or day out of range, or a year outside `MIN_YEAR..=MAX_YEAR`.
#[verifier::external_body]
fn calendar_date_exists(year: i32, month: u32, day: u32) -> (r: bool)
    ensures
        r == is_calendar_date(year as int, month as int, day as int),
{
    chrono::NaiveDate::from_ymd_opt(year, month, day).is_some()
}

/// Relies on chrono's `NaiveDate::parse_from_str` with the format `%Y-%m-%d`; a date that it
/// hands back always exists.
#[verifier::external_body]
fn parse_iso_date(s: &str) -> (r: Result<Date, String>)
    ensures
        match r {
            Ok(d) => iso_date_parse(s@) == Ok::<(i32, u32, u32), Seq<char>>((d.year, d.month, d.day))
                && d.valid(),
            Err(e) => iso_date_parse(s@) == Err::<(i32, u32, u32), Seq<char>>(e@),
        },
{
    match chrono::NaiveDate::parse_from_str(s, "%Y-%m-%d") {
        Ok(d) => Ok(Date { year: d.year(), month: d.month(), day: d.day() }),
        Err(e) => Err(e.to_string()),
    }
}

/// Relies on chrono's `Local::now`: the current day in the local time zone, a day that exists.
#[verifier::external_body]
pub(crate) fn today() -> (r: Date)
    ensures
        r.valid(),
{
    let d = chrono::Local::now().naive_local().date();
    Date { year: d.year(), month: d.month(), day: d.day() }
}

/// Reads a `YYYY-MM-DD` argument; on failure the message is `Invalid <what>: <reason>`.
pub fn parse_date_arg(text: &str, what: &str) -> (r: Result<Date, String>)
    ensures
        match iso_date_parse(text@) {
            Ok((y, m, d)) => r == Ok::<Date, String>(Date { year: y, month: m, day: d }),
            Err(reason) => (r matches Err(msg) && msg@ == "Invalid "@ + what@ + ": "@ + reason),
        },
        r matches Ok(d) ==> d.valid(),
{
    match parse_iso_date(text) {
        Ok(d) => Ok(d),
        Err(reason) => {
            let mut msg = String::from_str("Invalid ");
            msg.append(what);
            msg.append(": ");
            msg.append(reason.as_str());
            Err(msg)
        },
    }
}

/// A month that has a first day and is followed by one that has a first day too.
pub open spec fn month_exists(year: i32, month: u32) -> bool {
    is_calendar_date(year as int, month as int, 1) && (month < 12 || year < MAX_YEAR)
}

pub open spec fn first_of_month(year: i32, month: u32) -> Date {
    Date { year, month, day: 1 }
}

pub open spec fn first_of_following_month(year: i32, month: u32) -> Date {
    if month == 12 {
        Date { year: (year + 1) as i32, month: 1, day: 1 }
    } else {
        Date { year, month: (month + 1) as u32, day: 1 }
    }
}

/// The half-open range of days `[first, next)` that make up `month` of `year`.
/// Fails with `InvalidQuery` where either bound is not a calendar date.
pub fn month_bounds(year: i32, month: u32) -> (r: Result<(Date, Date), StoreError>)
    ensures
        r is Ok <==> month_exists(year, month),
        r matches Ok((first, next)) ==> first == first_of_month(year, month) && next
            == first_of_following_month(year, month) && first.valid() && next.valid(),
        r matches Err(e) ==> e == StoreError::InvalidQuery,
{
    match Date::from_ymd(year, month, 1) {
        None => Err(StoreError::InvalidQuery),
        Some(first) => match first.first_of_next_month() {
            None => Err(StoreError::InvalidQuery),
            Some(next) => Ok((first, next)),
        },
    }
}

} // verus!
