//! The proleptic Gregorian calendar as a mathematical model, and the two
//! conversions between day numbers and calendar dates.

use chrono::Datelike;
use chrono::NaiveDate;
use vstd::prelude::*;

verus! {

/// The earliest year for which a calendar date can be converted.
pub const MIN_YEAR: i32 = -262143;

/// The latest year for which a calendar date can be converted.
pub const MAX_YEAR: i32 = 262142;

/// Whether `year` has a 29th of February.
pub open spec fn is_leap_year(year: int) -> bool {
    year % 4 == 0 && (year % 100 != 0 || year % 400 == 0)
}

/// The number of days of month `month` (1 to 12) in `year`.
pub open spec fn days_in_month(year: int, month: int) -> int {
    if month == 2 {
        if is_leap_year(year) {
            29
        } else {
            28
        }
    } else if month == 4 || month == 6 || month == 9 || month == 11 {
        30
    } else {
        31
    }
}

/// Whether `year`-`month`-`day` names a day of the calendar.
pub open spec fn is_valid_date(year: int, month: int, day: int) -> bool {
    1 <= month <= 12 && 1 <= day <= days_in_month(year, month)
}

/// The number of days from January 1 of year 1 up to the last day before `year`.
pub open spec fn days_before_year(year: int) -> int {
    365 * (year - 1) + (year - 1) / 4 - (year - 1) / 100 + (year - 1) / 400
}

/// The number of days of `year` that lie before the first of `month`.
pub open spec fn days_before_month(year: int, month: int) -> int
    decreases month,
{
    if month <= 1 {
        0
    } else {
        days_before_month(year, month - 1) + days_in_month(year, month - 1)
    }
}

/// The number of the day `year`-`month`-`day`, where January 1 of year 1 is day 1.
pub open spec fn days_from_ce(year: int, month: int, day: int) -> int {
    days_before_year(year) + days_before_month(year, month) + day
}

/// The first day number that converts to a calendar date.
pub open spec fn min_day_number() -> int {
    days_from_ce(MIN_YEAR as int, 1, 1)
}

/// The last day number that converts to a calendar date.
pub open spec fn max_day_number() -> int {
    days_from_ce(MAX_YEAR as int, 12, 31)
}

/// The days before each month, written out.
pub proof fn lemma_days_before_month(year: int)
    ensures
        days_before_month(year, 1) == 0,
        days_before_month(year, 2) == 31,
        days_before_month(year, 3) == 59 + (if is_leap_year(year) { 1int } else { 0 }),
        days_before_month(year, 4) == 90 + (if is_leap_year(year) { 1int } else { 0 }),
        days_before_month(year, 5) == 120 + (if is_leap_year(year) { 1int } else { 0 }),
        days_before_month(year, 6) == 151 + (if is_leap_year(year) { 1int } else { 0 }),
        days_before_month(year, 7) == 181 + (if is_leap_year(year) { 1int } else { 0 }),
        days_before_month(year, 8) == 212 + (if is_leap_year(year) { 1int } else { 0 }),
        days_before_month(year, 9) == 243 + (if is_leap_year(year) { 1int } else { 0 }),
        days_before_month(year, 10) == 273 + (if is_leap_year(year) { 1int } else { 0 }),
        days_before_month(year, 11) == 304 + (if is_leap_year(year) { 1int } else { 0 }),
        days_before_month(year, 12) == 334 + (if is_leap_year(year) { 1int } else { 0 }),
        days_before_month(year, 13) == 365 + (if is_leap_year(year) { 1int } else { 0 }),
{
    reveal_with_fuel(days_before_month, 14);
}

/// A year is 365 or 366 days long.
pub proof fn lemma_year_length(year: int)
    ensures
        days_before_year(year + 1) == days_before_year(year) + days_before_month(year, 13),
        days_before_year(year + 1) == days_before_year(year) + (if is_leap_year(year) {
            366int
        } else {
            365
        }),
{
    lemma_days_before_month(year);
}

/// Later years start on later days.
pub proof fn lemma_years_ordered(y1: int, y2: int)
    requires
        y1 <= y2,
    ensures
        days_before_year(y1) + 365 * (y2 - y1) <= days_before_year(y2),
    decreases y2 - y1,
{
    if y1 < y2 {
        lemma_years_ordered(y1, y2 - 1);
        lemma_year_length(y2 - 1);
    }
}

/// Every day of a year lies after the days before it and within its length.
pub proof fn lemma_day_within_year(year: int, month: int, day: int)
    requires
        is_valid_date(year, month, day),
    ensures
        days_before_year(year) < days_from_ce(year, month, day) <= days_before_year(year + 1),
        days_from_ce(year, month, day) <= days_before_year(year) + days_before_month(
            year,
            month + 1,
        ),
        days_before_month(year, month + 1) == days_before_month(year, month) + days_in_month(
            year,
            month,
        ),
{
    lemma_days_before_month(year);
    lemma_year_length(year);
}

/// Day numbers order calendar dates as the dates themselves are ordered:
/// by year, then month, then day.
pub proof fn lemma_dates_ordered(y1: int, m1: int, d1: int, y2: int, m2: int, d2: int)
    requires
        is_valid_date(y1, m1, d1),
        is_valid_date(y2, m2, d2),
    ensures
        days_from_ce(y1, m1, d1) < days_from_ce(y2, m2, d2) <==> (y1 < y2 || (y1 == y2 && (m1 < m2
            || (m1 == m2 && d1 < d2)))),
        days_from_ce(y1, m1, d1) == days_from_ce(y2, m2, d2) <==> (y1 == y2 && m1 == m2 && d1
            == d2),
{
    lemma_day_within_year(y1, m1, d1);
    lemma_day_within_year(y2, m2, d2);
    lemma_days_before_month(y1);
    lemma_days_before_month(y2);
    if y1 < y2 {
        lemma_years_ordered(y1 + 1, y2);
    } else if y2 < y1 {
        lemma_years_ordered(y2 + 1, y1);
    }
}

/// Whether `year` has a 29th of February.
pub fn leap_year(year: i32) -> (r: bool)
    ensures
        r == is_leap_year(year as int),
{
    let by_four: bool = year.checked_rem_euclid(4) == Some(0);
    let by_hundred: bool = year.checked_rem_euclid(100) == Some(0);
    let by_four_hundred: bool = year.checked_rem_euclid(400) == Some(0);
    by_four && (!by_hundred || by_four_hundred)
}

/// The number of days of month `month` in `year`.
pub fn month_length(year: i32, month: u32) -> (r: u32)
    ensures
        r == days_in_month(year as int, month as int),
{
    if month == 2 {
        if leap_year(year) {
            29
        } else {
            28
        }
    } else if month == 4 || month == 6 || month == 9 || month == 11 {
        30
    } else {
        31
    }
}

/// Whether `year`-`month`-`day` names a day of the calendar.
pub fn valid_date(year: i32, month: u32, day: u32) -> (r: bool)
    ensures
        r == is_valid_date(year as int, month as int, day as int),
{
    1 <= month && month <= 12 && 1 <= day && day <= month_length(year, month)
}

/// The number of the day `year`-`month`-`day`, where January 1 of year 1 is
/// day 1, computed from the definition.
pub fn day_number(year: i32, month: u32, day: u32) -> (r: i64)
    requires
        1 <= month <= 12,
    ensures
        r == days_from_ce(year as int, month as int, day as int),
{
    proof {
        lemma_days_before_month(year as int);
    }
    let before: i64 = year as i64 - 1;
    let fours: i64 = before.checked_div_euclid(4).unwrap();
    let hundreds: i64 = before.checked_div_euclid(100).unwrap();
    let four_hundreds: i64 = before.checked_div_euclid(400).unwrap();
    let leap: i64 = if leap_year(year) && month > 2 {
        1
    } else {
        0
    };
    let months: i64 = if month == 1 {
        0
    } else if month == 2 {
        31
    } else if month == 3 {
        59
    } else if month == 4 {
        90
    } else if month == 5 {
        120
    } else if month == 6 {
        151
    } else if month == 7 {
        181
    } else if month == 8 {
        212
    } else if month == 9 {
        243
    } else if month == 10 {
        273
    } else if month == 11 {
        304
    } else {
        334
    };
    365 * before + fours - hundreds + four_hundreds + months + leap + day as i64
}

/// The calendar date of day number `days`.
///
/// Calls `NaiveDate::from_num_days_from_ce_opt` and reads the year, month and
/// day of what it returns.  Nothing of this is proved: the contract says that
/// a date comes back exactly for the day numbers of the years `MIN_YEAR` to
/// `MAX_YEAR`, that it is a day of the calendar, and that `days` is its number
/// in the proleptic Gregorian calendar, counted from January 1 of year 1 as
/// day 1.
#[verifier::external_body]
pub(crate) fn civil_from_days(days: i32) -> (r: Option<(i32, u32, u32)>)
    ensures
        r is Some <==> min_day_number() <= days <= max_day_number(),
        r matches Some(date) ==> MIN_YEAR <= date.0 <= MAX_YEAR && is_valid_date(
            date.0 as int,
            date.1 as int,
            date.2 as int,
        ) && days_from_ce(date.0 as int, date.1 as int, date.2 as int) == days,
{
    match NaiveDate::from_num_days_from_ce_opt(days) {
        Some(date) => Some((date.year(), date.month(), date.day())),
        None => None,
    }
}

/// The day number of the calendar date `year`-`month`-`day`.
///
/// Calls `NaiveDate::from_ymd_opt` and `Datelike::num_days_from_ce` on what it
/// returns.  Nothing of this is proved: the contract says that a number comes
/// back exactly when the date is a day of the calendar in the years
/// `MIN_YEAR` to `MAX_YEAR`, and that it is the date's number in the
/// proleptic Gregorian calendar, counted from January 1 of year 1 as day 1.
#[verifier::external_body]
pub(crate) fn days_from_civil(year: i32, month: u32, day: u32) -> (r: Option<i32>)
    ensures
        r is Some <==> (MIN_YEAR <= year <= MAX_YEAR
            && is_valid_date(year as int, month as int, day as int)),
        r matches Some(n) ==> n == days_from_ce(year as int, month as int, day as int),
{
    match NaiveDate::from_ymd_opt(year, month, day) {
        Some(date) => Some(date.num_days_from_ce()),
        None => None,
    }
}

/// The number of the ISO week in which the day `year`-`month`-`day` lies.
pub uninterp spec fn iso_week_number(year: int, month: int, day: int) -> int;

/// The number of the ISO week in which the calendar date `year`-`month`-`day`
/// lies.
///
/// Calls `NaiveDate::from_ymd_opt`, then `Datelike::iso_week` and
/// `IsoWeek::week` on what it returns.  Nothing of this is proved: the
/// contract says that a number comes back exactly when the date is a day of
/// the calendar in the years `MIN_YEAR` to `MAX_YEAR`, gives that number the
/// name `iso_week_number`, and says that it lies between 1 and 53.
#[verifier::external_body]
pub(crate) fn iso_week_of(year: i32, month: u32, day: u32) -> (r: Option<u32>)
    ensures
        r is Some <==> (MIN_YEAR <= year <= MAX_YEAR
            && is_valid_date(year as int, month as int, day as int)),
        r matches Some(week) ==> 1 <= week <= 53
            && week == iso_week_number(year as int, month as int, day as int),
{
    match NaiveDate::from_ymd_opt(year, month, day) {
        Some(date) => Some(date.iso_week().week()),
        None => None,
    }
}

} // verus!
