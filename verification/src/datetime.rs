//! Instants of the leaderboard clock: a millisecond timestamp together with
//! the calendar date that it falls on at the fixed offset UTC-04:00.

use crate::gregorian::civil_from_days;
use crate::gregorian::days_from_ce;
use crate::gregorian::is_valid_date;
use crate::gregorian::lemma_dates_ordered;
use crate::gregorian::lemma_days_before_month;
use crate::gregorian::MAX_YEAR;
use crate::gregorian::MIN_YEAR;
use vstd::prelude::*;

verus! {

/// How far the leaderboard clock lies west of UTC, in milliseconds (four hours).
pub const UTC_OFFSET_MILLIS: i64 = 14_400_000;

/// The length of a day in milliseconds.
pub const MILLIS_PER_DAY: i64 = 86_400_000;

/// The day number of January 1, 1970, counted from January 1 of year 1 as day 1.
pub const EPOCH_DAY_NUMBER: i64 = 719_163;

/// The number of the day on which the instant `millis` (milliseconds since
/// 1970-01-01T00:00:00Z) falls at UTC-04:00.
pub open spec fn local_day_number(millis: int) -> int {
    (millis - UTC_OFFSET_MILLIS) / (MILLIS_PER_DAY as int) + EPOCH_DAY_NUMBER
}

/// The instant at which day `day_number` begins at UTC-04:00.
pub open spec fn midnight_millis(day_number: int) -> int {
    (day_number - EPOCH_DAY_NUMBER) * MILLIS_PER_DAY + UTC_OFFSET_MILLIS
}

/// How many days after the most recent Sunday day `day_number` lies
/// (0 for a Sunday, 6 for a Saturday).  Day 1 is a Monday.
pub open spec fn days_from_sunday(day_number: int) -> int {
    day_number % 7
}

/// The first day number of the supported window.
pub open spec fn first_supported_day() -> int {
    days_from_ce(MIN_YEAR + 1, 1, 1)
}

/// The last day number of the supported window.
pub open spec fn last_supported_day() -> int {
    days_from_ce(MAX_YEAR - 1, 12, 31)
}

/// Whether the instant `millis` falls on a day of the supported window: the
/// years after `MIN_YEAR` and before `MAX_YEAR`.
pub open spec fn is_supported_instant(millis: int) -> bool {
    first_supported_day() <= local_day_number(millis) <= last_supported_day()
}

/// An instant, with the calendar date it falls on at UTC-04:00.
#[derive(Clone, Copy, Debug, PartialEq, Eq, Structural)]
pub struct LbDateTime {
    /// Milliseconds since 1970-01-01T00:00:00Z.
    pub millis: i64,
    /// The year of the local date.
    pub year: i32,
    /// The month of the local date, 1 to 12.
    pub month: u32,
    /// The day of the month of the local date, from 1.
    pub day: u32,
}

impl LbDateTime {
    /// The date is the one on which the instant falls, and lies in the
    /// supported window.
    pub open spec fn wf(&self) -> bool {
        &&& MIN_YEAR < self.year < MAX_YEAR
        &&& is_valid_date(self.year as int, self.month as int, self.day as int)
        &&& days_from_ce(self.year as int, self.month as int, self.day as int) == local_day_number(
            self.millis as int,
        )
    }

    /// The number of the local day.
    pub open spec fn spec_day_number(&self) -> int {
        local_day_number(self.millis as int)
    }

    /// The instant `millis` milliseconds after 1970-01-01T00:00:00Z, or `None`
    /// when it falls outside the supported window.
    pub fn from_millis(millis: i64) -> (r: Option<LbDateTime>)
        ensures
            r is Some <==> is_supported_instant(millis as int),
            r matches Some(t) ==> t.wf() && t.millis == millis,
    {
        proof {
            lemma_days_before_month(MIN_YEAR + 1);
            lemma_days_before_month(MAX_YEAR - 1);
            lemma_days_before_month(MIN_YEAR as int);
            lemma_days_before_month(MAX_YEAR as int);
        }
        let local: i64 = match millis.checked_sub(UTC_OFFSET_MILLIS) {
            Some(local) => local,
            None => { return None; },
        };
        let epoch_day: i64 = match local.checked_div_euclid(MILLIS_PER_DAY) {
            Some(q) => q,
            None => { return None; },
        };
        let number: i64 = epoch_day + EPOCH_DAY_NUMBER;
        if number < -100_000_000 || number > 100_000_000 {
            return None;
        }
        match civil_from_days(number as i32) {
            Some((year, month, day)) => {
                proof {
                    let (y, m, d) = (year as int, month as int, day as int);
                    lemma_dates_ordered(y, m, d, MIN_YEAR + 1, 1, 1);
                    lemma_dates_ordered(y, m, d, MAX_YEAR - 1, 12, 31);
                }
                if MIN_YEAR < year && year < MAX_YEAR {
                    Some(LbDateTime { millis, year, month, day })
                } else {
                    None
                }
            },
            None => None,
        }
    }

    /// Milliseconds since 1970-01-01T00:00:00Z.
    pub fn timestamp_millis(&self) -> (r: i64)
        ensures
            r == self.millis,
    {
        self.millis
    }

    /// The year of the local date.
    pub fn year(&self) -> (r: i32)
        ensures
            r == self.year,
    {
        self.year
    }

    /// The month of the local date, 1 to 12.
    pub fn month(&self) -> (r: u32)
        ensures
            r == self.month,
    {
        self.month
    }

    /// The day of the month of the local date, from 1.
    pub fn day(&self) -> (r: u32)
        ensures
            r == self.day,
    {
        self.day
    }

    /// The number of the local day, counted from January 1 of year 1 as day 1.
    pub fn day_number(&self) -> (r: i32)
        requires
            self.wf(),
        ensures
            r == self.spec_day_number(),
    {
        proof {
            lemma_days_before_month(self.year as int);
        }
        let local: i64 = self.millis - UTC_OFFSET_MILLIS;
        let epoch_day: i64 = match local.checked_div_euclid(MILLIS_PER_DAY) {
            Some(q) => q,
            None => 0,
        };
        (epoch_day + EPOCH_DAY_NUMBER) as i32
    }

    /// How many days after the most recent Sunday the local day lies.
    pub fn num_days_from_sunday(&self) -> (r: u32)
        requires
            self.wf(),
        ensures
            r == days_from_sunday(self.spec_day_number()),
    {
        let number: i32 = self.day_number();
        match number.checked_rem_euclid(7) {
            Some(rem) => rem as u32,
            None => 0,
        }
    }
}

/// Two well-formed instants with the same timestamp are the same value: the
/// timestamp decides the date.
pub proof fn lemma_timestamp_decides_date(a: LbDateTime, b: LbDateTime)
    requires
        a.wf(),
        b.wf(),
        a.millis == b.millis,
    ensures
        a == b,
{
    lemma_dates_ordered(
        a.year as int,
        a.month as int,
        a.day as int,
        b.year as int,
        b.month as int,
        b.day as int,
    );
}

/// The current time in milliseconds since 1970-01-01T00:00:00Z.
///
/// Calls `chrono::Utc::now` and `DateTime::timestamp_millis`.  The result is
/// whatever the system clock says, so nothing is claimed of it.
#[verifier::external_body]
pub(crate) fn utc_now_millis() -> i64 {
    chrono::Utc::now().timestamp_millis()
}

/// The current instant of the leaderboard clock, or `None` when the system
/// clock lies outside the supported window.
pub fn get_lb_datetime() -> (r: Option<LbDateTime>)
    ensures
        r matches Some(t) ==> t.wf(),
{
    LbDateTime::from_millis(utc_now_millis())
}

} // verus!
