//! The six leaderboard periods and their calendar buckets.

use crate::datetime::days_from_sunday;
use crate::datetime::is_supported_instant;
use crate::datetime::lemma_timestamp_decides_date;
use crate::datetime::local_day_number;
use crate::datetime::midnight_millis;
use crate::datetime::utc_now_millis;
use crate::datetime::LbDateTime;
use crate::datetime::EPOCH_DAY_NUMBER;
use crate::datetime::MILLIS_PER_DAY;
use crate::datetime::UTC_OFFSET_MILLIS;
use crate::gregorian::days_from_ce;
use crate::gregorian::days_from_civil;
use crate::gregorian::iso_week_number;
use crate::gregorian::iso_week_of;
use crate::gregorian::lemma_dates_ordered;
use crate::gregorian::lemma_days_before_month;
use crate::gregorian::MAX_YEAR;
use crate::gregorian::MIN_YEAR;
use crate::season::Month;
use crate::season::Season;
use crate::text::decimal_digits;
use crate::text::decimal_int;
use crate::text::push_decimal;
use crate::text::push_int;
use crate::text::str_equal;
use vstd::prelude::*;
use vstd::string::*;

verus! {

/// A time window over which scores are ranked.
#[derive(Clone, Copy, Debug, PartialEq, Eq, Hash, Structural)]
pub enum LeaderboardPeriod {
    Daily,
    Weekly,
    Monthly,
    Seasonally,
    Yearly,
    AllTime,
}

/// A half-open range of instants, in milliseconds since
/// 1970-01-01T00:00:00Z: from `start`, where there is one, up to but not
/// including `end`.
#[derive(Clone, Copy, Debug, PartialEq, Eq, Structural)]
pub struct LeaderboardPeriodDateTimeRange {
    /// The first instant of the range; `None` for a range without a beginning.
    pub start: Option<i64>,
    /// The first instant after the range.
    pub end: i64,
}

impl LeaderboardPeriodDateTimeRange {
    /// Whether the instant `millis` lies in the range.
    pub open spec fn spec_contains(self, millis: int) -> bool {
        millis < self.end && (self.start matches Some(start) ==> start <= millis)
    }

    /// Whether the instant `millis` lies in the range.
    pub fn contains(&self, millis: i64) -> (r: bool)
        ensures
            r == self.spec_contains(millis as int),
    {
        millis < self.end && match self.start {
            Some(start) => start <= millis,
            None => true,
        }
    }
}

/// The number of the day on which the season begins that starts in `year`.
pub open spec fn season_start_day_number(season: Season, year: int) -> int {
    days_from_ce(year, season.spec_start_month().spec_number(), season.spec_start_day())
}

/// The year in which the season began that holds day `day` of month `month`
/// of `year`: the year before where the season's first day comes later in
/// the year than that day.
pub open spec fn season_start_year(season: Season, year: int, month: int, day: int) -> int {
    if season.spec_starts_after(month, day) {
        year - 1
    } else {
        year
    }
}

/// The number of the first day of the bucket of `period` that holds `t`.
/// For all-time, which has no first day, the day of `t` itself.
pub open spec fn bucket_first_day(period: LeaderboardPeriod, t: LbDateTime) -> int {
    let number = t.spec_day_number();
    match period {
        LeaderboardPeriod::Daily => number,
        LeaderboardPeriod::Weekly => number - days_from_sunday(number),
        LeaderboardPeriod::Monthly => days_from_ce(t.year as int, t.month as int, 1),
        LeaderboardPeriod::Seasonally => {
            let season = Season::spec_get_season(t.month as int, t.day as int);
            season_start_day_number(
                season,
                season_start_year(season, t.year as int, t.month as int, t.day as int),
            )
        },
        LeaderboardPeriod::Yearly => days_from_ce(t.year as int, 1, 1),
        LeaderboardPeriod::AllTime => number,
    }
}

/// The number of the first day after the bucket of `period` that holds `t`.
/// For all-time, whose bucket goes up to `t`, the day of `t` itself.
pub open spec fn bucket_end_day(period: LeaderboardPeriod, t: LbDateTime) -> int {
    let number = t.spec_day_number();
    match period {
        LeaderboardPeriod::Daily => number + 1,
        LeaderboardPeriod::Weekly => number - days_from_sunday(number) + 7,
        LeaderboardPeriod::Monthly => if t.month == 12 {
            days_from_ce(t.year + 1, 1, 1)
        } else {
            days_from_ce(t.year as int, t.month + 1, 1)
        },
        LeaderboardPeriod::Seasonally => {
            let season = Season::spec_get_season(t.month as int, t.day as int);
            let year = season_start_year(season, t.year as int, t.month as int, t.day as int);
            season_start_day_number(
                season.spec_next(),
                if season == Season::Winter {
                    year + 1
                } else {
                    year
                },
            )
        },
        LeaderboardPeriod::Yearly => days_from_ce(t.year + 1, 1, 1),
        LeaderboardPeriod::AllTime => number,
    }
}

/// The instant at which day `number` begins at UTC-04:00.
fn midnight_of(number: i32) -> (r: i64)
    ensures
        r == midnight_millis(number as int),
{
    (number as i64 - EPOCH_DAY_NUMBER) * MILLIS_PER_DAY + UTC_OFFSET_MILLIS
}

/// The number of the day `year`-`month`-`day`.
fn day_number_of(year: i32, month: u32, day: u32) -> (r: i32)
    requires
        MIN_YEAR <= year <= MAX_YEAR,
        crate::gregorian::is_valid_date(year as int, month as int, day as int),
    ensures
        r == days_from_ce(year as int, month as int, day as int),
{
    days_from_civil(year, month, day).unwrap()
}

impl LeaderboardPeriod {
    /// Whether `a` and `b` count as one bucket of the period.
    ///
    /// Days, weeks (which begin on Sunday), months and years are compared by
    /// the calendar.  For seasons only the months are compared, each counted
    /// whole to one season; all instants share the one all-time bucket.
    pub open spec fn spec_same_bucket(self, a: LbDateTime, b: LbDateTime) -> bool {
        match self {
            LeaderboardPeriod::Daily => a.spec_day_number() == b.spec_day_number(),
            LeaderboardPeriod::Weekly => a.spec_day_number() - days_from_sunday(
                a.spec_day_number(),
            ) == b.spec_day_number() - days_from_sunday(b.spec_day_number()),
            LeaderboardPeriod::Monthly => a.year == b.year && a.month == b.month,
            LeaderboardPeriod::Seasonally => Season::spec_of_northern(
                Month::spec_from_number(a.month as int),
            ) == Season::spec_of_northern(Month::spec_from_number(b.month as int)),
            LeaderboardPeriod::Yearly => a.year == b.year,
            LeaderboardPeriod::AllTime => true,
        }
    }

    /// The bounds of the bucket of the period that holds `t`: midnight of its
    /// first day, and midnight of the day after its last.  The all-time
    /// bucket has no beginning and ends at `t`.
    pub open spec fn spec_bucket_bounds(self, t: LbDateTime) -> (Option<int>, int) {
        if self == LeaderboardPeriod::AllTime {
            (None, t.millis as int)
        } else {
            (
                Some(midnight_millis(bucket_first_day(self, t))),
                midnight_millis(bucket_end_day(self, t)),
            )
        }
    }

    /// The bucket of the period that holds `t`, as a range of instants.
    pub open spec fn spec_full_date_range(self, t: LbDateTime) -> LeaderboardPeriodDateTimeRange {
        LeaderboardPeriodDateTimeRange {
            start: match self.spec_bucket_bounds(t).0 {
                Some(start) => Some(start as i64),
                None => None,
            },
            end: self.spec_bucket_bounds(t).1 as i64,
        }
    }

    /// The bucket of the period that holds `now`, cut off at `now`.
    pub open spec fn spec_date_range_up_to(
        self,
        now: LbDateTime,
    ) -> LeaderboardPeriodDateTimeRange {
        LeaderboardPeriodDateTimeRange {
            start: self.spec_full_date_range(now).start,
            end: now.millis,
        }
    }

    /// The tag of the period, in upper case with underscores.
    pub open spec fn spec_name(self) -> Seq<char> {
        match self {
            LeaderboardPeriod::Daily => "DAILY"@,
            LeaderboardPeriod::Weekly => "WEEKLY"@,
            LeaderboardPeriod::Monthly => "MONTHLY"@,
            LeaderboardPeriod::Seasonally => "SEASONALLY"@,
            LeaderboardPeriod::Yearly => "YEARLY"@,
            LeaderboardPeriod::AllTime => "ALL_TIME"@,
        }
    }

    /// The place of the period in the order from finest to coarsest.
    pub open spec fn spec_index(self) -> int {
        match self {
            LeaderboardPeriod::Daily => 0,
            LeaderboardPeriod::Weekly => 1,
            LeaderboardPeriod::Monthly => 2,
            LeaderboardPeriod::Seasonally => 3,
            LeaderboardPeriod::Yearly => 4,
            LeaderboardPeriod::AllTime => 5,
        }
    }

    /// The six periods, from finest to coarsest.
    pub open spec fn spec_all() -> Seq<LeaderboardPeriod> {
        seq![
            LeaderboardPeriod::Daily,
            LeaderboardPeriod::Weekly,
            LeaderboardPeriod::Monthly,
            LeaderboardPeriod::Seasonally,
            LeaderboardPeriod::Yearly,
            LeaderboardPeriod::AllTime,
        ]
    }

    /// The tag of the period, in upper case with underscores.
    pub fn as_str(&self) -> (r: &'static str)
        ensures
            r@ == self.spec_name(),
    {
        match self {
            LeaderboardPeriod::Daily => "DAILY",
            LeaderboardPeriod::Weekly => "WEEKLY",
            LeaderboardPeriod::Monthly => "MONTHLY",
            LeaderboardPeriod::Seasonally => "SEASONALLY",
            LeaderboardPeriod::Yearly => "YEARLY",
            LeaderboardPeriod::AllTime => "ALL_TIME",
        }
    }

    /// The tag of the period, in upper case with underscores.
    pub fn to_string(&self) -> (r: String)
        ensures
            r@ == self.spec_name(),
    {
        String::from_str(self.as_str())
    }

    /// The place of the period in the order from finest to coarsest.
    pub fn index(&self) -> (r: usize)
        ensures
            r == self.spec_index(),
            r < 6,
            LeaderboardPeriod::spec_all()[r as int] == *self,
    {
        match self {
            LeaderboardPeriod::Daily => 0,
            LeaderboardPeriod::Weekly => 1,
            LeaderboardPeriod::Monthly => 2,
            LeaderboardPeriod::Seasonally => 3,
            LeaderboardPeriod::Yearly => 4,
            LeaderboardPeriod::AllTime => 5,
        }
    }

    /// The six periods, from finest to coarsest.
    pub fn all() -> (r: Vec<LeaderboardPeriod>)
        ensures
            r@ == LeaderboardPeriod::spec_all(),
    {
        let r: Vec<LeaderboardPeriod> = vec![
            LeaderboardPeriod::Daily,
            LeaderboardPeriod::Weekly,
            LeaderboardPeriod::Monthly,
            LeaderboardPeriod::Seasonally,
            LeaderboardPeriod::Yearly,
            LeaderboardPeriod::AllTime,
        ];
        assert(r@ =~= LeaderboardPeriod::spec_all());
        r
    }

    /// The period with the tag `tag`, if there is one.
    pub fn from_str(tag: &str) -> (r: Option<LeaderboardPeriod>)
        ensures
            r matches Some(period) ==> period.spec_name() == tag@,
            r is None ==> forall|period: LeaderboardPeriod| period.spec_name() != tag@,
    {
        if str_equal(tag, "DAILY") {
            Some(LeaderboardPeriod::Daily)
        } else if str_equal(tag, "WEEKLY") {
            Some(LeaderboardPeriod::Weekly)
        } else if str_equal(tag, "MONTHLY") {
            Some(LeaderboardPeriod::Monthly)
        } else if str_equal(tag, "SEASONALLY") {
            Some(LeaderboardPeriod::Seasonally)
        } else if str_equal(tag, "YEARLY") {
            Some(LeaderboardPeriod::Yearly)
        } else if str_equal(tag, "ALL_TIME") {
            Some(LeaderboardPeriod::AllTime)
        } else {
            None
        }
    }

    /// The finest period: the one by whose buckets the log is keyed.
    pub fn get_most_granular_period() -> (r: LeaderboardPeriod)
        ensures
            r == LeaderboardPeriod::Daily,
    {
        LeaderboardPeriod::Daily
    }

    /// Whether `date1` and `date2` lie in different buckets of the period.
    pub fn are_datetimes_disjoint(&self, date1: &LbDateTime, date2: &LbDateTime) -> (r: bool)
        requires
            date1.wf(),
            date2.wf(),
        ensures
            r == !self.spec_same_bucket(*date1, *date2),
    {
        match self {
            LeaderboardPeriod::Daily => date1.day_number() != date2.day_number(),
            LeaderboardPeriod::Weekly => {
                let number1: i32 = date1.day_number();
                let number2: i32 = date2.day_number();
                proof {
                    lemma_days_before_month(date1.year as int);
                    lemma_days_before_month(date2.year as int);
                }
                number1 as i64 - date1.num_days_from_sunday() as i64 != number2 as i64
                    - date2.num_days_from_sunday() as i64
            },
            LeaderboardPeriod::Monthly => date1.year() != date2.year() || date1.month()
                != date2.month(),
            LeaderboardPeriod::Seasonally => {
                let season1: Season = Season::of_northern(Month::from_u32(date1.month()).unwrap());
                let season2: Season = Season::of_northern(Month::from_u32(date2.month()).unwrap());
                season1 != season2
            },
            LeaderboardPeriod::Yearly => date1.year() != date2.year(),
            LeaderboardPeriod::AllTime => false,
        }
    }

    /// The number of the first day of the bucket that holds `date_time`.
    fn first_day(&self, date_time: &LbDateTime) -> (r: i32)
        requires
            date_time.wf(),
        ensures
            r == bucket_first_day(*self, *date_time),
    {
        proof {
            lemma_days_before_month(date_time.year as int);
            lemma_days_before_month(date_time.year - 1);
        }
        match self {
            LeaderboardPeriod::Daily | LeaderboardPeriod::AllTime => date_time.day_number(),
            LeaderboardPeriod::Weekly => {
                let number: i32 = date_time.day_number();
                number - date_time.num_days_from_sunday() as i32
            },
            LeaderboardPeriod::Monthly => day_number_of(date_time.year(), date_time.month(), 1),
            LeaderboardPeriod::Seasonally => {
                let season: Season = Season::get_season(date_time);
                let (month, day) = season.get_northern_season_start();
                let year: i32 = if season.starts_after(date_time) {
                    date_time.year() - 1
                } else {
                    date_time.year()
                };
                day_number_of(year, month.number_from_month(), day)
            },
            LeaderboardPeriod::Yearly => day_number_of(date_time.year(), 1, 1),
        }
    }

    /// The number of the first day after the bucket that holds `date_time`.
    fn end_day(&self, date_time: &LbDateTime) -> (r: i32)
        requires
            date_time.wf(),
        ensures
            r == bucket_end_day(*self, *date_time),
    {
        proof {
            lemma_days_before_month(date_time.year as int);
            lemma_days_before_month(date_time.year - 1);
            lemma_days_before_month(date_time.year + 1);
        }
        match self {
            LeaderboardPeriod::Daily => date_time.day_number() + 1,
            LeaderboardPeriod::AllTime => date_time.day_number(),
            LeaderboardPeriod::Weekly => {
                let number: i32 = date_time.day_number();
                number - date_time.num_days_from_sunday() as i32 + 7
            },
            LeaderboardPeriod::Monthly => {
                if date_time.month() == 12 {
                    day_number_of(date_time.year() + 1, 1, 1)
                } else {
                    day_number_of(date_time.year(), date_time.month() + 1, 1)
                }
            },
            LeaderboardPeriod::Seasonally => {
                let season: Season = Season::get_season(date_time);
                let began: i32 = if season.starts_after(date_time) {
                    date_time.year() - 1
                } else {
                    date_time.year()
                };
                let (month, day) = season.next().get_northern_season_start();
                let year: i32 = match season {
                    Season::Winter => began + 1,
                    _ => began,
                };
                day_number_of(year, month.number_from_month(), day)
            },
            LeaderboardPeriod::Yearly => day_number_of(date_time.year() + 1, 1, 1),
        }
    }

    /// The bucket of the period that holds `date_time`.
    pub fn get_full_date_range(&self, date_time: &LbDateTime) -> (r:
        LeaderboardPeriodDateTimeRange)
        requires
            date_time.wf(),
        ensures
            r == self.spec_full_date_range(*date_time),
            r.end == self.spec_bucket_bounds(*date_time).1,
            r.start is None <==> *self == LeaderboardPeriod::AllTime,
            r.start matches Some(start) ==> self.spec_bucket_bounds(*date_time).0 == Some(
                start as int,
            ),
    {
        match self {
            LeaderboardPeriod::AllTime => LeaderboardPeriodDateTimeRange {
                start: None,
                end: date_time.timestamp_millis(),
            },
            _ => LeaderboardPeriodDateTimeRange {
                start: Some(midnight_of(self.first_day(date_time))),
                end: midnight_of(self.end_day(date_time)),
            },
        }
    }

    /// The bucket of the period that holds `now`, cut off at `now`.
    pub fn date_range_up_to(&self, now: &LbDateTime) -> (r: LeaderboardPeriodDateTimeRange)
        requires
            now.wf(),
        ensures
            r == self.spec_date_range_up_to(*now),
            r.end == now.millis,
            r.start is None <==> *self == LeaderboardPeriod::AllTime,
            r.start matches Some(start) ==> self.spec_bucket_bounds(*now).0 == Some(start as int),
    {
        match self {
            LeaderboardPeriod::AllTime => LeaderboardPeriodDateTimeRange {
                start: None,
                end: now.timestamp_millis(),
            },
            _ => LeaderboardPeriodDateTimeRange {
                start: Some(midnight_of(self.first_day(now))),
                end: now.timestamp_millis(),
            },
        }
    }

    /// The name of the bucket of the period that holds the day
    /// `year`-`month`-`day`, which lies in the ISO week `week`: the year
    /// and then, for a day, the month counted from 0 and the day of the
    /// month; for a week, the ISO week; for a month, the month counted from
    /// 0; for a season, the name of the season that the month is counted to.
    pub open spec fn spec_today_id(self, year: int, month: int, day: int, week: int) -> Seq<char> {
        match self {
            LeaderboardPeriod::Daily => decimal_int(year) + ":d:"@ + decimal_digits(
                (month - 1) as nat,
            ) + ":"@ + decimal_digits(day as nat),
            LeaderboardPeriod::Weekly => decimal_int(year) + ":w:"@ + decimal_digits(week as nat),
            LeaderboardPeriod::Monthly => decimal_int(year) + ":m:"@ + decimal_digits(
                (month - 1) as nat,
            ),
            LeaderboardPeriod::Seasonally => decimal_int(year) + ":s:"@ + Season::spec_of_northern(
                Month::spec_from_number(month),
            ).spec_name(),
            LeaderboardPeriod::Yearly => decimal_int(year) + ":y"@,
            LeaderboardPeriod::AllTime => "all"@,
        }
    }

    /// The name of the bucket of the period that holds the day
    /// `year`-`month`-`day`, which lies in the ISO week `week`.
    pub fn format_today_id(&self, year: i32, month: u32, day: u32, week: u32) -> (r: String)
        requires
            1 <= month <= 12,
        ensures
            r@ == self.spec_today_id(year as int, month as int, day as int, week as int),
    {
        let mut id: String = String::new();
        match self {
            LeaderboardPeriod::Daily => {
                push_int(&mut id, year);
                id.append(":d:");
                push_decimal(&mut id, (month - 1) as u64);
                id.append(":");
                push_decimal(&mut id, day as u64);
            },
            LeaderboardPeriod::Weekly => {
                push_int(&mut id, year);
                id.append(":w:");
                push_decimal(&mut id, week as u64);
            },
            LeaderboardPeriod::Monthly => {
                push_int(&mut id, year);
                id.append(":m:");
                push_decimal(&mut id, (month - 1) as u64);
            },
            LeaderboardPeriod::Seasonally => {
                push_int(&mut id, year);
                id.append(":s:");
                let season: Season = Season::of_northern(Month::from_u32(month).unwrap());
                id.append(season.name());
            },
            LeaderboardPeriod::Yearly => {
                push_int(&mut id, year);
                id.append(":y");
            },
            LeaderboardPeriod::AllTime => {
                id.append("all");
            },
        }
        assert(id@ =~= self.spec_today_id(year as int, month as int, day as int, week as int));
        id
    }

    /// The name of the bucket of the period that holds `date`.
    pub fn today_id_at(&self, date: &LbDateTime) -> (r: String)
        requires
            date.wf(),
        ensures
            r@ == self.spec_today_id(
                date.year as int,
                date.month as int,
                date.day as int,
                iso_week_number(date.year as int, date.month as int, date.day as int),
            ),
    {
        let week: u32 = iso_week_of(date.year(), date.month(), date.day()).unwrap();
        self.format_today_id(date.year(), date.month(), date.day(), week)
    }

    /// The name of the bucket of the period that holds the current instant.
    /// The all-time bucket is named whatever the clock says; for the other
    /// periods there is no name when the system clock lies outside the
    /// supported window.
    pub fn get_today_id(&self) -> (r: Option<String>)
        ensures
            *self == LeaderboardPeriod::AllTime ==> (r matches Some(id) && id@ == "all"@),
            exists|millis: i64| #[trigger] self.is_today_id_at(millis, r),
    {
        let millis: i64 = utc_now_millis();
        let r: Option<String> = self.today_id_at_millis(millis);
        assert(self.is_today_id_at(millis, r));
        r
    }

    /// The bucket of the period that holds the current instant, cut off at
    /// that instant.  The all-time bucket has no beginning, so it is given
    /// whatever the clock says; for the other periods there is no range when
    /// the system clock lies outside the supported window.
    pub fn get_date_range_with_now_as_upperbound(&self) -> (r: Option<
        LeaderboardPeriodDateTimeRange,
    >)
        ensures
            *self == LeaderboardPeriod::AllTime ==> (r matches Some(range) && range.start
                is None),
            exists|millis: i64| #[trigger] self.is_date_range_at(millis, r),
    {
        let millis: i64 = utc_now_millis();
        let r: Option<LeaderboardPeriodDateTimeRange> = self.date_range_at_millis(millis);
        assert(self.is_date_range_at(millis, r));
        r
    }

    /// Whether `r` is what the bucket of the period that holds the instant
    /// `millis`, cut off at that instant, comes to: the range from the
    /// beginning of the bucket up to `millis`.  For all-time this is the
    /// range without a beginning, for every instant; for the other periods
    /// there is a range exactly when the instant lies in the supported
    /// window.
    pub open spec fn is_date_range_at(
        self,
        millis: i64,
        r: Option<LeaderboardPeriodDateTimeRange>,
    ) -> bool {
        &&& r is Some <==> self == LeaderboardPeriod::AllTime || is_supported_instant(
            millis as int,
        )
        &&& r matches Some(range) ==> {
            &&& range.end == millis
            &&& range.start is None <==> self == LeaderboardPeriod::AllTime
            &&& forall|now: LbDateTime|
                #[trigger] now.wf() && now.millis == millis ==> range
                    == self.spec_date_range_up_to(now)
        }
    }

    /// Whether `r` is what the name of the bucket of the period that holds
    /// the instant `millis` comes to.  For all-time this is `all`, for
    /// every instant; for the other periods there is a name exactly when
    /// the instant lies in the supported window, and it is the name of the
    /// bucket that holds the date of the instant.
    pub open spec fn is_today_id_at(self, millis: i64, r: Option<String>) -> bool {
        &&& r is Some <==> self == LeaderboardPeriod::AllTime || is_supported_instant(
            millis as int,
        )
        &&& r matches Some(id) ==> {
            &&& self == LeaderboardPeriod::AllTime ==> id@ == "all"@
            &&& forall|date: LbDateTime|
                #[trigger] date.wf() && date.millis == millis ==> id@ == self.spec_today_id(
                    date.year as int,
                    date.month as int,
                    date.day as int,
                    iso_week_number(date.year as int, date.month as int, date.day as int),
                )
        }
    }

    /// The bucket of the period that holds the instant `millis`, cut off at
    /// that instant.
    pub fn date_range_at_millis(&self, millis: i64) -> (r: Option<LeaderboardPeriodDateTimeRange>)
        ensures
            self.is_date_range_at(millis, r),
    {
        match self {
            LeaderboardPeriod::AllTime => {
                let range = LeaderboardPeriodDateTimeRange { start: None, end: millis };
                assert(self.is_date_range_at(millis, Some(range)));
                Some(range)
            },
            _ => match LbDateTime::from_millis(millis) {
                Some(now) => {
                    let range: LeaderboardPeriodDateTimeRange = self.date_range_up_to(&now);
                    proof {
                        assert forall|other: LbDateTime|
                            #[trigger] other.wf() && other.millis == millis implies range
                            == self.spec_date_range_up_to(other) by {
                            lemma_timestamp_decides_date(now, other);
                        }
                    }
                    Some(range)
                },
                None => None,
            },
        }
    }

    /// The name of the bucket of the period that holds the instant `millis`.
    pub fn today_id_at_millis(&self, millis: i64) -> (r: Option<String>)
        ensures
            self.is_today_id_at(millis, r),
    {
        match self {
            LeaderboardPeriod::AllTime => {
                let id: String = String::from_str("all");
                Some(id)
            },
            _ => match LbDateTime::from_millis(millis) {
                Some(now) => {
                    let id: String = self.today_id_at(&now);
                    proof {
                        assert forall|other: LbDateTime|
                            #[trigger] other.wf() && other.millis == millis implies id@
                            == self.spec_today_id(
                            other.year as int,
                            other.month as int,
                            other.day as int,
                            iso_week_number(
                                other.year as int,
                                other.month as int,
                                other.day as int,
                            ),
                        ) by {
                            lemma_timestamp_decides_date(now, other);
                        }
                    }
                    Some(id)
                },
                None => None,
            },
        }
    }
}

/// Whether the instant `millis` lies in the range from `range.0`, where there
/// is one, up to but not including `range.1`.
pub open spec fn range_contains(range: (Option<int>, int), millis: int) -> bool {
    millis < range.1 && (range.0 matches Some(start) ==> start <= millis)
}

/// An instant lies between the midnights of two days exactly when its day
/// lies between them.
pub proof fn lemma_midnights_bound_days(first: int, end: int, millis: int)
    ensures
        midnight_millis(first) <= millis < midnight_millis(end) <==> first <= local_day_number(
            millis,
        ) < end,
{
}

/// The daily and weekly cases of `lemma_same_bucket_iff_in_range`.
proof fn lemma_day_and_week_buckets(period: LeaderboardPeriod, a: LbDateTime, b: LbDateTime)
    requires
        period == LeaderboardPeriod::Daily || period == LeaderboardPeriod::Weekly,
    ensures
        period.spec_same_bucket(a, b) <==> range_contains(
            period.spec_bucket_bounds(a),
            b.millis as int,
        ),
{
    lemma_midnights_bound_days(
        bucket_first_day(period, a),
        bucket_end_day(period, a),
        b.millis as int,
    );
}

/// The monthly case of `lemma_same_bucket_iff_in_range`.
proof fn lemma_month_buckets(a: LbDateTime, b: LbDateTime)
    requires
        a.wf(),
        b.wf(),
    ensures
        LeaderboardPeriod::Monthly.spec_same_bucket(a, b) <==> range_contains(
            LeaderboardPeriod::Monthly.spec_bucket_bounds(a),
            b.millis as int,
        ),
{
    let period = LeaderboardPeriod::Monthly;
    let first = bucket_first_day(period, a);
    let end = bucket_end_day(period, a);
    lemma_midnights_bound_days(first, end, b.millis as int);
    let (by, bm, bd) = (b.year as int, b.month as int, b.day as int);
    lemma_dates_ordered(by, bm, bd, a.year as int, a.month as int, 1);
    if a.month == 12 {
        lemma_dates_ordered(by, bm, bd, a.year + 1, 1, 1);
    } else {
        lemma_dates_ordered(by, bm, bd, a.year as int, a.month + 1, 1);
    }
    assert(first <= b.spec_day_number() < end <==> (by == a.year && bm == a.month));
}

/// The yearly case of `lemma_same_bucket_iff_in_range`.
proof fn lemma_year_buckets(a: LbDateTime, b: LbDateTime)
    requires
        a.wf(),
        b.wf(),
    ensures
        LeaderboardPeriod::Yearly.spec_same_bucket(a, b) <==> range_contains(
            LeaderboardPeriod::Yearly.spec_bucket_bounds(a),
            b.millis as int,
        ),
{
    let period = LeaderboardPeriod::Yearly;
    let first = bucket_first_day(period, a);
    let end = bucket_end_day(period, a);
    lemma_midnights_bound_days(first, end, b.millis as int);
    let (by, bm, bd) = (b.year as int, b.month as int, b.day as int);
    lemma_dates_ordered(by, bm, bd, a.year as int, 1, 1);
    lemma_dates_ordered(by, bm, bd, a.year + 1, 1, 1);
    assert(first <= b.spec_day_number() < end <==> by == a.year);
}

/// The bounds of a bucket are instants that 64 bits hold, so the range of
/// the bucket holds exactly the instants between them.
pub proof fn lemma_full_date_range_is_exact(period: LeaderboardPeriod, t: LbDateTime, millis: int)
    requires
        t.wf(),
    ensures
        period.spec_full_date_range(t).spec_contains(millis) <==> range_contains(
            period.spec_bucket_bounds(t),
            millis,
        ),
{
    lemma_days_before_month(t.year as int);
    lemma_days_before_month(t.year - 1);
    lemma_days_before_month(t.year + 1);
    let first = bucket_first_day(period, t);
    let end = bucket_end_day(period, t);
    assert(-100_000_000 < first < 100_000_000);
    assert(-100_000_000 < end < 100_000_000);
}

/// For days, weeks, months and years, two instants count as one bucket
/// exactly when the second lies in the full date range of the first: within
/// the range they are the same bucket, across either of its ends they are not.
pub proof fn lemma_same_bucket_iff_in_range(period: LeaderboardPeriod, a: LbDateTime, b: LbDateTime)
    requires
        a.wf(),
        b.wf(),
        period == LeaderboardPeriod::Daily || period == LeaderboardPeriod::Weekly || period
            == LeaderboardPeriod::Monthly || period == LeaderboardPeriod::Yearly,
    ensures
        period.spec_same_bucket(a, b) <==> period.spec_full_date_range(a).spec_contains(
            b.millis as int,
        ),
{
    lemma_full_date_range_is_exact(period, a, b.millis as int);
    match period {
        LeaderboardPeriod::Monthly => lemma_month_buckets(a, b),
        LeaderboardPeriod::Yearly => lemma_year_buckets(a, b),
        _ => lemma_day_and_week_buckets(period, a, b),
    }
}

/// All instants count as the one all-time bucket.
pub proof fn lemma_all_time_is_one_bucket(a: LbDateTime, b: LbDateTime)
    ensures
        LeaderboardPeriod::AllTime.spec_same_bucket(a, b),
{
}

/// An instant in the seasonal date range of another lies in the same season
/// by date, and its own seasonal date range is the same.
pub proof fn lemma_season_range_is_one_season(a: LbDateTime, b: LbDateTime)
    requires
        a.wf(),
        b.wf(),
        LeaderboardPeriod::Seasonally.spec_full_date_range(a).spec_contains(b.millis as int),
    ensures
        Season::spec_get_season(b.month as int, b.day as int) == Season::spec_get_season(
            a.month as int,
            a.day as int,
        ),
        LeaderboardPeriod::Seasonally.spec_full_date_range(b)
            == LeaderboardPeriod::Seasonally.spec_full_date_range(a),
{
    let period = LeaderboardPeriod::Seasonally;
    lemma_full_date_range_is_exact(period, a, b.millis as int);
    lemma_midnights_bound_days(
        bucket_first_day(period, a),
        bucket_end_day(period, a),
        b.millis as int,
    );
    let season = Season::spec_get_season(a.month as int, a.day as int);
    let began = season_start_year(season, a.year as int, a.month as int, a.day as int);
    let ended = if season == Season::Winter {
        began + 1
    } else {
        began
    };
    lemma_dates_ordered(
        b.year as int,
        b.month as int,
        b.day as int,
        began,
        season.spec_start_month().spec_number(),
        season.spec_start_day(),
    );
    lemma_dates_ordered(
        b.year as int,
        b.month as int,
        b.day as int,
        ended,
        season.spec_next().spec_start_month().spec_number(),
        season.spec_next().spec_start_day(),
    );
}

/// Whether the season that the month of `t` is counted to is the season in
/// which the date of `t` lies.  It is not in the part of a month that
/// comes before the season's first day.
pub open spec fn month_tells_season(t: LbDateTime) -> bool {
    Season::spec_of_northern(Month::spec_from_number(t.month as int)) == Season::spec_get_season(
        t.month as int,
        t.day as int,
    )
}

/// For seasons, where the month of each of two instants tells its season:
/// an instant in the seasonal date range of the other counts as the same
/// bucket.
pub proof fn lemma_season_range_is_one_bucket(a: LbDateTime, b: LbDateTime)
    requires
        a.wf(),
        b.wf(),
        month_tells_season(a),
        month_tells_season(b),
        LeaderboardPeriod::Seasonally.spec_full_date_range(a).spec_contains(b.millis as int),
    ensures
        LeaderboardPeriod::Seasonally.spec_same_bucket(a, b),
{
    lemma_season_range_is_one_season(a, b);
}

} // verus!
