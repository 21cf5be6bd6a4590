use chrono::Datelike;
use chrono::FixedOffset;
use chrono::NaiveDate;
use chrono::TimeZone;
use mars_leaderboards::datetime::get_lb_datetime;
use mars_leaderboards::datetime::LbDateTime;
use mars_leaderboards::gregorian::day_number;
use mars_leaderboards::gregorian::leap_year;
use mars_leaderboards::gregorian::month_length;
use mars_leaderboards::gregorian::valid_date;
use mars_leaderboards::period::LeaderboardPeriod;
use mars_leaderboards::period::LeaderboardPeriodDateTimeRange;
use mars_leaderboards::season::Month;
use mars_leaderboards::season::Season;

fn local_millis(year: i32, month: u32, day: u32, hour: u32, minute: u32, second: u32) -> i64 {
    FixedOffset::west_opt(4 * 3600)
        .unwrap()
        .with_ymd_and_hms(year, month, day, hour, minute, second)
        .unwrap()
        .timestamp_millis()
}

fn at(year: i32, month: u32, day: u32, hour: u32, minute: u32) -> LbDateTime {
    LbDateTime::from_millis(local_millis(year, month, day, hour, minute, 0)).unwrap()
}

#[test]
fn epoch_falls_on_the_evening_before_at_utc_minus_four() {
    let t = LbDateTime::from_millis(0).unwrap();
    assert_eq!((t.year(), t.month(), t.day()), (1969, 12, 31));
    assert_eq!(t.timestamp_millis(), 0);
    let t = LbDateTime::from_millis(4 * 3600 * 1000).unwrap();
    assert_eq!((t.year(), t.month(), t.day()), (1970, 1, 1));
    let t = LbDateTime::from_millis(4 * 3600 * 1000 - 1).unwrap();
    assert_eq!((t.year(), t.month(), t.day()), (1969, 12, 31));
}

#[test]
fn dates_agree_with_chrono_over_many_instants() {
    let offset = FixedOffset::west_opt(4 * 3600).unwrap();
    let mut millis: i64 = -62_000_000_000_000;
    while millis < 253_000_000_000_000 {
        let t = LbDateTime::from_millis(millis).unwrap();
        let c = offset.timestamp_millis_opt(millis).unwrap();
        assert_eq!((t.year(), t.month(), t.day()), (c.year(), c.month(), c.day()));
        assert_eq!(t.num_days_from_sunday(), c.weekday().num_days_from_sunday());
        assert_eq!(t.day_number(), c.num_days_from_ce());
        millis += 86_400_000 * 97 + 3_600_000 * 5 + 1234;
    }
}

#[test]
fn instants_outside_the_window_are_refused() {
    assert!(LbDateTime::from_millis(i64::MAX).is_none());
    assert!(LbDateTime::from_millis(i64::MIN).is_none());
    assert!(LbDateTime::from_millis(i64::MIN + 14_400_000).is_none());
    // the last day of year 262141 is the last one supported
    let last = local_millis(262141, 12, 31, 23, 59, 59);
    assert!(LbDateTime::from_millis(last).is_some());
    assert!(LbDateTime::from_millis(last + 1000).is_none());
    let first = local_millis(-262142, 1, 1, 0, 0, 0);
    assert!(LbDateTime::from_millis(first).is_some());
    assert!(LbDateTime::from_millis(first - 1).is_none());
}

#[test]
fn the_clock_gives_a_supported_instant() {
    let now = get_lb_datetime().unwrap();
    assert!(now.year() >= 2024);
    assert!(1 <= now.month() && now.month() <= 12);
}

#[test]
fn sunday_is_day_zero_of_the_week() {
    assert_eq!(at(2025, 1, 5, 12, 0).num_days_from_sunday(), 0);
    assert_eq!(at(2025, 1, 6, 12, 0).num_days_from_sunday(), 1);
    assert_eq!(at(2025, 1, 11, 23, 59).num_days_from_sunday(), 6);
}

#[test]
fn daily_range_is_the_local_day() {
    let r = LeaderboardPeriod::Daily.get_full_date_range(&at(2025, 1, 5, 23, 0));
    assert_eq!(
        r,
        LeaderboardPeriodDateTimeRange {
            start: Some(local_millis(2025, 1, 5, 0, 0, 0)),
            end: local_millis(2025, 1, 6, 0, 0, 0),
        }
    );
}

#[test]
fn weekly_range_starts_on_sunday() {
    let r = LeaderboardPeriod::Weekly.get_full_date_range(&at(2025, 1, 8, 13, 30));
    assert_eq!(r.start, Some(local_millis(2025, 1, 5, 0, 0, 0)));
    assert_eq!(r.end, local_millis(2025, 1, 12, 0, 0, 0));
    let r = LeaderboardPeriod::Weekly.get_full_date_range(&at(2025, 1, 5, 0, 0));
    assert_eq!(r.start, Some(local_millis(2025, 1, 5, 0, 0, 0)));
}

#[test]
fn monthly_range_runs_from_the_first_to_the_next_first() {
    let r = LeaderboardPeriod::Monthly.get_full_date_range(&at(2024, 2, 29, 13, 30));
    assert_eq!(r.start, Some(local_millis(2024, 2, 1, 0, 0, 0)));
    assert_eq!(r.end, local_millis(2024, 3, 1, 0, 0, 0));
    let r = LeaderboardPeriod::Monthly.get_full_date_range(&at(2024, 12, 31, 23, 59));
    assert_eq!(r.start, Some(local_millis(2024, 12, 1, 0, 0, 0)));
    assert_eq!(r.end, local_millis(2025, 1, 1, 0, 0, 0));
}

#[test]
fn seasonal_range_runs_between_season_starts() {
    let r = LeaderboardPeriod::Seasonally.get_full_date_range(&at(2025, 4, 15, 10, 0));
    assert_eq!(r.start, Some(local_millis(2025, 3, 20, 0, 0, 0)));
    assert_eq!(r.end, local_millis(2025, 6, 20, 0, 0, 0));
    let r = LeaderboardPeriod::Seasonally.get_full_date_range(&at(2025, 1, 15, 10, 0));
    assert_eq!(r.start, Some(local_millis(2024, 12, 21, 0, 0, 0)));
    assert_eq!(r.end, local_millis(2025, 3, 20, 0, 0, 0));
    let r = LeaderboardPeriod::Seasonally.get_full_date_range(&at(2025, 12, 25, 10, 0));
    assert_eq!(r.start, Some(local_millis(2025, 12, 21, 0, 0, 0)));
    assert_eq!(r.end, local_millis(2026, 3, 20, 0, 0, 0));
    let r = LeaderboardPeriod::Seasonally.get_full_date_range(&at(2025, 9, 22, 0, 0));
    assert_eq!(r.start, Some(local_millis(2025, 9, 22, 0, 0, 0)));
    assert_eq!(r.end, local_millis(2025, 12, 21, 0, 0, 0));
    let r = LeaderboardPeriod::Seasonally.get_full_date_range(&at(2025, 9, 21, 23, 59));
    assert_eq!(r.start, Some(local_millis(2025, 6, 20, 0, 0, 0)));
    assert_eq!(r.end, local_millis(2025, 9, 22, 0, 0, 0));
}

#[test]
fn yearly_range_is_the_calendar_year() {
    let r = LeaderboardPeriod::Yearly.get_full_date_range(&at(2025, 7, 4, 10, 0));
    assert_eq!(r.start, Some(local_millis(2025, 1, 1, 0, 0, 0)));
    assert_eq!(r.end, local_millis(2026, 1, 1, 0, 0, 0));
}

#[test]
fn all_time_range_has_no_start_and_ends_at_the_instant() {
    let t = at(2025, 7, 4, 10, 0);
    let r = LeaderboardPeriod::AllTime.get_full_date_range(&t);
    assert_eq!(r.start, None);
    assert_eq!(r.end, t.timestamp_millis());
}

#[test]
fn range_up_to_now_keeps_the_start_and_ends_at_now() {
    let now = at(2025, 1, 8, 13, 30);
    for period in LeaderboardPeriod::all() {
        let full = period.get_full_date_range(&now);
        let cut = period.date_range_up_to(&now);
        assert_eq!(cut.start, full.start);
        assert_eq!(cut.end, now.timestamp_millis());
    }
    let r = LeaderboardPeriod::Daily.get_date_range_with_now_as_upperbound().unwrap();
    assert!(r.start.unwrap() <= r.end);
    assert!(r.end - r.start.unwrap() < 86_400_000);
    let r = LeaderboardPeriod::AllTime.get_date_range_with_now_as_upperbound().unwrap();
    assert_eq!(r.start, None);
}

#[test]
fn range_contains_is_half_open() {
    let r = LeaderboardPeriodDateTimeRange { start: Some(10), end: 20 };
    assert!(!r.contains(9));
    assert!(r.contains(10));
    assert!(r.contains(19));
    assert!(!r.contains(20));
    let r = LeaderboardPeriodDateTimeRange { start: None, end: 20 };
    assert!(r.contains(i64::MIN));
    assert!(!r.contains(20));
}

#[test]
fn same_day_is_one_daily_bucket() {
    let p = LeaderboardPeriod::Daily;
    assert!(!p.are_datetimes_disjoint(&at(2025, 1, 5, 0, 0), &at(2025, 1, 5, 23, 59)));
    assert!(p.are_datetimes_disjoint(&at(2025, 1, 5, 23, 59), &at(2025, 1, 6, 0, 1)));
}

#[test]
fn weeks_roll_over_on_sunday() {
    let p = LeaderboardPeriod::Weekly;
    assert!(!p.are_datetimes_disjoint(&at(2025, 1, 5, 0, 0), &at(2025, 1, 11, 23, 59)));
    assert!(p.are_datetimes_disjoint(&at(2025, 1, 4, 23, 59), &at(2025, 1, 5, 0, 0)));
    assert!(p.are_datetimes_disjoint(&at(2025, 1, 11, 23, 59), &at(2025, 1, 12, 0, 0)));
}

#[test]
fn months_and_years_compare_by_calendar() {
    let m = LeaderboardPeriod::Monthly;
    assert!(!m.are_datetimes_disjoint(&at(2025, 1, 1, 0, 0), &at(2025, 1, 31, 23, 59)));
    assert!(m.are_datetimes_disjoint(&at(2025, 1, 31, 23, 59), &at(2025, 2, 1, 0, 0)));
    assert!(m.are_datetimes_disjoint(&at(2024, 1, 15, 0, 0), &at(2025, 1, 15, 0, 0)));
    let y = LeaderboardPeriod::Yearly;
    assert!(!y.are_datetimes_disjoint(&at(2025, 1, 1, 0, 0), &at(2025, 12, 31, 23, 59)));
    assert!(y.are_datetimes_disjoint(&at(2025, 12, 31, 23, 59), &at(2026, 1, 1, 0, 0)));
}

#[test]
fn seasons_compare_by_month() {
    let s = LeaderboardPeriod::Seasonally;
    assert!(!s.are_datetimes_disjoint(&at(2025, 3, 1, 0, 0), &at(2025, 4, 30, 0, 0)));
    assert!(s.are_datetimes_disjoint(&at(2025, 4, 30, 0, 0), &at(2025, 5, 1, 0, 0)));
    assert!(s.are_datetimes_disjoint(&at(2025, 2, 28, 0, 0), &at(2025, 3, 1, 0, 0)));
    assert!(!s.are_datetimes_disjoint(&at(2025, 11, 1, 0, 0), &at(2026, 2, 1, 0, 0)));
}

#[test]
fn all_time_is_one_bucket() {
    let p = LeaderboardPeriod::AllTime;
    assert!(!p.are_datetimes_disjoint(&at(1999, 1, 1, 0, 0), &at(2025, 12, 31, 23, 59)));
}

#[test]
fn an_instant_is_in_the_bucket_of_another_exactly_when_it_is_in_its_range() {
    let instants = [
        at(2024, 12, 31, 23, 59),
        at(2025, 1, 1, 0, 0),
        at(2025, 1, 4, 23, 59),
        at(2025, 1, 5, 0, 0),
        at(2025, 1, 5, 23, 0),
        at(2025, 1, 6, 0, 1),
        at(2025, 1, 31, 23, 59),
        at(2025, 2, 1, 0, 0),
        at(2025, 12, 31, 23, 59),
        at(2026, 1, 1, 0, 0),
    ];
    let periods = [
        LeaderboardPeriod::Daily,
        LeaderboardPeriod::Weekly,
        LeaderboardPeriod::Monthly,
        LeaderboardPeriod::Yearly,
    ];
    for period in periods {
        for a in instants {
            let range = period.get_full_date_range(&a);
            for b in instants {
                assert_eq!(
                    !period.are_datetimes_disjoint(&a, &b),
                    range.contains(b.timestamp_millis())
                );
            }
        }
    }
}

#[test]
fn season_boundary_separates_winter_from_spring() {
    let before = at(2025, 3, 19, 23, 59);
    let after = at(2025, 3, 20, 0, 1);
    assert_eq!(Season::get_season(&before), Season::Winter);
    assert_eq!(Season::get_season(&after), Season::Spring);
    let winter = LeaderboardPeriod::Seasonally.get_full_date_range(&before);
    let spring = LeaderboardPeriod::Seasonally.get_full_date_range(&after);
    assert_eq!(winter.end, local_millis(2025, 3, 20, 0, 0, 0));
    assert_eq!(spring.start, Some(local_millis(2025, 3, 20, 0, 0, 0)));
    assert!(winter.contains(before.timestamp_millis()));
    assert!(!winter.contains(after.timestamp_millis()));
    assert!(spring.contains(after.timestamp_millis()));
    assert!(!spring.contains(before.timestamp_millis()));
}

#[test]
fn seasons_by_month_and_by_date() {
    assert_eq!(Season::of_northern(Month::March), Season::Spring);
    assert_eq!(Season::of_northern(Month::April), Season::Spring);
    assert_eq!(Season::of_northern(Month::May), Season::Summer);
    assert_eq!(Season::of_northern(Month::August), Season::Summer);
    assert_eq!(Season::of_northern(Month::September), Season::Autumn);
    assert_eq!(Season::of_northern(Month::October), Season::Autumn);
    assert_eq!(Season::of_northern(Month::November), Season::Winter);
    assert_eq!(Season::of_northern(Month::February), Season::Winter);
    assert_eq!(Season::get_season(&at(2025, 1, 1, 0, 0)), Season::Winter);
    assert_eq!(Season::get_season(&at(2025, 6, 19, 23, 59)), Season::Spring);
    assert_eq!(Season::get_season(&at(2025, 6, 20, 0, 0)), Season::Summer);
    assert_eq!(Season::get_season(&at(2025, 9, 22, 0, 0)), Season::Autumn);
    assert_eq!(Season::get_season(&at(2025, 12, 20, 23, 59)), Season::Autumn);
    assert_eq!(Season::get_season(&at(2025, 12, 21, 0, 0)), Season::Winter);
}

#[test]
fn season_starts_names_and_order() {
    assert_eq!(Season::Spring.get_northern_season_start(), (Month::March, 20));
    assert_eq!(Season::Summer.get_northern_season_start(), (Month::June, 20));
    assert_eq!(Season::Autumn.get_northern_season_start(), (Month::September, 22));
    assert_eq!(Season::Winter.get_northern_season_start(), (Month::December, 21));
    assert_eq!(Season::Spring.next(), Season::Summer);
    assert_eq!(Season::Summer.next(), Season::Autumn);
    assert_eq!(Season::Autumn.next(), Season::Winter);
    assert_eq!(Season::Winter.next(), Season::Spring);
    assert_eq!(Season::Spring.name(), "spring");
    assert_eq!(Season::Summer.name(), "summer");
    assert_eq!(Season::Autumn.name(), "autumn");
    assert_eq!(Season::Winter.name(), "winter");
}

#[test]
fn months_by_number() {
    assert_eq!(Month::from_u32(0), None);
    assert_eq!(Month::from_u32(13), None);
    for n in 1..=12u32 {
        assert_eq!(Month::from_u32(n).unwrap().number_from_month(), n);
    }
    assert_eq!(Month::from_u32(1), Some(Month::January));
    assert_eq!(Month::from_u32(12), Some(Month::December));
}

#[test]
fn periods_have_tags_and_an_order() {
    assert_eq!(LeaderboardPeriod::get_most_granular_period(), LeaderboardPeriod::Daily);
    let tags = ["DAILY", "WEEKLY", "MONTHLY", "SEASONALLY", "YEARLY", "ALL_TIME"];
    let all = LeaderboardPeriod::all();
    assert_eq!(all.len(), 6);
    for (i, period) in all.iter().enumerate() {
        assert_eq!(period.to_string(), tags[i]);
        assert_eq!(period.as_str(), tags[i]);
        assert_eq!(period.index(), i);
        assert_eq!(LeaderboardPeriod::from_str(tags[i]), Some(*period));
    }
    assert_eq!(LeaderboardPeriod::from_str("daily"), None);
    assert_eq!(LeaderboardPeriod::from_str(""), None);
}

#[test]
fn the_calendar_model_agrees_with_chrono_on_every_day_of_many_years() {
    let years = (-420..=420).chain(1580..=2420).chain([-262143, -262142, 262141, 262142]);
    for year in years {
        assert_eq!(leap_year(year), NaiveDate::from_ymd_opt(year, 2, 29).is_some());
        for month in 1..=12u32 {
            for day in [1u32, 2, 15, 27, 28, 29, 30, 31] {
                let date = NaiveDate::from_ymd_opt(year, month, day);
                assert_eq!(valid_date(year, month, day), date.is_some());
                if let Some(date) = date {
                    assert_eq!(day_number(year, month, day), date.num_days_from_ce() as i64);
                }
            }
            let next = if month == 12 {
                NaiveDate::from_ymd_opt(year + 1, 1, 1)
            } else {
                NaiveDate::from_ymd_opt(year, month + 1, 1)
            };
            if let Some(next) = next {
                let first = NaiveDate::from_ymd_opt(year, month, 1).unwrap();
                assert_eq!(month_length(year, month) as i64, (next - first).num_days());
            }
        }
    }
    assert!(!valid_date(2025, 0, 1));
    assert!(!valid_date(2025, 13, 1));
    assert!(!valid_date(2025, 1, 0));
    assert!(!valid_date(2025, 2, 29));
    assert!(valid_date(2024, 2, 29));
    assert!(!valid_date(1900, 2, 29));
    assert!(valid_date(2000, 2, 29));
    assert_eq!(day_number(1, 1, 1), 1);
    assert_eq!(day_number(1970, 1, 1), 719_163);
    assert_eq!(day_number(0, 12, 31), 0);
    assert_eq!(day_number(2025, 1, 5) % 7, 0);
}

#[test]
fn ranges_and_names_at_an_instant_need_the_window_for_all_but_all_time() {
    let millis = local_millis(2025, 1, 8, 13, 30, 0);
    let now = LbDateTime::from_millis(millis).unwrap();
    for period in LeaderboardPeriod::all() {
        assert_eq!(period.date_range_at_millis(millis), Some(period.date_range_up_to(&now)));
        assert_eq!(period.today_id_at_millis(millis), Some(period.today_id_at(&now)));
        let outside = period.date_range_at_millis(i64::MAX);
        let unnamed = period.today_id_at_millis(i64::MIN);
        if period == LeaderboardPeriod::AllTime {
            assert_eq!(
                outside,
                Some(LeaderboardPeriodDateTimeRange { start: None, end: i64::MAX })
            );
            assert_eq!(unnamed, Some(String::from("all")));
        } else {
            assert_eq!(outside, None);
            assert_eq!(unnamed, None);
        }
    }
    assert_eq!(
        LeaderboardPeriod::Daily.date_range_at_millis(millis),
        Some(LeaderboardPeriodDateTimeRange {
            start: Some(local_millis(2025, 1, 8, 0, 0, 0)),
            end: millis,
        })
    );
    assert_eq!(
        LeaderboardPeriod::Monthly.today_id_at_millis(millis),
        Some(String::from("2025:m:0"))
    );
    for period in LeaderboardPeriod::all() {
        let range = period.get_date_range_with_now_as_upperbound().unwrap();
        assert_eq!(range.start.is_none(), period == LeaderboardPeriod::AllTime);
        assert!(period.get_today_id().is_some());
    }
}
