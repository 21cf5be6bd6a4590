use chrono::FixedOffset;
use chrono::TimeZone;
use mars_leaderboards::cache::CacheStore;
use mars_leaderboards::datetime::LbDateTime;
use mars_leaderboards::engine::LeaderboardFetchError;
use mars_leaderboards::engine::LeaderboardV2;
use mars_leaderboards::engine::UpdateOutcome;
use mars_leaderboards::entry::LeaderboardEntry;
use mars_leaderboards::line::LeaderboardLine;
use mars_leaderboards::log::LogStore;
use mars_leaderboards::period::LeaderboardPeriod;
use mars_leaderboards::period::LeaderboardPeriodDateTimeRange;
use mars_leaderboards::ranking::RankedMember;
use mars_leaderboards::registry::MarsLeaderboards;
use mars_leaderboards::score_type::ScoreType;
use mars_leaderboards::standings::Standings;

fn at(year: i32, month: u32, day: u32, hour: u32, minute: u32) -> LbDateTime {
    at_second(year, month, day, hour, minute, 0)
}

fn at_second(year: i32, month: u32, day: u32, hour: u32, minute: u32, second: u32) -> LbDateTime {
    let millis = FixedOffset::west_opt(4 * 3600)
        .unwrap()
        .with_ymd_and_hms(year, month, day, hour, minute, second)
        .unwrap()
        .timestamp_millis();
    LbDateTime::from_millis(millis).unwrap()
}

fn scores(lines: &[LeaderboardLine]) -> Vec<(String, String, u32)> {
    lines.iter().map(|l| (l.id.clone(), l.name.clone(), l.score)).collect()
}

fn line(id: &str, name: &str, score: u32) -> (String, String, u32) {
    (id.to_string(), name.to_string(), score)
}

fn pairs(ranking: &[RankedMember]) -> Vec<(String, u32)> {
    ranking.iter().map(|m| (m.member.clone(), m.score)).collect()
}

fn values_of(log: &LogStore, player: &str) -> Vec<(i64, u32)> {
    log.entries
        .iter()
        .filter(|e| e.player_id == player)
        .map(|e| (e.timestamp, e.value))
        .collect()
}

#[test]
fn view_ids_name_score_type_and_period() {
    let engine = LeaderboardV2::new(ScoreType::Kills);
    assert_eq!(engine.get_view_id(&LeaderboardPeriod::Daily), "lb_view:KILLS:DAILY");
    assert_eq!(engine.get_view_id(&LeaderboardPeriod::AllTime), "lb_view:KILLS:ALL_TIME");
    let engine = LeaderboardV2::new(ScoreType::ControlPointCaptures);
    assert_eq!(
        engine.get_view_id(&LeaderboardPeriod::Seasonally),
        "lb_view:CONTROL_POINT_CAPTURES:SEASONALLY"
    );
}

#[test]
fn sums_across_a_day_boundary() {
    let mut engine = LeaderboardV2::new(ScoreType::GamePlaytime);
    let mut log = LogStore::new();
    let mut cache = CacheStore::new();
    let u1 = String::from("u1/One");
    let t1 = at(2025, 1, 5, 23, 0);
    let t2 = at(2025, 1, 5, 23, 59);
    let rollover = at_second(2025, 1, 6, 0, 0, 30);
    let t3 = at(2025, 1, 6, 0, 1);
    // every view is rebuilt once on the first day
    for period in LeaderboardPeriod::all() {
        assert!(engine.fetch_top(&log, &mut cache, &period, 10, &t1).unwrap().is_empty());
    }
    assert_eq!(engine.process_update(&mut log, &mut cache, u1.clone(), 3, &t1), UpdateOutcome::Applied);
    assert_eq!(engine.process_update(&mut log, &mut cache, u1.clone(), 4, &t2), UpdateOutcome::Applied);
    assert_eq!(values_of(&log, "u1/One"), vec![(t2.timestamp_millis(), 7)]);
    assert_eq!(engine.query_standing_cached(&cache, &u1, &LeaderboardPeriod::Daily), Some(7));
    // the first read of the new day finds the daily view out of date and rebuilds it
    let top = engine.fetch_top(&log, &mut cache, &LeaderboardPeriod::Daily, 10, &rollover).unwrap();
    assert!(top.is_empty());
    assert_eq!(engine.process_update(&mut log, &mut cache, u1.clone(), 5, &t3), UpdateOutcome::Applied);
    assert_eq!(
        values_of(&log, "u1/One"),
        vec![(t2.timestamp_millis(), 7), (t3.timestamp_millis(), 5)]
    );
    let now = at(2025, 1, 6, 0, 2);
    let daily = engine.fetch_top(&log, &mut cache, &LeaderboardPeriod::Daily, 10, &now).unwrap();
    assert_eq!(scores(&daily), vec![line("u1", "One", 5)]);
    for period in [
        LeaderboardPeriod::Weekly,
        LeaderboardPeriod::Monthly,
        LeaderboardPeriod::Yearly,
        LeaderboardPeriod::AllTime,
    ] {
        let top = engine.fetch_top(&log, &mut cache, &period, 10, &now).unwrap();
        assert_eq!(scores(&top), vec![line("u1", "One", 12)]);
    }
    // rebuilt from the log alone, the views say the same
    let mut fresh = LeaderboardV2::new(ScoreType::GamePlaytime);
    let mut empty = CacheStore::new();
    let daily = fresh.fetch_top(&log, &mut empty, &LeaderboardPeriod::Daily, 10, &now).unwrap();
    assert_eq!(scores(&daily), vec![line("u1", "One", 5)]);
    for period in [
        LeaderboardPeriod::Weekly,
        LeaderboardPeriod::Monthly,
        LeaderboardPeriod::Seasonally,
        LeaderboardPeriod::Yearly,
        LeaderboardPeriod::AllTime,
    ] {
        let top = fresh.fetch_top(&log, &mut empty, &period, 10, &now).unwrap();
        assert_eq!(scores(&top), vec![line("u1", "One", 12)]);
    }
}

#[test]
fn an_update_reads_the_daily_standing_from_the_cache_as_it_is() {
    // without a read in between, the standing of the day before is carried over
    let mut engine = LeaderboardV2::new(ScoreType::GamePlaytime);
    let mut log = LogStore::new();
    let mut cache = CacheStore::new();
    let u1 = String::from("u1/One");
    engine.process_update(&mut log, &mut cache, u1.clone(), 3, &at(2025, 1, 5, 23, 0));
    engine.process_update(&mut log, &mut cache, u1.clone(), 5, &at(2025, 1, 6, 0, 1));
    assert_eq!(engine.query_standing_cached(&cache, &u1, &LeaderboardPeriod::Daily), Some(8));
    assert_eq!(log.len(), 2);
    assert_eq!(log.entries[1].value, 8);
}

#[test]
fn maximum_keeps_the_highest_of_the_day() {
    let mut engine = LeaderboardV2::new(ScoreType::HighestKillstreak);
    let mut log = LogStore::new();
    let mut cache = CacheStore::new();
    let u2 = String::from("u2/Two");
    let t1 = at(2025, 5, 10, 10, 0);
    let t2 = at(2025, 5, 10, 11, 0);
    let t3 = at(2025, 5, 10, 12, 0);
    assert_eq!(engine.process_update(&mut log, &mut cache, u2.clone(), 7, &t1), UpdateOutcome::Applied);
    assert_eq!(engine.process_update(&mut log, &mut cache, u2.clone(), 5, &t2), UpdateOutcome::Ignored);
    assert_eq!(engine.process_update(&mut log, &mut cache, u2.clone(), 9, &t3), UpdateOutcome::Applied);
    assert_eq!(engine.query_standing_cached(&cache, &u2, &LeaderboardPeriod::Daily), Some(9));
    assert_eq!(log.len(), 1);
    assert_eq!(log.entries[0].value, 9);
    assert_eq!(log.entries[0].player_id, "u2/Two");
    assert_eq!(log.entries[0].timestamp, t3.timestamp_millis());
    assert_eq!(log.entries[0].score_type, ScoreType::HighestKillstreak);
    for period in LeaderboardPeriod::all() {
        assert_eq!(engine.query_standing_cached(&cache, &u2, &period), Some(9));
    }
}

#[test]
fn maximum_of_another_period_merges_the_delta_not_the_daily_value() {
    let mut engine = LeaderboardV2::new(ScoreType::HighestKillstreak);
    let mut log = LogStore::new();
    let mut cache = CacheStore::new();
    let p = String::from("p/P");
    engine.set_for_period(&mut cache, &p, 20, &LeaderboardPeriod::Weekly);
    engine.set_for_period(&mut cache, &p, 4, &LeaderboardPeriod::Daily);
    let outcome = engine.process_update(&mut log, &mut cache, p.clone(), 6, &at(2025, 5, 10, 10, 0));
    assert_eq!(outcome, UpdateOutcome::Applied);
    assert_eq!(engine.query_standing_cached(&cache, &p, &LeaderboardPeriod::Daily), Some(6));
    assert_eq!(engine.query_standing_cached(&cache, &p, &LeaderboardPeriod::Weekly), Some(20));
    assert_eq!(engine.query_standing_cached(&cache, &p, &LeaderboardPeriod::Monthly), Some(6));
}

#[test]
fn top_three_come_highest_first() {
    let mut engine = LeaderboardV2::new(ScoreType::Kills);
    let mut log = LogStore::new();
    let mut cache = CacheStore::new();
    let now = at(2025, 5, 10, 10, 0);
    engine.process_update(&mut log, &mut cache, String::from("u1/a"), 10, &now);
    engine.process_update(&mut log, &mut cache, String::from("u2/b"), 30, &now);
    engine.process_update(&mut log, &mut cache, String::from("u3/c"), 20, &now);
    let later = at(2025, 5, 10, 10, 5);
    let top = engine.fetch_top(&log, &mut cache, &LeaderboardPeriod::Daily, 3, &later).unwrap();
    assert_eq!(scores(&top), vec![line("u2", "b", 30), line("u3", "c", 20), line("u1", "a", 10)]);
    let top = engine.fetch_top(&log, &mut cache, &LeaderboardPeriod::Daily, 2, &later).unwrap();
    assert_eq!(scores(&top), vec![line("u2", "b", 30), line("u3", "c", 20)]);
    let top = engine.fetch_top(&log, &mut cache, &LeaderboardPeriod::Daily, 1, &later).unwrap();
    assert_eq!(scores(&top), vec![line("u2", "b", 30)]);
    let top = engine.fetch_top(&log, &mut cache, &LeaderboardPeriod::Daily, 50, &later).unwrap();
    assert_eq!(top.len(), 3);
}

#[test]
fn members_without_a_slash_are_left_out_of_the_lines() {
    let mut engine = LeaderboardV2::new(ScoreType::Kills);
    let mut log = LogStore::new();
    let mut cache = CacheStore::new();
    let now = at(2025, 5, 10, 10, 0);
    engine.process_update(&mut log, &mut cache, String::from("nameless"), 10, &now);
    engine.process_update(&mut log, &mut cache, String::from("u2/b"), 3, &now);
    let top = engine.fetch_top(&log, &mut cache, &LeaderboardPeriod::Daily, 10, &now).unwrap();
    assert_eq!(scores(&top), vec![line("u2", "b", 3)]);
}

#[test]
fn a_zero_delta_changes_nothing() {
    let mut engine = LeaderboardV2::new(ScoreType::Kills);
    let mut log = LogStore::new();
    let mut cache = CacheStore::new();
    let now = at(2025, 5, 10, 10, 0);
    let p = String::from("p/P");
    assert_eq!(engine.process_update(&mut log, &mut cache, p.clone(), 0, &now), UpdateOutcome::Ignored);
    assert_eq!(log.len(), 0);
    assert!(cache.sets.is_empty());
    for period in LeaderboardPeriod::all() {
        assert!(engine.lb_metadata.get(&period).is_none());
        assert_eq!(engine.query_standing_cached(&cache, &p, &period), None);
    }
    engine.process_update(&mut log, &mut cache, p.clone(), 4, &now);
    let later = at(2025, 5, 10, 11, 0);
    assert_eq!(engine.process_update(&mut log, &mut cache, p.clone(), 0, &later), UpdateOutcome::Ignored);
    assert_eq!(values_of(&log, "p/P"), vec![(now.timestamp_millis(), 4)]);
    assert_eq!(engine.query_standing_cached(&cache, &p, &LeaderboardPeriod::Daily), Some(4));
    let mut killstreak = LeaderboardV2::new(ScoreType::HighestKillstreak);
    assert_eq!(killstreak.process_update(&mut log, &mut cache, p.clone(), 0, &later), UpdateOutcome::Ignored);
    assert_eq!(log.len(), 1);
}

#[test]
fn first_update_reads_back_as_the_delta() {
    let mut engine = LeaderboardV2::new(ScoreType::Xp);
    let mut log = LogStore::new();
    let mut cache = CacheStore::new();
    let p = String::from("p/P");
    let now = at(2025, 5, 10, 10, 0);
    assert_eq!(engine.query_standing_cached(&cache, &p, &LeaderboardPeriod::Daily), None);
    engine.process_update(&mut log, &mut cache, p.clone(), 42, &now);
    assert_eq!(engine.query_standing_cached(&cache, &p, &LeaderboardPeriod::Daily), Some(42));
    for period in LeaderboardPeriod::all() {
        assert_eq!(engine.query_standing_cached(&cache, &p, &period), Some(42));
        assert!(engine.lb_metadata.get(&period).is_some());
        assert!(engine.lb_metadata.get(&period).unwrap().last_updated.is_none());
    }
}

#[test]
fn sums_hold_at_the_largest_value() {
    let mut engine = LeaderboardV2::new(ScoreType::Xp);
    let mut log = LogStore::new();
    let mut cache = CacheStore::new();
    let p = String::from("p/P");
    engine.process_update(&mut log, &mut cache, p.clone(), u32::MAX - 1, &at(2025, 5, 10, 10, 0));
    engine.process_update(&mut log, &mut cache, p.clone(), 5, &at(2025, 5, 10, 10, 1));
    assert_eq!(engine.query_standing_cached(&cache, &p, &LeaderboardPeriod::Daily), Some(u32::MAX));
    assert_eq!(log.len(), 1);
    assert_eq!(log.entries[0].value, u32::MAX);
}

#[test]
fn one_record_per_player_and_day_with_the_sum_of_the_deltas() {
    let mut engine = LeaderboardV2::new(ScoreType::Kills);
    let mut log = LogStore::new();
    let mut cache = CacheStore::new();
    let p = String::from("p/P");
    let q = String::from("q/Q");
    let deltas = [1u32, 0, 7, 2, 0, 30];
    let mut total = 0u32;
    for (i, delta) in deltas.iter().enumerate() {
        let now = at(2025, 5, 10, 10, i as u32);
        engine.process_update(&mut log, &mut cache, p.clone(), *delta, &now);
        engine.process_update(&mut log, &mut cache, q.clone(), 1, &now);
        total += delta;
        let mine = values_of(&log, "p/P");
        assert_eq!(mine.len(), 1);
        assert_eq!(mine[0].1, total);
        assert_eq!(values_of(&log, "q/Q").len(), 1);
    }
    assert_eq!(values_of(&log, "p/P")[0].1, 40);
    assert_eq!(values_of(&log, "q/Q")[0].1, 6);
}

#[test]
fn two_updates_at_the_same_instant_leave_two_records() {
    // the record of the day is replaced up to, but not including, the instant of the update
    let mut engine = LeaderboardV2::new(ScoreType::Kills);
    let mut log = LogStore::new();
    let mut cache = CacheStore::new();
    let p = String::from("p/P");
    let now = at(2025, 5, 10, 10, 0);
    engine.process_update(&mut log, &mut cache, p.clone(), 1, &now);
    engine.process_update(&mut log, &mut cache, p.clone(), 1, &now);
    assert_eq!(values_of(&log, "p/P"), vec![(now.timestamp_millis(), 1), (now.timestamp_millis(), 2)]);
}

#[test]
fn rebuilding_twice_gives_the_same_cache() {
    let mut engine = LeaderboardV2::new(ScoreType::Kills);
    let mut log = LogStore::new();
    let mut cache = CacheStore::new();
    for (i, (player, value)) in
        [("a/A", 5u32), ("b/B", 9), ("c/C", 5), ("a/A", 2), ("d/D", 1)].iter().enumerate()
    {
        let now = at(2025, 5, 10 + (i as u32 % 2), 10, i as u32);
        engine.process_update(&mut log, &mut cache, player.to_string(), *value, &now);
    }
    let now = at(2025, 5, 11, 12, 0);
    for period in LeaderboardPeriod::all() {
        let key = engine.get_view_id(&period);
        assert!(cache.del_key(&key));
        engine.fetch_top(&log, &mut cache, &period, 10, &now).unwrap();
        let once = pairs(&cache.zrevrange_with_scores(&key, 0, 100));
        assert!(cache.del_key(&key));
        engine.fetch_top(&log, &mut cache, &period, 10, &now).unwrap();
        let twice = pairs(&cache.zrevrange_with_scores(&key, 0, 100));
        assert_eq!(once, twice);
        assert!(!once.is_empty());
    }
}

#[test]
fn a_view_is_rebuilt_when_its_bucket_has_passed() {
    let mut engine = LeaderboardV2::new(ScoreType::Kills);
    let mut log = LogStore::new();
    let mut cache = CacheStore::new();
    let p = String::from("p/P");
    let before = at(2025, 3, 31, 23, 59);
    engine.process_update(&mut log, &mut cache, p.clone(), 3, &before);
    let top = engine.fetch_top(&log, &mut cache, &LeaderboardPeriod::Monthly, 10, &before).unwrap();
    assert_eq!(scores(&top), vec![line("p", "P", 3)]);
    assert_eq!(engine.lb_metadata.get(&LeaderboardPeriod::Monthly).unwrap().last_updated, Some(before));
    assert!(!engine.is_view_stale(&LeaderboardPeriod::Monthly, &before));
    let after = at(2025, 4, 1, 0, 1);
    assert!(engine.is_view_stale(&LeaderboardPeriod::Monthly, &after));
    assert!(engine.needs_reconstruction(&LeaderboardPeriod::Monthly, &after, true));
    let top = engine.fetch_top(&log, &mut cache, &LeaderboardPeriod::Monthly, 10, &after).unwrap();
    assert!(top.is_empty());
    assert_eq!(engine.lb_metadata.get(&LeaderboardPeriod::Monthly).unwrap().last_updated, Some(after));
    assert!(!cache.has_key("lb_view:KILLS:MONTHLY"));
    // the yearly view was never rebuilt, so it is rebuilt too, and still holds the record
    let top = engine.fetch_top(&log, &mut cache, &LeaderboardPeriod::Yearly, 10, &after).unwrap();
    assert_eq!(scores(&top), vec![line("p", "P", 3)]);
}

#[test]
fn seasons_are_told_apart_by_month_when_a_view_is_checked() {
    let mut engine = LeaderboardV2::new(ScoreType::Kills);
    let mut log = LogStore::new();
    let mut cache = CacheStore::new();
    let p = String::from("p/P");
    let winter = at(2025, 3, 19, 23, 59);
    let spring = at(2025, 3, 20, 0, 1);
    engine.process_update(&mut log, &mut cache, p.clone(), 3, &winter);
    let top = engine.fetch_top(&log, &mut cache, &LeaderboardPeriod::Seasonally, 10, &winter).unwrap();
    assert_eq!(scores(&top), vec![line("p", "P", 3)]);
    // both instants lie in March, which counts whole as spring
    assert!(!LeaderboardPeriod::Seasonally.are_datetimes_disjoint(&winter, &spring));
    assert!(!engine.is_view_stale(&LeaderboardPeriod::Seasonally, &spring));
    // once the view is rebuilt in spring, the record of winter is outside its range
    assert!(cache.del_key("lb_view:KILLS:SEASONALLY"));
    let top = engine.fetch_top(&log, &mut cache, &LeaderboardPeriod::Seasonally, 10, &spring).unwrap();
    assert!(top.is_empty());
    let may = at(2025, 5, 1, 0, 0);
    assert!(engine.is_view_stale(&LeaderboardPeriod::Seasonally, &may));
}

#[test]
fn a_missing_key_is_rebuilt_on_the_next_read() {
    let mut engine = LeaderboardV2::new(ScoreType::Kills);
    let mut log = LogStore::new();
    let mut cache = CacheStore::new();
    let now = at(2025, 5, 10, 10, 0);
    engine.process_update(&mut log, &mut cache, String::from("p/P"), 3, &now);
    engine.fetch_top(&log, &mut cache, &LeaderboardPeriod::Daily, 10, &now).unwrap();
    assert!(!engine.needs_reconstruction(&LeaderboardPeriod::Daily, &now, true));
    assert!(cache.has_key("lb_view:KILLS:DAILY"));
    assert!(cache.del_key("lb_view:KILLS:DAILY"));
    assert!(!cache.has_key("lb_view:KILLS:DAILY"));
    assert!(engine.needs_reconstruction(&LeaderboardPeriod::Daily, &now, false));
    let later = at(2025, 5, 10, 10, 1);
    let top = engine.fetch_top(&log, &mut cache, &LeaderboardPeriod::Daily, 10, &later).unwrap();
    assert_eq!(scores(&top), vec![line("p", "P", 3)]);
    assert!(cache.has_key("lb_view:KILLS:DAILY"));
    assert_eq!(engine.lb_metadata.get(&LeaderboardPeriod::Daily).unwrap().last_updated, Some(later));
}

#[test]
fn reads_are_turned_away_and_updates_wait_while_a_view_is_rebuilt() {
    let mut engine = LeaderboardV2::new(ScoreType::Kills);
    let mut log = LogStore::new();
    let mut cache = CacheStore::new();
    let p = String::from("p/P");
    let now = at(2025, 5, 10, 10, 0);
    engine.process_update(&mut log, &mut cache, p.clone(), 3, &now);
    assert!(!engine.is_reconstructing());
    let query = engine.begin_reconstruction(&LeaderboardPeriod::Weekly, &now).unwrap();
    assert!(engine.is_reconstructing());
    assert_eq!(engine.rebuilding, Some(LeaderboardPeriod::Weekly));
    // a second rebuild cannot begin while the first goes on
    assert_eq!(
        engine.begin_reconstruction(&LeaderboardPeriod::Daily, &now).err(),
        Some(LeaderboardFetchError::UpdateInProgress)
    );
    assert!(!engine.finish_reconstruction(&LeaderboardPeriod::Daily, &now));
    assert!(engine.is_reconstructing());
    assert_eq!(query.player_id, None);
    assert_eq!(query.score_type, ScoreType::Kills);
    let week = LeaderboardPeriod::Weekly.get_full_date_range(&now);
    assert_eq!((query.start, query.end), (week.start, week.end));
    let result = engine.fetch_top(&log, &mut cache, &LeaderboardPeriod::Weekly, 10, &now);
    assert_eq!(result.err(), Some(LeaderboardFetchError::UpdateInProgress));
    let result = engine.fetch_top(&log, &mut cache, &LeaderboardPeriod::Daily, 10, &now);
    assert_eq!(result.err(), Some(LeaderboardFetchError::UpdateInProgress));
    assert_eq!(engine.process_update(&mut log, &mut cache, p.clone(), 2, &now), UpdateOutcome::Deferred);
    assert_eq!(log.len(), 1);
    assert_eq!(engine.query_standing_cached(&cache, &p, &LeaderboardPeriod::Daily), Some(3));
    // the rebuild itself, step by step
    let key = engine.get_view_id(&LeaderboardPeriod::Weekly);
    cache.del_key(&key);
    let entries = log.find(&query).unwrap();
    let mut standings = Standings::new();
    standings.absorb_batch(ScoreType::Kills.get_aggregation_type(), &entries);
    engine.store_standings(&mut cache, &LeaderboardPeriod::Weekly, &standings);
    assert!(engine.finish_reconstruction(&LeaderboardPeriod::Weekly, &now));
    assert!(!engine.is_reconstructing());
    assert!(!engine.finish_reconstruction(&LeaderboardPeriod::Weekly, &now));
    let later = at(2025, 5, 10, 10, 1);
    assert_eq!(engine.process_update(&mut log, &mut cache, p.clone(), 2, &later), UpdateOutcome::Applied);
    let top = engine.fetch_top(&log, &mut cache, &LeaderboardPeriod::Weekly, 10, &later).unwrap();
    assert_eq!(scores(&top), vec![line("p", "P", 5)]);
}

#[test]
fn an_unreadable_log_fails_the_rebuild_and_leaves_the_view_empty() {
    let mut engine = LeaderboardV2::new(ScoreType::Kills);
    let mut log = LogStore::new();
    let mut cache = CacheStore::new();
    let now = at(2025, 5, 10, 10, 0);
    engine.process_update(&mut log, &mut cache, String::from("p/P"), 3, &now);
    log.set_online(false);
    let result = engine.fetch_top(&log, &mut cache, &LeaderboardPeriod::Daily, 10, &now);
    assert_eq!(result.err(), Some(LeaderboardFetchError::DocumentStreamError));
    assert!(!cache.has_key("lb_view:KILLS:DAILY"));
    assert!(!engine.is_reconstructing());
    assert!(engine.lb_metadata.get(&LeaderboardPeriod::Daily).unwrap().last_updated.is_none());
    // the next read tries again
    let result = engine.fetch_top(&log, &mut cache, &LeaderboardPeriod::Daily, 10, &now);
    assert_eq!(result.err(), Some(LeaderboardFetchError::DocumentStreamError));
    log.set_online(true);
    let top = engine.fetch_top(&log, &mut cache, &LeaderboardPeriod::Daily, 10, &now).unwrap();
    assert_eq!(scores(&top), vec![line("p", "P", 3)]);
    // a view that needs no rebuild is read without the log
    log.set_online(false);
    let top = engine.fetch_top(&log, &mut cache, &LeaderboardPeriod::Daily, 10, &now).unwrap();
    assert_eq!(scores(&top), vec![line("p", "P", 3)]);
}

#[test]
fn giving_up_a_rebuild_reports_the_stream_error() {
    let mut engine = LeaderboardV2::new(ScoreType::Kills);
    let now = at(2025, 5, 10, 10, 0);
    assert!(engine.begin_reconstruction(&LeaderboardPeriod::Daily, &now).is_ok());
    assert!(engine.is_reconstructing());
    assert_eq!(
        engine.abort_reconstruction(&LeaderboardPeriod::Weekly),
        LeaderboardFetchError::DocumentStreamError
    );
    assert!(engine.is_reconstructing());
    assert_eq!(
        engine.abort_reconstruction(&LeaderboardPeriod::Daily),
        LeaderboardFetchError::DocumentStreamError
    );
    assert!(!engine.is_reconstructing());
    assert!(engine.lb_metadata.get(&LeaderboardPeriod::Daily).unwrap().last_updated.is_none());
    assert!(engine.is_view_stale(&LeaderboardPeriod::Daily, &now));
}

#[test]
fn rebuilding_merges_the_records_of_each_player() {
    let mut engine = LeaderboardV2::new(ScoreType::Kills);
    let mut log = LogStore::new();
    let mut cache = CacheStore::new();
    let days = [(2025, 5, 4, 3u32), (2025, 5, 5, 4), (2025, 5, 11, 5), (2025, 6, 1, 6), (2024, 6, 1, 7)];
    for (year, month, day, value) in days {
        log.insert_one(LeaderboardEntry {
            player_id: String::from("p/P"),
            timestamp: at(year, month, day, 12, 0).timestamp_millis(),
            score_type: ScoreType::Kills,
            value,
        });
    }
    log.insert_one(LeaderboardEntry {
        player_id: String::from("p/P"),
        timestamp: at(2025, 5, 5, 13, 0).timestamp_millis(),
        score_type: ScoreType::Deaths,
        value: 100,
    });
    let now = at(2025, 5, 5, 18, 0);
    let expected = [
        (LeaderboardPeriod::Daily, 4u32),
        (LeaderboardPeriod::Weekly, 7),
        (LeaderboardPeriod::Monthly, 12),
        (LeaderboardPeriod::Seasonally, 18),
        (LeaderboardPeriod::Yearly, 18),
        (LeaderboardPeriod::AllTime, 14),
    ];
    for (period, total) in expected {
        let top = engine.fetch_top(&log, &mut cache, &period, 10, &now).unwrap();
        assert_eq!(scores(&top), vec![line("p", "P", total)]);
    }
    let mut highest = LeaderboardV2::new(ScoreType::HighestKillstreak);
    for (day, value) in [(4u32, 3u32), (5, 9), (6, 4)] {
        log.insert_one(LeaderboardEntry {
            player_id: String::from("p/P"),
            timestamp: at(2025, 5, day, 12, 0).timestamp_millis(),
            score_type: ScoreType::HighestKillstreak,
            value,
        });
    }
    let top = highest.fetch_top(&log, &mut cache, &LeaderboardPeriod::Weekly, 10, &at(2025, 5, 6, 18, 0)).unwrap();
    assert_eq!(scores(&top), vec![line("p", "P", 9)]);
}

#[test]
fn queries_select_by_player_score_type_and_time() {
    let engine = LeaderboardV2::new(ScoreType::Kills);
    let range = LeaderboardPeriodDateTimeRange { start: Some(100), end: 200 };
    let query = engine.get_query(Some(String::from("p/P")), range);
    assert_eq!(query.player_id, Some(String::from("p/P")));
    assert_eq!(query.score_type, ScoreType::Kills);
    assert_eq!((query.start, query.end), (Some(100), 200));
    let entry = |player: &str, timestamp: i64, score_type: ScoreType| LeaderboardEntry {
        player_id: player.to_string(),
        timestamp,
        score_type,
        value: 1,
    };
    assert!(query.selects(&entry("p/P", 100, ScoreType::Kills)));
    assert!(query.selects(&entry("p/P", 199, ScoreType::Kills)));
    assert!(!query.selects(&entry("p/P", 200, ScoreType::Kills)));
    assert!(!query.selects(&entry("p/P", 99, ScoreType::Kills)));
    assert!(!query.selects(&entry("q/Q", 150, ScoreType::Kills)));
    assert!(!query.selects(&entry("p/P", 150, ScoreType::Deaths)));
    let open = engine.get_query(None, LeaderboardPeriodDateTimeRange { start: None, end: 200 });
    assert!(open.selects(&entry("q/Q", -5, ScoreType::Kills)));
    assert!(!open.selects(&entry("q/Q", 200, ScoreType::Kills)));
}

#[test]
fn set_writes_all_six_views() {
    let engine = LeaderboardV2::new(ScoreType::Wins);
    let mut cache = CacheStore::new();
    let p = String::from("p/P");
    engine.set(&mut cache, &p, 11);
    for period in LeaderboardPeriod::all() {
        assert_eq!(engine.query_standing_cached(&cache, &p, &period), Some(11));
    }
    assert_eq!(cache.sets.len(), 6);
    engine.set_for_period(&mut cache, &p, 12, &LeaderboardPeriod::Yearly);
    assert_eq!(engine.query_standing_cached(&cache, &p, &LeaderboardPeriod::Yearly), Some(12));
    assert_eq!(engine.query_standing_cached(&cache, &p, &LeaderboardPeriod::Monthly), Some(11));
}

#[test]
fn decisions_of_an_update() {
    let sum = LeaderboardV2::new(ScoreType::Kills);
    assert!(!sum.needs_update(0, Some(5)));
    assert!(sum.needs_update(1, Some(5)));
    assert!(sum.needs_update(1, None));
    let max = LeaderboardV2::new(ScoreType::HighestKillstreak);
    assert!(!max.needs_update(0, None));
    assert!(!max.needs_update(5, Some(5)));
    assert!(max.needs_update(6, Some(5)));
    assert!(max.needs_update(1, None));
    assert_eq!(sum.daily_value(0, Some(5)), None);
    assert_eq!(sum.daily_value(2, Some(5)), Some(7));
    assert_eq!(sum.daily_value(2, None), Some(2));
    assert_eq!(sum.daily_value(2, Some(u32::MAX)), Some(u32::MAX));
    assert_eq!(max.daily_value(5, Some(5)), None);
    assert_eq!(max.daily_value(6, Some(5)), Some(6));
    let now = at(2025, 5, 10, 10, 0);
    let player = String::from("u/U");
    let query = sum.daily_query(&player, &now);
    assert_eq!(query.player_id, Some(String::from("u/U")));
    assert_eq!(query.start, Some(at(2025, 5, 10, 0, 0).timestamp_millis()));
    assert_eq!(query.end, now.timestamp_millis());
    let entry = sum.daily_entry(&player, 7, &now);
    assert_eq!(
        (entry.player_id.as_str(), entry.timestamp, entry.score_type, entry.value),
        ("u/U", now.timestamp_millis(), ScoreType::Kills, 7)
    );
    assert_eq!(sum.period_value(&LeaderboardPeriod::Daily, 9, Some(100), 4), 9);
    assert_eq!(sum.period_value(&LeaderboardPeriod::Weekly, 9, Some(100), 4), 104);
    assert_eq!(sum.period_value(&LeaderboardPeriod::Weekly, 9, None, 4), 4);
    assert_eq!(max.period_value(&LeaderboardPeriod::Weekly, 9, Some(100), 4), 100);
    assert_eq!(max.period_value(&LeaderboardPeriod::Weekly, 9, Some(3), 4), 4);
}

#[test]
fn flat_replies_become_lines() {
    let raw: Vec<String> =
        ["a/A", "30", "broken", "25", "b/B/x", "20", "c/C", "oops", "/", "+7"].iter().map(|s| s.to_string()).collect();
    let lines = LeaderboardV2::strings_as_leaderboard_entries(raw);
    assert_eq!(
        scores(&lines),
        vec![line("a", "A", 30), line("b", "B/x", 20), line("c", "C", 0), line("", "", 7)]
    );
    let odd: Vec<String> = ["a/A", "30", "b/B"].iter().map(|s| s.to_string()).collect();
    assert!(LeaderboardV2::strings_as_leaderboard_entries(odd).is_empty());
    assert!(LeaderboardV2::strings_as_leaderboard_entries(Vec::new()).is_empty());
    let one: Vec<String> = vec![String::from("a/A")];
    assert!(LeaderboardV2::strings_as_leaderboard_entries(one).is_empty());
}

#[test]
fn the_registry_routes_to_the_engine_of_the_score_type() {
    let mut all = MarsLeaderboards::new();
    let mut log = LogStore::new();
    let mut cache = CacheStore::new();
    let now = at(2025, 5, 10, 10, 0);
    for score_type in ScoreType::all() {
        assert_eq!(all.from_score_type(score_type).score_type, score_type);
        assert_eq!(score_type.to_leaderboard(&all).score_type, score_type);
    }
    assert_eq!(all.kills.score_type, ScoreType::Kills);
    assert_eq!(all.highest_killstreak.score_type, ScoreType::HighestKillstreak);
    let p = String::from("p/P");
    assert_eq!(
        all.process_update(&mut log, &mut cache, ScoreType::Wins, p.clone(), 1, &now),
        UpdateOutcome::Applied
    );
    assert_eq!(
        all.process_update(&mut log, &mut cache, ScoreType::Kills, p.clone(), 4, &now),
        UpdateOutcome::Applied
    );
    let top = all.fetch_top(&log, &mut cache, ScoreType::Kills, &LeaderboardPeriod::Daily, 10, &now).unwrap();
    assert_eq!(scores(&top), vec![line("p", "P", 4)]);
    // the all-time range ends just before the instant of the read
    let top = all.fetch_top(&log, &mut cache, ScoreType::Wins, &LeaderboardPeriod::AllTime, 10, &now).unwrap();
    assert!(top.is_empty());
    // an empty ranking leaves no key, so the next read rebuilds the view
    assert!(!cache.has_key("lb_view:WINS:ALL_TIME"));
    let later = at(2025, 5, 11, 0, 0);
    let top = all.fetch_top(&log, &mut cache, ScoreType::Wins, &LeaderboardPeriod::AllTime, 10, &later).unwrap();
    assert_eq!(scores(&top), vec![line("p", "P", 1)]);
    let top = all.fetch_top(&log, &mut cache, ScoreType::Losses, &LeaderboardPeriod::Daily, 10, &now).unwrap();
    assert!(top.is_empty());
    assert!(all.kills.lb_metadata.get(&LeaderboardPeriod::Daily).unwrap().last_updated.is_some());
    assert!(all.deaths.lb_metadata.get(&LeaderboardPeriod::Daily).is_none());
    let begun =
        all.from_score_type_mut(ScoreType::Deaths).begin_reconstruction(&LeaderboardPeriod::Daily, &now);
    assert!(begun.is_ok());
    assert!(all.deaths.is_reconstructing());
    assert!(!all.kills.is_reconstructing());
}
