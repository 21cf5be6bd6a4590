use chrono::Datelike;
use chrono::FixedOffset;
use chrono::NaiveDate;
use chrono::TimeZone;
use mars_leaderboards::cache::CacheStore;
use mars_leaderboards::datetime::LbDateTime;
use mars_leaderboards::engine::UpdateOutcome;
use mars_leaderboards::ip_identity::contains_text;
use mars_leaderboards::ip_identity::IpAccumulator;
use mars_leaderboards::ip_identity::IpIdentity;
use mars_leaderboards::leaderboard::Leaderboard;
use mars_leaderboards::leaderboard::WriteRule;
use mars_leaderboards::listener::LeaderboardListener;
use mars_leaderboards::listener::PlayerMatchResult;
use mars_leaderboards::log::LogStore;
use mars_leaderboards::migration::DatabaseMigration;
use mars_leaderboards::migration::DenormalizeIpIdentitiesMigration;
use mars_leaderboards::migration::Migration;
use mars_leaderboards::migration::MigrationExecutor;
use mars_leaderboards::migration::ResetStatsMigration;
use mars_leaderboards::period::LeaderboardPeriod;
use mars_leaderboards::player_update::PlayerUpdateListener;
use mars_leaderboards::player_update::PlayerUpdateReason;
use mars_leaderboards::ranking::RankedMember;
use mars_leaderboards::registry::MarsLeaderboards;
use mars_leaderboards::score_type::ScoreType;

fn at(year: i32, month: u32, day: u32, hour: u32, minute: u32) -> LbDateTime {
    let millis = FixedOffset::west_opt(4 * 3600)
        .unwrap()
        .with_ymd_and_hms(year, month, day, hour, minute, 0)
        .unwrap()
        .timestamp_millis();
    LbDateTime::from_millis(millis).unwrap()
}

fn member(name: &str, score: u32) -> RankedMember {
    RankedMember { member: name.to_string(), score }
}

#[test]
fn bucket_names_are_formatted_from_the_date() {
    assert_eq!(LeaderboardPeriod::Daily.format_today_id(2025, 1, 5, 1), "2025:d:0:5");
    assert_eq!(LeaderboardPeriod::Daily.format_today_id(2025, 12, 31, 1), "2025:d:11:31");
    assert_eq!(LeaderboardPeriod::Weekly.format_today_id(2025, 1, 5, 1), "2025:w:1");
    assert_eq!(LeaderboardPeriod::Weekly.format_today_id(2024, 12, 30, 53), "2024:w:53");
    assert_eq!(LeaderboardPeriod::Monthly.format_today_id(2025, 3, 5, 10), "2025:m:2");
    assert_eq!(LeaderboardPeriod::Seasonally.format_today_id(2025, 3, 5, 10), "2025:s:spring");
    assert_eq!(LeaderboardPeriod::Seasonally.format_today_id(2025, 8, 5, 32), "2025:s:summer");
    assert_eq!(LeaderboardPeriod::Seasonally.format_today_id(2025, 10, 5, 40), "2025:s:autumn");
    assert_eq!(LeaderboardPeriod::Seasonally.format_today_id(2025, 1, 5, 1), "2025:s:winter");
    assert_eq!(LeaderboardPeriod::Yearly.format_today_id(2025, 1, 5, 1), "2025:y");
    assert_eq!(LeaderboardPeriod::Yearly.format_today_id(-44, 1, 5, 1), "-44:y");
    assert_eq!(LeaderboardPeriod::AllTime.format_today_id(2025, 1, 5, 1), "all");
}

#[test]
fn bucket_names_take_the_iso_week_of_the_date() {
    // 2025-01-05 is the Sunday of ISO week 1; the Monday after begins week 2
    assert_eq!(LeaderboardPeriod::Weekly.today_id_at(&at(2025, 1, 5, 12, 0)), "2025:w:1");
    assert_eq!(LeaderboardPeriod::Weekly.today_id_at(&at(2025, 1, 6, 12, 0)), "2025:w:2");
    // 2024-12-30 lies in week 1 of the ISO year 2025, and is named by its own year
    assert_eq!(LeaderboardPeriod::Weekly.today_id_at(&at(2024, 12, 30, 12, 0)), "2024:w:1");
    assert_eq!(LeaderboardPeriod::Weekly.today_id_at(&at(2021, 1, 1, 12, 0)), "2021:w:53");
    for (year, month, day) in [(2020, 2, 29), (2023, 7, 14), (2026, 12, 31), (1999, 1, 3)] {
        let week = NaiveDate::from_ymd_opt(year, month, day).unwrap().iso_week().week();
        assert_eq!(
            LeaderboardPeriod::Weekly.today_id_at(&at(year, month, day, 9, 0)),
            format!("{}:w:{}", year, week)
        );
    }
    assert_eq!(LeaderboardPeriod::Daily.today_id_at(&at(2025, 1, 5, 23, 59)), "2025:d:0:5");
    assert_eq!(LeaderboardPeriod::AllTime.today_id_at(&at(2025, 1, 5, 23, 59)), "all");
    let today = LeaderboardPeriod::Yearly.get_today_id().unwrap();
    assert!(today.ends_with(":y"));
    assert_eq!(LeaderboardPeriod::AllTime.get_today_id().unwrap(), "all");
}

#[test]
fn rankings_are_kept_under_the_name_of_their_bucket() {
    let board = Leaderboard { score_type: ScoreType::Kills };
    let date = at(2025, 1, 5, 12, 0);
    assert_eq!(board.get_id(&LeaderboardPeriod::Daily, &date), "lb:KILLS:2025:d:0:5");
    assert_eq!(board.get_id(&LeaderboardPeriod::Weekly, &date), "lb:KILLS:2025:w:1");
    assert_eq!(board.get_id(&LeaderboardPeriod::Monthly, &date), "lb:KILLS:2025:m:0");
    assert_eq!(board.get_id(&LeaderboardPeriod::Seasonally, &date), "lb:KILLS:2025:s:winter");
    assert_eq!(board.get_id(&LeaderboardPeriod::Yearly, &date), "lb:KILLS:2025:y");
    assert_eq!(board.get_id(&LeaderboardPeriod::AllTime, &date), "lb:KILLS:all");
}

#[test]
fn standings_are_set_raised_and_kept_at_their_highest() {
    let board = Leaderboard { score_type: ScoreType::Kills };
    let mut cache = CacheStore::new();
    let date = at(2025, 1, 5, 12, 0);
    let p = String::from("p/P");
    let q = String::from("q/Q");
    board.set(&mut cache, &p, 5, &date);
    board.increment(&mut cache, &p, None, &date);
    board.increment(&mut cache, &p, Some(4), &date);
    board.increment(&mut cache, &q, Some(3), &date);
    for period in LeaderboardPeriod::all() {
        let key = board.get_id(&period, &date);
        assert_eq!(cache.zscore(&key, "p/P"), Some(10));
        assert_eq!(cache.zscore(&key, "q/Q"), Some(3));
        assert_eq!(board.get_position(&cache, &p, &period, &date), Some(0));
        assert_eq!(board.get_position(&cache, &q, &period, &date), Some(1));
        assert_eq!(board.get_position(&cache, &String::from("r/R"), &period, &date), None);
    }
    board.set_if_higher(&mut cache, &q, 2, &date);
    assert_eq!(cache.zscore("lb:KILLS:all", "q/Q"), Some(3));
    board.set_if_higher(&mut cache, &q, 30, &date);
    assert_eq!(cache.zscore("lb:KILLS:all", "q/Q"), Some(30));
    board.increment(&mut cache, &q, Some(u32::MAX), &date);
    assert_eq!(cache.zscore("lb:KILLS:all", "q/Q"), Some(u32::MAX));
    board.write_all(&mut cache, &q, WriteRule::Replace, 1, &date);
    assert_eq!(cache.zscore("lb:KILLS:2025:d:0:5", "q/Q"), Some(1));
    // the next day begins with an empty daily ranking; the week goes on
    let next = at(2025, 1, 6, 0, 1);
    assert!(board.fetch_top(&cache, &LeaderboardPeriod::Daily, 10, &next).is_empty());
    board.increment(&mut cache, &p, Some(2), &next);
    assert_eq!(cache.zscore("lb:KILLS:2025:d:0:6", "p/P"), Some(2));
    assert_eq!(cache.zscore("lb:KILLS:2025:w:2", "p/P"), Some(2));
    assert_eq!(cache.zscore("lb:KILLS:2025:m:0", "p/P"), Some(12));
    let top = board.fetch_top(&cache, &LeaderboardPeriod::Monthly, 1, &next);
    assert_eq!(top.len(), 1);
    assert_eq!((top[0].id.as_str(), top[0].name.as_str(), top[0].score), ("p", "P", 12));
}

#[test]
fn all_time_rankings_are_filled_from_the_players() {
    let board = Leaderboard { score_type: ScoreType::Xp };
    let mut cache = CacheStore::new();
    let date = at(2025, 1, 5, 12, 0);
    let players = vec![member("a/A", 10), member("b/B", 30), member("c/C", 20)];
    board.populate_all_time(&mut cache, &players, &date);
    let top = board.fetch_top(&cache, &LeaderboardPeriod::AllTime, 10, &date);
    let got: Vec<(&str, u32)> = top.iter().map(|l| (l.id.as_str(), l.score)).collect();
    assert_eq!(got, vec![("b", 30), ("c", 20), ("a", 10)]);
    assert!(!cache.has_key("lb:XP:2025:y"));
    board.zadd_entries(&mut cache, "other", &players);
    assert_eq!(cache.zrevrank("other", "c/C"), Some(1));
    let raw: Vec<String> = ["a/A", "3"].iter().map(|s| s.to_string()).collect();
    let lines = Leaderboard::strings_as_leaderboard_entries(raw);
    assert_eq!((lines[0].id.as_str(), lines[0].name.as_str(), lines[0].score), ("a", "A", 3));
}

#[test]
fn events_are_routed_to_the_engines() {
    let mut all = MarsLeaderboards::new();
    let mut log = LogStore::new();
    let mut cache = CacheStore::new();
    let listener = LeaderboardListener {};
    let p = String::from("p/P");
    let now = at(2025, 1, 5, 12, 0);
    let updates = listener.on_kill(true, true);
    let outcomes = all.apply_updates(&mut log, &mut cache, &p, &updates, &now);
    assert_eq!(outcomes, vec![UpdateOutcome::Applied, UpdateOutcome::Applied]);
    let later = at(2025, 1, 5, 12, 30);
    let updates = listener.on_match_end_v2(true, PlayerMatchResult::Win, 0, 600);
    let outcomes = all.apply_updates(&mut log, &mut cache, &p, &updates, &later);
    assert_eq!(
        outcomes,
        vec![UpdateOutcome::Applied, UpdateOutcome::Applied, UpdateOutcome::Ignored, UpdateOutcome::Applied]
    );
    assert_eq!(all.kills.query_standing_cached(&cache, &p, &LeaderboardPeriod::Daily), Some(1));
    assert_eq!(all.first_bloods.query_standing_cached(&cache, &p, &LeaderboardPeriod::Daily), Some(1));
    assert_eq!(all.wins.query_standing_cached(&cache, &p, &LeaderboardPeriod::Weekly), Some(1));
    assert_eq!(all.matches_played.query_standing_cached(&cache, &p, &LeaderboardPeriod::Weekly), Some(1));
    assert_eq!(all.messages_sent.query_standing_cached(&cache, &p, &LeaderboardPeriod::Weekly), None);
    assert_eq!(all.game_playtime.query_standing_cached(&cache, &p, &LeaderboardPeriod::AllTime), Some(600));
    assert_eq!(log.len(), 5);
    let begun =
        all.from_score_type_mut(ScoreType::Kills).begin_reconstruction(&LeaderboardPeriod::Daily, &later);
    assert!(begun.is_ok());
    let outcomes = all.apply_updates(&mut log, &mut cache, &p, &listener.on_kill(true, true), &later);
    assert_eq!(outcomes, vec![UpdateOutcome::Deferred, UpdateOutcome::Applied]);
    assert!(all.apply_updates(&mut log, &mut cache, &p, &Vec::new(), &later).is_empty());
}

#[test]
fn players_are_added_to_the_identity_of_their_address() {
    let ip = String::from("10.0.0.1");
    let created = IpIdentity::add_player_ip(None, &ip, &String::from("u1"));
    assert_eq!(created.ip, "10.0.0.1");
    assert_eq!(created.players, vec![String::from("u1")]);
    let again = IpIdentity::add_player_ip(Some(created), &ip, &String::from("u1"));
    assert_eq!(again.players, vec![String::from("u1")]);
    let more = IpIdentity::add_player_ip(Some(again), &String::from("ignored"), &String::from("u2"));
    assert_eq!(more.ip, "10.0.0.1");
    assert_eq!(more.players, vec![String::from("u1"), String::from("u2")]);
    assert!(contains_text(&more.players, &String::from("u2")));
    assert!(!contains_text(&more.players, &String::from("u3")));
    let merged = IpIdentity::merge(Some(more), String::from("x"), vec![String::from("u3"), String::from("u1")]);
    assert_eq!(merged.ip, "10.0.0.1");
    assert_eq!(
        merged.players,
        vec![String::from("u1"), String::from("u2"), String::from("u3"), String::from("u1")]
    );
    let fresh = IpIdentity::merge(None, String::from("10.0.0.2"), vec![String::from("u9")]);
    assert_eq!((fresh.ip.as_str(), fresh.players.len()), ("10.0.0.2", 1));
    assert_eq!(IpIdentity::get_collection_name(), "ip_identity");
}

#[test]
fn migrations_are_found_by_name() {
    let executor = MigrationExecutor::new();
    assert_eq!(executor.migrations.len(), 2);
    assert_eq!(
        executor.find_migration_by_name(&String::from("reset_stats")),
        Some(Migration::ResetStats(ResetStatsMigration {}))
    );
    assert_eq!(
        executor.find_migration_by_name(&String::from("denormalize_ip_identities")),
        Some(Migration::DenormalizeIpIdentities(DenormalizeIpIdentitiesMigration {}))
    );
    assert_eq!(executor.find_migration_by_name(&String::from("unknown")), None);
    assert_eq!(ResetStatsMigration {}.get_id(), "reset_stats");
    assert_eq!(DenormalizeIpIdentitiesMigration {}.get_id(), "denormalize_ip_identities");
    assert_eq!(executor.migrations[0].get_id(), "denormalize_ip_identities");
    assert_eq!(DenormalizeIpIdentitiesMigration::step_size(), 25_000);
    assert!(!DenormalizeIpIdentitiesMigration::should_flush(24_999));
    assert!(DenormalizeIpIdentitiesMigration::should_flush(25_000));
}

#[test]
fn update_reasons_have_tags() {
    assert_eq!(PlayerUpdateReason::Kill.as_str(), "KILL");
    assert_eq!(PlayerUpdateReason::KillstreakEnd.as_str(), "KILLSTREAK_END");
    assert_eq!(PlayerUpdateReason::ControlPointCapture.as_str(), "CONTROL_POINT_CAPTURE");
    let l = PlayerUpdateListener {};
    assert_eq!(l.on_kill(), PlayerUpdateReason::Kill);
    assert_eq!(l.on_death(), PlayerUpdateReason::Death);
    assert_eq!(l.on_chat(), PlayerUpdateReason::Chat);
    assert_eq!(l.on_killstreak(), PlayerUpdateReason::Killstreak);
    assert_eq!(l.on_killstreak_end(), PlayerUpdateReason::KillstreakEnd);
    assert_eq!(l.on_party_join(), PlayerUpdateReason::PartyJoin);
    assert_eq!(l.on_party_leave(), PlayerUpdateReason::PartyLeave);
    assert_eq!(l.on_match_end_v2(), PlayerUpdateReason::MatchEnd);
    assert_eq!(l.on_destroyable_damage(), PlayerUpdateReason::DestroyableDamage);
    assert_eq!(l.on_destroyable_destroy(), PlayerUpdateReason::DestroyableDestroy);
    assert_eq!(l.on_core_leak(), PlayerUpdateReason::CoreLeak);
    assert_eq!(l.on_control_point_capture(), PlayerUpdateReason::ControlPointCapture);
    assert_eq!(l.on_flag_place(), PlayerUpdateReason::FlagPlace);
    assert_eq!(l.on_flag_pickup(), PlayerUpdateReason::FlagPickup);
    assert_eq!(l.on_flag_drop(), PlayerUpdateReason::FlagDrop);
    assert_eq!(l.on_flag_defend(), PlayerUpdateReason::FlagDefend);
    assert_eq!(l.on_wool_place(), PlayerUpdateReason::WoolPlace);
    assert_eq!(l.on_wool_pickup(), PlayerUpdateReason::WoolPickup);
    assert_eq!(l.on_wool_drop(), PlayerUpdateReason::WoolDrop);
    assert_eq!(l.on_wool_defend(), PlayerUpdateReason::WoolDefend);
}

#[test]
fn addresses_are_gathered_player_by_player() {
    let mut gathered = IpAccumulator::new();
    gathered.record_player(&String::from("u1"), &vec![String::from("a"), String::from("b")]);
    gathered.record_player(&String::from("u2"), &vec![String::from("b")]);
    gathered.record_player(&String::from("u3"), &Vec::new());
    gathered.record_player(&String::from("u4"), &vec![String::from("c"), String::from("a"), String::from("a")]);
    assert_eq!(gathered.accumulated, 4);
    let got: Vec<(String, Vec<String>)> =
        gathered.identities.iter().map(|i| (i.ip.clone(), i.players.clone())).collect();
    assert_eq!(
        got,
        vec![
            (String::from("a"), vec![String::from("u1"), String::from("u4"), String::from("u4")]),
            (String::from("b"), vec![String::from("u1"), String::from("u2")]),
            (String::from("c"), vec![String::from("u4")]),
        ]
    );
    gathered.record(&String::from("d"), &String::from("u5"));
    assert_eq!(gathered.accumulated, 4);
    let handed = gathered.take();
    assert_eq!(handed.len(), 4);
    assert_eq!(handed[3].ip, "d");
    assert_eq!(gathered.accumulated, 0);
    assert!(gathered.identities.is_empty());
}
