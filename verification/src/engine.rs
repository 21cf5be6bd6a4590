//! The leaderboard engine of one score type: six views over one log.

use crate::cache::cache_zadd;
use crate::cache::cache_zrevrange;
use crate::cache::cache_zscore;
use crate::cache::CacheStore;
use crate::cache::CacheView;
use crate::datetime::LbDateTime;
use crate::entry::selected;
use crate::entry::unselected;
use crate::entry::LeaderboardEntry;
use crate::entry::LeaderboardEntryView;
use crate::entry::LogQuery;
use crate::entry::LogQueryView;
use crate::line::lines_of;
use crate::line::lines_view;
use crate::line::ranking_from_reply;
use crate::line::ranking_of_reply;
use crate::line::strings_view;
use crate::line::LeaderboardLine;
use crate::log::LogStore;
use crate::metadata::or_default;
use crate::metadata::LeaderboardViewMetadata;
use crate::metadata::ViewMetadataMap;
use crate::period::LeaderboardPeriod;
use crate::period::LeaderboardPeriodDateTimeRange;
use crate::ranking::RankedMember;
use crate::score_type::ScoreType;
use crate::score_type::ScoreTypeAggregation;
use crate::standings::standings_of;
use crate::standings::Standings;
use vstd::prelude::*;
use vstd::string::*;

verus! {

/// Why the top of a leaderboard could not be fetched.
#[derive(Clone, Copy, Debug, PartialEq, Eq, Structural)]
pub enum LeaderboardFetchError {
    /// A view of the engine is being rebuilt; the caller may try again.
    UpdateInProgress,
    /// The log could not be read.
    DocumentStreamError,
}

/// What became of an update.
#[derive(Clone, Copy, Debug, PartialEq, Eq, Structural)]
pub enum UpdateOutcome {
    /// The update changes no standing and was dropped.
    Ignored,
    /// A view of the engine is being rebuilt; the update has to wait.
    Deferred,
    /// The update was written to the log and to the six views.
    Applied,
}

/// The key of the view of `score_type` over `period`.
pub open spec fn spec_view_id(score_type: ScoreType, period: LeaderboardPeriod) -> Seq<char> {
    "lb_view:"@ + score_type.spec_name() + ":"@ + period.spec_name()
}

/// The selection of the records of `score_type`, of `player_id` where one is
/// named, that were written within `range`.
pub open spec fn spec_query(
    score_type: ScoreType,
    player_id: Option<Seq<char>>,
    range: LeaderboardPeriodDateTimeRange,
) -> LogQueryView {
    LogQueryView { player_id, score_type, start: range.start, end: range.end }
}

/// The standing of `player` under `key`; 0 where there is none.
pub open spec fn standing_or_zero(cache: CacheView, key: Seq<char>, player: Seq<char>) -> u32 {
    match cache_zscore(cache, key, player) {
        Some(standing) => standing,
        None => 0,
    }
}

/// Whether a delta of `value` changes the daily standing `daily_standing`: a
/// delta of zero never does, any other delta changes a sum, and a maximum
/// only where the delta exceeds the standing.
pub open spec fn spec_needs_update(
    aggregation: ScoreTypeAggregation,
    value: u32,
    daily_standing: u32,
) -> bool {
    !aggregation.spec_is_delta_useless(value) && (aggregation == ScoreTypeAggregation::Sum || value
        > daily_standing)
}

/// The standing that an update gives a player in the view of `period`: for
/// the day the new daily value, for any other period the delta merged into
/// the standing of that period.
pub open spec fn spec_period_value(
    aggregation: ScoreTypeAggregation,
    period: LeaderboardPeriod,
    daily_new_value: u32,
    standing: u32,
    value: u32,
) -> u32 {
    if period == LeaderboardPeriod::Daily {
        daily_new_value
    } else {
        aggregation.spec_compare(standing, value)
    }
}

/// The cache after an update has been written to the views of the first
/// `count` periods.
pub open spec fn fan_out(
    cache: CacheView,
    score_type: ScoreType,
    player: Seq<char>,
    value: u32,
    daily_new_value: u32,
    count: int,
) -> CacheView
    decreases count,
{
    if count <= 0 {
        cache
    } else {
        let before = fan_out(cache, score_type, player, value, daily_new_value, count - 1);
        let period = LeaderboardPeriod::spec_all()[count - 1];
        let key = spec_view_id(score_type, period);
        cache_zadd(
            before,
            key,
            spec_period_value(
                score_type.spec_aggregation(),
                period,
                daily_new_value,
                standing_or_zero(before, key, player),
                value,
            ),
            player,
        )
    }
}

/// The log after an update that gives `player` the daily value
/// `daily_new_value` at `now`: the player's earlier records of the day are
/// gone, and one record with the new value stands at the end.
pub open spec fn log_after_update(
    log: Seq<LeaderboardEntryView>,
    score_type: ScoreType,
    player: Seq<char>,
    daily_new_value: u32,
    now: LbDateTime,
) -> Seq<LeaderboardEntryView> {
    unselected(
        log,
        spec_query(score_type, Some(player), LeaderboardPeriod::Daily.spec_date_range_up_to(now)),
    ).push(
        LeaderboardEntryView {
            player_id: player,
            timestamp: now.millis,
            score_type,
            value: daily_new_value,
        },
    )
}

/// The log and the cache after the update `value` of `player` at `now`.
pub open spec fn spec_process_update(
    score_type: ScoreType,
    log: Seq<LeaderboardEntryView>,
    cache: CacheView,
    player: Seq<char>,
    value: u32,
    now: LbDateTime,
) -> (Seq<LeaderboardEntryView>, CacheView) {
    let aggregation = score_type.spec_aggregation();
    let daily_standing = standing_or_zero(
        cache,
        spec_view_id(score_type, LeaderboardPeriod::Daily),
        player,
    );
    if spec_needs_update(aggregation, value, daily_standing) {
        let daily_new_value = aggregation.spec_compare(daily_standing, value);
        (
            log_after_update(log, score_type, player, daily_new_value, now),
            fan_out(cache, score_type, player, value, daily_new_value, 6),
        )
    } else {
        (log, cache)
    }
}

/// The cache after the standings `standings` have been written under `key`,
/// in order.
pub open spec fn cache_with_standings(
    cache: CacheView,
    key: Seq<char>,
    standings: Seq<(Seq<char>, u32)>,
) -> CacheView
    decreases standings.len(),
{
    if standings.len() == 0 {
        cache
    } else {
        cache_zadd(
            cache_with_standings(cache, key, standings.drop_last()),
            key,
            standings.last().1,
            standings.last().0,
        )
    }
}

/// The cache after the view of `score_type` over `period` has been rebuilt
/// at `now`: the old ranking is gone, and the standings that the records of
/// the bucket give stand in its place.
pub open spec fn spec_reconstruct(
    score_type: ScoreType,
    log: Seq<LeaderboardEntryView>,
    cache: CacheView,
    period: LeaderboardPeriod,
    now: LbDateTime,
) -> CacheView {
    let key = spec_view_id(score_type, period);
    cache_with_standings(
        cache.remove(key),
        key,
        standings_of(
            score_type.spec_aggregation(),
            selected(log, spec_query(score_type, None, period.spec_full_date_range(now))),
        ),
    )
}

/// The engine of one score type.
#[derive(Debug)]
pub struct LeaderboardV2 {
    /// What the engine counts.
    pub score_type: ScoreType,
    /// What it remembers of its views.
    pub lb_metadata: ViewMetadataMap,
    /// The view that is being rebuilt, if any.  While there is one, the
    /// engine turns readers away and makes updates wait.
    pub rebuilding: Option<LeaderboardPeriod>,
}

impl LeaderboardV2 {
    /// Every instant held is well-formed.
    pub open spec fn wf(&self) -> bool {
        self.lb_metadata.wf()
    }

    /// Whether the view of `period` is out of date at `now`: never rebuilt,
    /// or last rebuilt in another bucket.
    pub open spec fn spec_is_view_stale(&self, period: LeaderboardPeriod, now: LbDateTime) -> bool {
        match self.lb_metadata.spec_get(period) {
            Some(metadata) => match metadata.last_updated {
                Some(last_updated) => !period.spec_same_bucket(last_updated, now),
                None => true,
            },
            None => true,
        }
    }

    /// Whether the view of `period` has to be rebuilt at `now`: it is out of
    /// date, or the cache holds no ranking under its key.
    pub open spec fn spec_needs_reconstruction(
        &self,
        period: LeaderboardPeriod,
        now: LbDateTime,
        key_exists: bool,
    ) -> bool {
        self.spec_is_view_stale(period, now) || !key_exists
    }

    /// An engine for `score_type` that has touched no view yet.  A score
    /// type whose updates would have to be applied in order cannot have one.
    pub fn new(score_type: ScoreType) -> (r: LeaderboardV2)
        requires
            !score_type.spec_aggregation().spec_requires_sequential_consistency(),
        ensures
            r.score_type == score_type,
            r.wf(),
            r.rebuilding is None,
            forall|period: LeaderboardPeriod| r.lb_metadata.spec_get(period) is None,
    {
        LeaderboardV2 { score_type, lb_metadata: ViewMetadataMap::new(), rebuilding: None }
    }

    /// The key of the view over `period`.
    pub fn get_view_id(&self, period: &LeaderboardPeriod) -> (r: String)
        ensures
            r@ == spec_view_id(self.score_type, *period),
    {
        let mut id: String = String::from_str("lb_view:");
        id.append(self.score_type.as_str());
        id.append(":");
        id.append(period.as_str());
        id
    }

    /// The selection of the records of this score type, of `player_id` where
    /// one is named, that were written within `time_range`.
    pub fn get_query(
        &self,
        player_id: Option<String>,
        time_range: LeaderboardPeriodDateTimeRange,
    ) -> (r: LogQuery)
        ensures
            r@ == spec_query(
                self.score_type,
                match player_id {
                    Some(p) => Some(p@),
                    None => None,
                },
                time_range,
            ),
    {
        LogQuery {
            player_id,
            score_type: self.score_type,
            start: time_range.start,
            end: time_range.end,
        }
    }

    /// The standing of `player_id` in the view over `period`, read from the
    /// cache as it is: nothing is rebuilt.
    pub fn query_standing_cached(
        &self,
        cache: &CacheStore,
        player_id: &String,
        period: &LeaderboardPeriod,
    ) -> (r: Option<u32>)
        requires
            cache.wf(),
        ensures
            r == cache_zscore(cache@, spec_view_id(self.score_type, *period), player_id@),
    {
        let key: String = self.get_view_id(period);
        cache.zscore(key.as_str(), player_id.as_str())
    }

    /// Gives `id` the standing `score` in the view over `period`.
    pub fn set_for_period(
        &self,
        cache: &mut CacheStore,
        id: &String,
        score: u32,
        period: &LeaderboardPeriod,
    )
        requires
            old(cache).wf(),
        ensures
            final(cache).wf(),
            final(cache)@ == cache_zadd(
                old(cache)@,
                spec_view_id(self.score_type, *period),
                score,
                id@,
            ),
    {
        let key: String = self.get_view_id(period);
        cache.zadd(key.as_str(), score, id.as_str());
    }

    /// Whether a delta of `value` changes the daily standing
    /// `daily_standing`, where `None` counts as 0.
    pub fn needs_update(&self, value: u32, daily_standing: Option<u32>) -> (r: bool)
        ensures
            r == spec_needs_update(
                self.score_type.spec_aggregation(),
                value,
                match daily_standing {
                    Some(standing) => standing,
                    None => 0,
                },
            ),
    {
        let aggregation: ScoreTypeAggregation = self.score_type.get_aggregation_type();
        if aggregation.is_delta_useless(value) {
            return false;
        }
        let standing: u32 = match daily_standing {
            Some(standing) => standing,
            None => 0,
        };
        match aggregation {
            ScoreTypeAggregation::Sum => true,
            ScoreTypeAggregation::Max => value > standing,
        }
    }

    /// The daily value that an update of `value` gives a player whose daily
    /// standing is `daily_standing`, where `None` counts as 0: the delta
    /// merged into the standing.  `None` where the update changes nothing.
    pub fn daily_value(&self, value: u32, daily_standing: Option<u32>) -> (r: Option<u32>)
        ensures
            r is Some <==> spec_needs_update(
                self.score_type.spec_aggregation(),
                value,
                match daily_standing {
                    Some(standing) => standing,
                    None => 0,
                },
            ),
            r matches Some(daily_new_value) ==> daily_new_value
                == self.score_type.spec_aggregation().spec_compare(
                match daily_standing {
                    Some(standing) => standing,
                    None => 0,
                },
                value,
            ),
    {
        if !self.needs_update(value, daily_standing) {
            return None;
        }
        let standing: u32 = match daily_standing {
            Some(standing) => standing,
            None => 0,
        };
        Some(self.score_type.get_aggregation_type().compare(standing, value))
    }

    /// The selection of the records of `player_id` that an update at `now`
    /// replaces: those of the day of `now`, up to but not including `now`.
    pub fn daily_query(&self, player_id: &String, now: &LbDateTime) -> (r: LogQuery)
        requires
            now.wf(),
        ensures
            r@ == spec_query(
                self.score_type,
                Some(player_id@),
                LeaderboardPeriod::Daily.spec_date_range_up_to(*now),
            ),
    {
        let daily: LeaderboardPeriod = LeaderboardPeriod::get_most_granular_period();
        self.get_query(Some(player_id.clone()), daily.date_range_up_to(now))
    }

    /// The record that an update at `now` writes for `player_id`, whose new
    /// daily value is `daily_new_value`.
    pub fn daily_entry(&self, player_id: &String, daily_new_value: u32, now: &LbDateTime) -> (r:
        LeaderboardEntry)
        ensures
            r@ == (LeaderboardEntryView {
                player_id: player_id@,
                timestamp: now.millis,
                score_type: self.score_type,
                value: daily_new_value,
            }),
    {
        LeaderboardEntry {
            player_id: player_id.clone(),
            timestamp: now.timestamp_millis(),
            score_type: self.score_type,
            value: daily_new_value,
        }
    }

    /// The standing that an update of `value` gives in the view over
    /// `period`, where the standing there was `standing` (`None` counts as 0)
    /// and the new daily value is `daily_new_value`.
    pub fn period_value(
        &self,
        period: &LeaderboardPeriod,
        daily_new_value: u32,
        standing: Option<u32>,
        value: u32,
    ) -> (r: u32)
        ensures
            r == spec_period_value(
                self.score_type.spec_aggregation(),
                *period,
                daily_new_value,
                match standing {
                    Some(standing) => standing,
                    None => 0,
                },
                value,
            ),
    {
        match period {
            LeaderboardPeriod::Daily => daily_new_value,
            _ => {
                let standing: u32 = match standing {
                    Some(standing) => standing,
                    None => 0,
                };
                self.score_type.get_aggregation_type().compare(standing, value)
            },
        }
    }

    /// Whether the view over `period` is out of date at `now`.
    pub fn is_view_stale(&self, period: &LeaderboardPeriod, now: &LbDateTime) -> (r: bool)
        requires
            self.wf(),
            now.wf(),
        ensures
            r == self.spec_is_view_stale(*period, *now),
    {
        match self.lb_metadata.get(period) {
            Some(metadata) => {
                assert(self.lb_metadata.spec_get(*period) == Some(metadata));
                match metadata.last_updated {
                    Some(last_updated) => period.are_datetimes_disjoint(&last_updated, now),
                    None => true,
                }
            },
            None => true,
        }
    }

    /// Whether the view over `period` has to be rebuilt at `now`, given
    /// whether the cache holds a ranking under its key.
    pub fn needs_reconstruction(
        &self,
        period: &LeaderboardPeriod,
        now: &LbDateTime,
        key_exists: bool,
    ) -> (r: bool)
        requires
            self.wf(),
            now.wf(),
        ensures
            r == self.spec_needs_reconstruction(*period, *now, key_exists),
    {
        self.is_view_stale(period, now) || !key_exists
    }

    /// The lines that a flat reply of members and scores gives.
    pub fn strings_as_leaderboard_entries(raw: Vec<String>) -> (r: Vec<LeaderboardLine>)
        ensures
            lines_view(r@) == lines_of(ranking_of_reply(strings_view(raw@))),
    {
        let ranking: Vec<RankedMember> = ranking_from_reply(&raw);
        LeaderboardLine::from_ranking(&ranking)
    }
}

/// The cache after `id` has been given the standing `score` in the views of
/// the first `count` periods.
pub open spec fn cache_set_all(
    cache: CacheView,
    score_type: ScoreType,
    id: Seq<char>,
    score: u32,
    count: int,
) -> CacheView
    decreases count,
{
    if count <= 0 {
        cache
    } else {
        cache_zadd(
            cache_set_all(cache, score_type, id, score, count - 1),
            spec_view_id(score_type, LeaderboardPeriod::spec_all()[count - 1]),
            score,
            id,
        )
    }
}

/// What becomes of the update `value` of `player`: it is dropped where it
/// changes no standing, has to wait while a view is being rebuilt, and is
/// applied otherwise.
pub open spec fn spec_update_outcome(
    score_type: ScoreType,
    cache: CacheView,
    rebuilding: bool,
    player: Seq<char>,
    value: u32,
) -> UpdateOutcome {
    if !spec_needs_update(
        score_type.spec_aggregation(),
        value,
        standing_or_zero(cache, spec_view_id(score_type, LeaderboardPeriod::Daily), player),
    ) {
        UpdateOutcome::Ignored
    } else if rebuilding {
        UpdateOutcome::Deferred
    } else {
        UpdateOutcome::Applied
    }
}

/// The metadata of a view that was rebuilt at `now`.
pub open spec fn rebuilt_at(now: LbDateTime) -> LeaderboardViewMetadata {
    LeaderboardViewMetadata { last_updated: Some(now) }
}

/// What an update does to an engine, the log and the cache.  The update is
/// dropped, deferred or applied as `spec_update_outcome` says.  Applied, it
/// leaves the log and the cache as `spec_process_update` says and gives
/// every view metadata; otherwise nothing changes.
pub open spec fn update_post(
    before: LeaderboardV2,
    after: LeaderboardV2,
    log_before: Seq<LeaderboardEntryView>,
    log_after: Seq<LeaderboardEntryView>,
    cache_before: CacheView,
    cache_after: CacheView,
    player: Seq<char>,
    value: u32,
    now: LbDateTime,
    outcome: UpdateOutcome,
) -> bool {
    &&& after.score_type == before.score_type
    &&& after.rebuilding == before.rebuilding
    &&& outcome == spec_update_outcome(
        before.score_type,
        cache_before,
        before.rebuilding is Some,
        player,
        value,
    )
    &&& outcome == UpdateOutcome::Applied ==> (log_after, cache_after) == spec_process_update(
        before.score_type,
        log_before,
        cache_before,
        player,
        value,
        now,
    ) && after.lb_metadata == before.lb_metadata.spec_ensure_all()
    &&& outcome != UpdateOutcome::Applied ==> log_after == log_before && cache_after
        == cache_before && after.lb_metadata == before.lb_metadata
}

/// What fetching the top of a view does to an engine and the cache, and what
/// it returns.  While a view of the engine is being rebuilt the answer is
/// `UpdateInProgress` and nothing changes.  Otherwise the view is rebuilt
/// where it has to be; the answer is `DocumentStreamError` exactly when it
/// has to be rebuilt and the log cannot be read, and else the lines of the
/// first `limit` places of the ranking.
pub open spec fn fetch_post(
    before: LeaderboardV2,
    after: LeaderboardV2,
    log: Seq<LeaderboardEntryView>,
    online: bool,
    cache_before: CacheView,
    cache_after: CacheView,
    period: LeaderboardPeriod,
    limit: u32,
    now: LbDateTime,
    result: Result<Vec<LeaderboardLine>, LeaderboardFetchError>,
) -> bool {
    let key = spec_view_id(before.score_type, period);
    &&& after.score_type == before.score_type
    &&& after.rebuilding == before.rebuilding
    &&& before.rebuilding is Some ==> {
        &&& result matches Err(e) && e == LeaderboardFetchError::UpdateInProgress
        &&& cache_after == cache_before
        &&& after.lb_metadata == before.lb_metadata
    }
    &&& before.rebuilding is None ==> {
        &&& cache_after == before.spec_cache_after_fetch(log, online, cache_before, period, now)
        &&& after.lb_metadata == before.spec_metadata_after_fetch(
            online,
            cache_before,
            period,
            now,
        )
        &&& result is Err <==> !online && before.spec_needs_reconstruction(
            period,
            now,
            cache_before.dom().contains(key),
        )
        &&& result matches Err(e) ==> e == LeaderboardFetchError::DocumentStreamError
        &&& result matches Ok(lines) ==> lines_view(lines@) == lines_of(
            cache_zrevrange(cache_after, key, 0, limit - 1),
        )
    }
}

impl LeaderboardV2 {
    /// The cache after the top of the view over `period` has been asked for
    /// at `now`, while no view is being rebuilt: unchanged where the view
    /// needs no rebuild, rebuilt from the log where it does, and left
    /// without the ranking where the log cannot be read.
    pub open spec fn spec_cache_after_fetch(
        &self,
        log: Seq<LeaderboardEntryView>,
        online: bool,
        cache: CacheView,
        period: LeaderboardPeriod,
        now: LbDateTime,
    ) -> CacheView {
        let key = spec_view_id(self.score_type, period);
        if !self.spec_needs_reconstruction(period, now, cache.dom().contains(key)) {
            cache
        } else if online {
            spec_reconstruct(self.score_type, log, cache, period, now)
        } else {
            cache.remove(key)
        }
    }

    /// The metadata after the top of the view over `period` has been asked
    /// for at `now`, while no view is being rebuilt: unchanged where the view
    /// needs no rebuild; where it does, the view was rebuilt at `now`, or,
    /// where the log cannot be read, has the metadata it had, or the default.
    pub open spec fn spec_metadata_after_fetch(
        &self,
        online: bool,
        cache: CacheView,
        period: LeaderboardPeriod,
        now: LbDateTime,
    ) -> ViewMetadataMap {
        let key = spec_view_id(self.score_type, period);
        if !self.spec_needs_reconstruction(period, now, cache.dom().contains(key)) {
            self.lb_metadata
        } else if online {
            self.lb_metadata.spec_set(period, rebuilt_at(now))
        } else {
            self.lb_metadata.spec_set(period, or_default(self.lb_metadata.spec_get(period)))
        }
    }

    /// Whether a view of the engine is being rebuilt.
    pub fn is_reconstructing(&self) -> (r: bool)
        ensures
            r == self.rebuilding is Some,
    {
        self.rebuilding.is_some()
    }

    /// Gives `id` the standing `score` in all six views.
    pub fn set(&self, cache: &mut CacheStore, id: &String, score: u32)
        requires
            old(cache).wf(),
        ensures
            final(cache).wf(),
            final(cache)@ == cache_set_all(old(cache)@, self.score_type, id@, score, 6),
    {
        let periods: Vec<LeaderboardPeriod> = LeaderboardPeriod::all();
        let mut i: usize = 0;
        while i < periods.len()
            invariant
                i <= periods.len(),
                periods@ == LeaderboardPeriod::spec_all(),
                cache.wf(),
                cache@ == cache_set_all(old(cache)@, self.score_type, id@, score, i as int),
            decreases periods.len() - i,
        {
            let period: LeaderboardPeriod = periods[i];
            self.set_for_period(cache, id, score, &period);
            i += 1;
        }
    }

    /// Applies the update `value` of `player_id` at `now`: the player's
    /// record of the day is replaced in the log, and the new standings are
    /// written to the six views.  An update that changes no standing is
    /// dropped, and while a view is being rebuilt an update has to wait:
    /// either way nothing changes.
    pub fn process_update(
        &mut self,
        log: &mut LogStore,
        cache: &mut CacheStore,
        player_id: String,
        value: u32,
        now: &LbDateTime,
    ) -> (r: UpdateOutcome)
        requires
            old(self).wf(),
            old(cache).wf(),
            now.wf(),
            spec_update_outcome(
                old(self).score_type,
                old(cache)@,
                old(self).rebuilding is Some,
                player_id@,
                value,
            ) == UpdateOutcome::Applied ==> old(log).online,
        ensures
            final(self).wf(),
            final(cache).wf(),
            final(log).online == old(log).online,
            update_post(
                *old(self),
                *final(self),
                old(log)@,
                final(log)@,
                old(cache)@,
                final(cache)@,
                player_id@,
                value,
                *now,
                r,
            ),
    {
        let daily: LeaderboardPeriod = LeaderboardPeriod::get_most_granular_period();
        let daily_standing: Option<u32> = self.query_standing_cached(cache, &player_id, &daily);
        let daily_new_value: u32 = match self.daily_value(value, daily_standing) {
            Some(daily_new_value) => daily_new_value,
            None => { return UpdateOutcome::Ignored; },
        };
        if self.is_reconstructing() {
            return UpdateOutcome::Deferred;
        }
        let query: LogQuery = self.daily_query(&player_id, now);
        log.delete_many(&query);
        log.insert_one(self.daily_entry(&player_id, daily_new_value, now));
        self.lb_metadata.ensure_all();
        proof {
            old(self).lb_metadata.lemma_ensure_all();
        }
        let periods: Vec<LeaderboardPeriod> = LeaderboardPeriod::all();
        let mut i: usize = 0;
        while i < periods.len()
            invariant
                i <= periods.len(),
                periods@ == LeaderboardPeriod::spec_all(),
                cache.wf(),
                self.score_type == old(self).score_type,
                self.rebuilding == old(self).rebuilding,
                self.lb_metadata == old(self).lb_metadata.spec_ensure_all(),
                cache@ == fan_out(
                    old(cache)@,
                    self.score_type,
                    player_id@,
                    value,
                    daily_new_value,
                    i as int,
                ),
            decreases periods.len() - i,
        {
            let period: LeaderboardPeriod = periods[i];
            let standing: Option<u32> = self.query_standing_cached(cache, &player_id, &period);
            let new_value: u32 = self.period_value(&period, daily_new_value, standing, value);
            self.set_for_period(cache, &player_id, new_value, &period);
            i += 1;
        }
        UpdateOutcome::Applied
    }

    /// Begins the rebuild of the view over `period` at `now`, unless a view
    /// is being rebuilt already: readers and updates are shut out until the
    /// rebuild is finished or given up.  Returns the selection of the records
    /// to rebuild from.
    pub fn begin_reconstruction(&mut self, period: &LeaderboardPeriod, now: &LbDateTime) -> (r:
        Result<LogQuery, LeaderboardFetchError>)
        requires
            old(self).wf(),
            now.wf(),
        ensures
            final(self).wf(),
            final(self).score_type == old(self).score_type,
            r is Ok <==> old(self).rebuilding is None,
            r matches Ok(query) ==> {
                &&& final(self).rebuilding == Some(*period)
                &&& final(self).lb_metadata == old(self).lb_metadata.spec_set(
                    *period,
                    or_default(old(self).lb_metadata.spec_get(*period)),
                )
                &&& query@ == spec_query(
                    old(self).score_type,
                    None,
                    period.spec_full_date_range(*now),
                )
            },
            r matches Err(e) ==> e == LeaderboardFetchError::UpdateInProgress && *final(self)
                == *old(self),
    {
        if self.rebuilding.is_some() {
            return Err(LeaderboardFetchError::UpdateInProgress);
        }
        let metadata: LeaderboardViewMetadata = match self.lb_metadata.get(period) {
            Some(metadata) => metadata,
            None => LeaderboardViewMetadata::default(),
        };
        proof {
            assert(self.lb_metadata.spec_get(*period) matches Some(m) ==> m.wf());
            self.lb_metadata.lemma_set(*period, metadata);
        }
        self.lb_metadata.set(period, metadata);
        self.rebuilding = Some(*period);
        Ok(self.get_query(None, period.get_full_date_range(now)))
    }

    /// Ends the rebuild of the view over `period` that was begun at `now`,
    /// and says whether that view was being rebuilt.  Where it was not,
    /// nothing changes.
    pub fn finish_reconstruction(&mut self, period: &LeaderboardPeriod, now: &LbDateTime) -> (r:
        bool)
        requires
            old(self).wf(),
            now.wf(),
        ensures
            final(self).wf(),
            final(self).score_type == old(self).score_type,
            r == (old(self).rebuilding == Some(*period)),
            r ==> final(self).rebuilding is None && final(self).lb_metadata == old(
                self,
            ).lb_metadata.spec_set(*period, rebuilt_at(*now)),
            !r ==> *final(self) == *old(self),
    {
        match self.rebuilding {
            Some(rebuilt) => {
                if rebuilt == *period {
                    proof {
                        self.lb_metadata.lemma_set(*period, rebuilt_at(*now));
                    }
                    self.lb_metadata.set(
                        period,
                        LeaderboardViewMetadata { last_updated: Some(*now) },
                    );
                    self.rebuilding = None;
                    true
                } else {
                    false
                }
            },
            None => false,
        }
    }

    /// Gives up the rebuild of the view over `period` because the log could
    /// not be read, and returns the error to report.  Where that view was
    /// not being rebuilt, nothing changes.
    pub fn abort_reconstruction(&mut self, period: &LeaderboardPeriod) -> (r:
        LeaderboardFetchError)
        requires
            old(self).wf(),
        ensures
            final(self).wf(),
            final(self).score_type == old(self).score_type,
            final(self).lb_metadata == old(self).lb_metadata,
            final(self).rebuilding == (if old(self).rebuilding == Some(*period) {
                None
            } else {
                old(self).rebuilding
            }),
            r == LeaderboardFetchError::DocumentStreamError,
    {
        match self.rebuilding {
            Some(rebuilt) => {
                if rebuilt == *period {
                    self.rebuilding = None;
                }
            },
            None => {},
        }
        LeaderboardFetchError::DocumentStreamError
    }

    /// Writes the standings `standings` to the view over `period`, in order.
    pub fn store_standings(
        &self,
        cache: &mut CacheStore,
        period: &LeaderboardPeriod,
        standings: &Standings,
    )
        requires
            old(cache).wf(),
        ensures
            final(cache).wf(),
            final(cache)@ == cache_with_standings(
                old(cache)@,
                spec_view_id(self.score_type, *period),
                standings@,
            ),
    {
        let ghost all = standings@;
        let ghost key = spec_view_id(self.score_type, *period);
        let mut i: usize = 0;
        assert(all.take(0) =~= Seq::empty());
        while i < standings.entries.len()
            invariant
                i <= standings.entries.len(),
                all == standings@,
                key == spec_view_id(self.score_type, *period),
                cache.wf(),
                cache@ == cache_with_standings(old(cache)@, key, all.take(i as int)),
            decreases standings.entries.len() - i,
        {
            proof {
                let next = all.take(i + 1);
                assert(next.drop_last() =~= all.take(i as int));
                assert(next.last() == standings.entries@[i as int]@);
            }
            self.set_for_period(
                cache,
                &standings.entries[i].member,
                standings.entries[i].score,
                period,
            );
            i += 1;
        }
        assert(all.take(i as int) =~= all);
    }

    /// The first `limit` lines of the leaderboard over `period` at `now`.
    /// A view that is out of date, or whose ranking is missing from the
    /// cache, is rebuilt from the log first.
    pub fn fetch_top(
        &mut self,
        log: &LogStore,
        cache: &mut CacheStore,
        period: &LeaderboardPeriod,
        limit: u32,
        now: &LbDateTime,
    ) -> (r: Result<Vec<LeaderboardLine>, LeaderboardFetchError>)
        requires
            old(self).wf(),
            old(cache).wf(),
            now.wf(),
            limit >= 1,
        ensures
            final(self).wf(),
            final(cache).wf(),
            fetch_post(
                *old(self),
                *final(self),
                log@,
                log.online,
                old(cache)@,
                final(cache)@,
                *period,
                limit,
                *now,
                r,
            ),
    {
        if self.is_reconstructing() {
            return Err(LeaderboardFetchError::UpdateInProgress);
        }
        let view_id: String = self.get_view_id(period);
        let key_exists: bool = cache.has_key(view_id.as_str());
        if self.needs_reconstruction(period, now, key_exists) {
            let query: LogQuery = match self.begin_reconstruction(period, now) {
                Ok(query) => query,
                Err(error) => { return Err(error); },
            };
            let _ = cache.del_key(view_id.as_str());
            match log.find(&query) {
                Ok(entries) => {
                    let mut standings: Standings = Standings::new();
                    standings.absorb_batch(self.score_type.get_aggregation_type(), &entries);
                    self.store_standings(cache, period, &standings);
                    let _ = self.finish_reconstruction(period, now);
                    proof {
                        old(self).lb_metadata.lemma_set_twice(
                            *period,
                            or_default(old(self).lb_metadata.spec_get(*period)),
                            rebuilt_at(*now),
                        );
                    }
                },
                Err(_) => {
                    let error: LeaderboardFetchError = self.abort_reconstruction(period);
                    return Err(error);
                },
            }
        }
        let top: Vec<RankedMember> = cache.zrevrange_with_scores(
            view_id.as_str(),
            0,
            (limit - 1) as usize,
        );
        Ok(LeaderboardLine::from_ranking(&top))
    }
}

} // verus!
