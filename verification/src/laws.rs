//! What holds of the engine whatever the updates and the instants: the laws
//! of the log, of the views and of their rebuilding.

use crate::cache::cache_is_ranked;
use crate::cache::cache_zadd;
use crate::cache::cache_zrevrange;
use crate::cache::cache_zscore;
use crate::cache::ranking_at;
use crate::cache::CacheView;
use crate::datetime::LbDateTime;
use crate::engine::cache_with_standings;
use crate::engine::fan_out;
use crate::engine::fetch_post;
use crate::engine::update_post;
use crate::engine::LeaderboardFetchError;
use crate::engine::LeaderboardV2;
use crate::engine::spec_needs_update;
use crate::engine::spec_period_value;
use crate::engine::spec_process_update;
use crate::engine::spec_query;
use crate::engine::spec_reconstruct;
use crate::engine::spec_update_outcome;
use crate::engine::spec_view_id;
use crate::engine::standing_or_zero;
use crate::engine::UpdateOutcome;
use crate::entry::selected;
use crate::line::lines_of;
use crate::line::lines_view;
use crate::line::LeaderboardLine;
use crate::entry::unselected;
use crate::entry::LeaderboardEntryView;
use crate::entry::LogQueryView;
use crate::period::lemma_same_bucket_iff_in_range;
use crate::period::LeaderboardPeriod;
use crate::ranking::has_distinct_members;
use crate::ranking::has_member;
use crate::ranking::is_descending;
use crate::ranking::is_ranked;
use crate::ranking::lemma_member_index_is;
use crate::ranking::lemma_with_member;
use crate::ranking::member_index;
use crate::ranking::score_of;
use crate::ranking::with_member;
use crate::score_type::ScoreType;
use crate::score_type::ScoreTypeAggregation;
use crate::standings::lemma_absorb_all;
use crate::standings::lemma_absorb_one;
use crate::standings::standings_of;
use vstd::prelude::*;

verus! {

/// The tags of two different periods differ.
pub proof fn lemma_period_names_differ(a: LeaderboardPeriod, b: LeaderboardPeriod)
    requires
        a != b,
    ensures
        a.spec_name() != b.spec_name(),
{
    reveal_strlit("DAILY");
    reveal_strlit("WEEKLY");
    reveal_strlit("MONTHLY");
    reveal_strlit("SEASONALLY");
    reveal_strlit("YEARLY");
    reveal_strlit("ALL_TIME");
    if a.spec_name() == b.spec_name() {
        assert(a.spec_name().len() == b.spec_name().len());
        assert(a.spec_name()[0] == b.spec_name()[0]);
    }
}

/// The views of one score type over two different periods have different keys.
pub proof fn lemma_view_ids_differ(
    score_type: ScoreType,
    a: LeaderboardPeriod,
    b: LeaderboardPeriod,
)
    requires
        a != b,
    ensures
        spec_view_id(score_type, a) != spec_view_id(score_type, b),
{
    lemma_period_names_differ(a, b);
    let prefix = "lb_view:"@ + score_type.spec_name() + ":"@;
    let left = spec_view_id(score_type, a);
    let right = spec_view_id(score_type, b);
    if left == right {
        assert(left.subrange(prefix.len() as int, left.len() as int) =~= a.spec_name());
        assert(right.subrange(prefix.len() as int, right.len() as int) =~= b.spec_name());
    }
}

/// Writing a standing keeps every ranking of the cache in order; the member
/// then has that standing under the key, and nothing else has changed.
pub proof fn lemma_cache_zadd(cache: CacheView, key: Seq<char>, score: u32, member: Seq<char>)
    requires
        cache_is_ranked(cache),
    ensures
        cache_is_ranked(cache_zadd(cache, key, score, member)),
        cache_zscore(cache_zadd(cache, key, score, member), key, member) == Some(score),
        forall|other: Seq<char>|
            other != member ==> cache_zscore(cache_zadd(cache, key, score, member), key, other)
                == cache_zscore(cache, key, other),
        forall|other: Seq<char>|
            other != key ==> ranking_at(cache_zadd(cache, key, score, member), other)
                == ranking_at(cache, other),
{
    assert(is_ranked(ranking_at(cache, key))) by {
        if cache.dom().contains(key) {
        }
    }
    lemma_with_member(ranking_at(cache, key), member, score);
    let after = cache_zadd(cache, key, score, member);
    assert forall|k: Seq<char>| #[trigger] after.dom().contains(k) implies is_ranked(after[k])
        && after[k].len() > 0 by {
        if k != key {
            assert(cache.dom().contains(k));
        }
    }
}

/// What an update leaves in the views of the first `count` periods: each of
/// them gives the player the standing that the update asks for and leaves
/// every other member as it was; the views of the later periods are as
/// they were.
pub proof fn lemma_fan_out(
    cache: CacheView,
    score_type: ScoreType,
    player: Seq<char>,
    value: u32,
    daily_new_value: u32,
    count: int,
)
    requires
        cache_is_ranked(cache),
        0 <= count <= 6,
    ensures
        cache_is_ranked(fan_out(cache, score_type, player, value, daily_new_value, count)),
        forall|period: LeaderboardPeriod|
            period.spec_index() >= count ==> #[trigger] ranking_at(
                fan_out(cache, score_type, player, value, daily_new_value, count),
                spec_view_id(score_type, period),
            ) == ranking_at(cache, spec_view_id(score_type, period)),
        forall|period: LeaderboardPeriod|
            period.spec_index() < count ==> #[trigger] cache_zscore(
                fan_out(cache, score_type, player, value, daily_new_value, count),
                spec_view_id(score_type, period),
                player,
            ) == Some(
                spec_period_value(
                    score_type.spec_aggregation(),
                    period,
                    daily_new_value,
                    standing_or_zero(cache, spec_view_id(score_type, period), player),
                    value,
                ),
            ),
        forall|period: LeaderboardPeriod, other: Seq<char>|
            other != player ==> #[trigger] cache_zscore(
                fan_out(cache, score_type, player, value, daily_new_value, count),
                spec_view_id(score_type, period),
                other,
            ) == cache_zscore(cache, spec_view_id(score_type, period), other),
    decreases count,
{
    if count > 0 {
        lemma_fan_out(cache, score_type, player, value, daily_new_value, count - 1);
        let before = fan_out(cache, score_type, player, value, daily_new_value, count - 1);
        let after = fan_out(cache, score_type, player, value, daily_new_value, count);
        let written = LeaderboardPeriod::spec_all()[count - 1];
        assert(written.spec_index() == count - 1);
        let key = spec_view_id(score_type, written);
        let standing = standing_or_zero(before, key, player);
        let new_value = spec_period_value(
            score_type.spec_aggregation(),
            written,
            daily_new_value,
            standing,
            value,
        );
        assert(after == cache_zadd(before, key, new_value, player));
        lemma_cache_zadd(before, key, new_value, player);
        assert(ranking_at(before, key) == ranking_at(cache, key));
        assert forall|period: LeaderboardPeriod|
            period.spec_index() >= count implies #[trigger] ranking_at(
            after,
            spec_view_id(score_type, period),
        ) == ranking_at(cache, spec_view_id(score_type, period)) by {
            let id = spec_view_id(score_type, period);
            lemma_view_ids_differ(score_type, period, written);
            assert(ranking_at(after, id) == ranking_at(before, id));
            assert(ranking_at(before, id) == ranking_at(cache, id));
        }
        assert forall|period: LeaderboardPeriod|
            period.spec_index() < count implies #[trigger] cache_zscore(
            after,
            spec_view_id(score_type, period),
            player,
        ) == Some(
            spec_period_value(
                score_type.spec_aggregation(),
                period,
                daily_new_value,
                standing_or_zero(cache, spec_view_id(score_type, period), player),
                value,
            ),
        ) by {
            let id = spec_view_id(score_type, period);
            if period != written {
                lemma_view_ids_differ(score_type, period, written);
                assert(ranking_at(after, id) == ranking_at(before, id));
                assert(period.spec_index() < count - 1);
                assert(cache_zscore(before, id, player) == Some(
                    spec_period_value(
                        score_type.spec_aggregation(),
                        period,
                        daily_new_value,
                        standing_or_zero(cache, id, player),
                        value,
                    ),
                ));
            } else {
                assert(standing_or_zero(before, key, player) == standing_or_zero(
                    cache,
                    key,
                    player,
                ));
            }
        }
        assert forall|period: LeaderboardPeriod, other: Seq<char>|
            other != player implies #[trigger] cache_zscore(
            after,
            spec_view_id(score_type, period),
            other,
        ) == cache_zscore(cache, spec_view_id(score_type, period), other) by {
            if period != written {
                lemma_view_ids_differ(score_type, period, written);
                assert(ranking_at(after, spec_view_id(score_type, period)) == ranking_at(
                    before,
                    spec_view_id(score_type, period),
                ));
            }
            assert(cache_zscore(before, spec_view_id(score_type, period), other) == cache_zscore(
                cache,
                spec_view_id(score_type, period),
                other,
            ));
        }
    }
}

/// An update of zero has no effect: it is dropped, and the log and the
/// cache are as they were.
pub proof fn lemma_zero_update_has_no_effect(
    score_type: ScoreType,
    log: Seq<LeaderboardEntryView>,
    cache: CacheView,
    rebuilding: bool,
    player: Seq<char>,
    now: LbDateTime,
)
    ensures
        spec_update_outcome(score_type, cache, rebuilding, player, 0) == UpdateOutcome::Ignored,
        spec_process_update(score_type, log, cache, player, 0, now) == (log, cache),
{
}

/// After an update that is applied, the player's standing in every view is
/// what the update asks for: the new daily value for the day, and the delta
/// merged into the old standing for every other period.
pub proof fn lemma_standings_after_update(
    score_type: ScoreType,
    log: Seq<LeaderboardEntryView>,
    cache: CacheView,
    player: Seq<char>,
    value: u32,
    now: LbDateTime,
    period: LeaderboardPeriod,
)
    requires
        cache_is_ranked(cache),
        spec_needs_update(
            score_type.spec_aggregation(),
            value,
            standing_or_zero(cache, spec_view_id(score_type, LeaderboardPeriod::Daily), player),
        ),
    ensures
        cache_is_ranked(spec_process_update(score_type, log, cache, player, value, now).1),
        cache_zscore(
            spec_process_update(score_type, log, cache, player, value, now).1,
            spec_view_id(score_type, period),
            player,
        ) == Some(
            spec_period_value(
                score_type.spec_aggregation(),
                period,
                score_type.spec_aggregation().spec_compare(
                    standing_or_zero(
                        cache,
                        spec_view_id(score_type, LeaderboardPeriod::Daily),
                        player,
                    ),
                    value,
                ),
                standing_or_zero(cache, spec_view_id(score_type, period), player),
                value,
            ),
        ),
{
    let daily_new_value = score_type.spec_aggregation().spec_compare(
        standing_or_zero(cache, spec_view_id(score_type, LeaderboardPeriod::Daily), player),
        value,
    );
    lemma_fan_out(cache, score_type, player, value, daily_new_value, 6);
}

/// After the first update of a player on a sum, the daily standing read
/// back is the delta: where the player has no daily standing and the delta
/// is not zero, the standing afterwards is the delta.
pub proof fn lemma_first_update_round_trip(
    score_type: ScoreType,
    log: Seq<LeaderboardEntryView>,
    cache: CacheView,
    player: Seq<char>,
    value: u32,
    now: LbDateTime,
)
    requires
        cache_is_ranked(cache),
        score_type.spec_aggregation() == ScoreTypeAggregation::Sum,
        value != 0,
        cache_zscore(cache, spec_view_id(score_type, LeaderboardPeriod::Daily), player) is None,
    ensures
        cache_zscore(
            spec_process_update(score_type, log, cache, player, value, now).1,
            spec_view_id(score_type, LeaderboardPeriod::Daily),
            player,
        ) == Some(value),
{
    lemma_standings_after_update(
        score_type,
        log,
        cache,
        player,
        value,
        now,
        LeaderboardPeriod::Daily,
    );
}

/// The ranking after the standings `standings` have been written to
/// `ranking`, in order.
pub open spec fn ranking_with_standings(
    ranking: Seq<(Seq<char>, u32)>,
    standings: Seq<(Seq<char>, u32)>,
) -> Seq<(Seq<char>, u32)>
    decreases standings.len(),
{
    if standings.len() == 0 {
        ranking
    } else {
        with_member(
            ranking_with_standings(ranking, standings.drop_last()),
            standings.last().0,
            standings.last().1,
        )
    }
}

/// Writing standings under a key changes the ranking under that key alone,
/// and what it becomes depends on nothing but the ranking that was there.
pub proof fn lemma_cache_with_standings(
    cache: CacheView,
    key: Seq<char>,
    standings: Seq<(Seq<char>, u32)>,
)
    ensures
        standings.len() == 0 ==> cache_with_standings(cache, key, standings) == cache,
        standings.len() > 0 ==> cache_with_standings(cache, key, standings) == cache.insert(
            key,
            ranking_with_standings(ranking_at(cache, key), standings),
        ),
    decreases standings.len(),
{
    if standings.len() > 0 {
        let rest = standings.drop_last();
        lemma_cache_with_standings(cache, key, rest);
        let before = cache_with_standings(cache, key, rest);
        assert(ranking_at(before, key) == ranking_with_standings(ranking_at(cache, key), rest));
        assert(cache_with_standings(cache, key, standings) =~= cache.insert(
            key,
            ranking_with_standings(ranking_at(cache, key), standings),
        ));
    }
}

/// Rebuilding a view twice in a row leaves the cache as the first rebuild
/// left it.
pub proof fn lemma_reconstruction_is_a_fixed_point(
    score_type: ScoreType,
    log: Seq<LeaderboardEntryView>,
    cache: CacheView,
    period: LeaderboardPeriod,
    now: LbDateTime,
)
    ensures
        spec_reconstruct(
            score_type,
            log,
            spec_reconstruct(score_type, log, cache, period, now),
            period,
            now,
        ) == spec_reconstruct(score_type, log, cache, period, now),
{
    let key = spec_view_id(score_type, period);
    let standings = standings_of(
        score_type.spec_aggregation(),
        selected(log, spec_query(score_type, None, period.spec_full_date_range(now))),
    );
    let once = spec_reconstruct(score_type, log, cache, period, now);
    let twice = spec_reconstruct(score_type, log, once, period, now);
    lemma_cache_with_standings(cache.remove(key), key, standings);
    lemma_cache_with_standings(once.remove(key), key, standings);
    assert(once.remove(key) =~= cache.remove(key));
    assert(twice =~= once);
}

/// A member that stands last in standings without repeated members has the
/// standing given there, and every other member the one it has among the
/// standings before.
pub proof fn lemma_score_of_last(standings: Seq<(Seq<char>, u32)>, member: Seq<char>)
    requires
        has_distinct_members(standings),
        standings.len() > 0,
    ensures
        has_distinct_members(standings.drop_last()),
        member == standings.last().0 ==> score_of(standings, member) == Some(standings.last().1),
        member != standings.last().0 ==> score_of(standings, member) == score_of(
            standings.drop_last(),
            member,
        ),
{
    let rest = standings.drop_last();
    assert forall|i: int| 0 <= i < rest.len() implies #[trigger] rest[i] == standings[i] by {}
    if member == standings.last().0 {
        lemma_member_index_is(standings, member, standings.len() - 1);
    } else if has_member(standings, member) {
        let at = member_index(standings, member);
        assert(rest[at] == standings[at]);
        lemma_member_index_is(rest, member, at);
    } else if has_member(rest, member) {
        let at = member_index(rest, member);
        assert(rest[at] == standings[at]);
    }
}

/// After standings without repeated members have been written to a ranking,
/// the ranking is in order, every member of the standings has the standing
/// given there, and every other member the score it had.
pub proof fn lemma_ranking_with_standings(
    ranking: Seq<(Seq<char>, u32)>,
    standings: Seq<(Seq<char>, u32)>,
)
    requires
        is_ranked(ranking),
        has_distinct_members(standings),
    ensures
        is_ranked(ranking_with_standings(ranking, standings)),
        standings.len() > 0 ==> ranking_with_standings(ranking, standings).len() > 0,
        forall|member: Seq<char>| #[trigger]
            score_of(ranking_with_standings(ranking, standings), member) == (if has_member(
                standings,
                member,
            ) {
                score_of(standings, member)
            } else {
                score_of(ranking, member)
            }),
    decreases standings.len(),
{
    if standings.len() > 0 {
        let rest = standings.drop_last();
        let last = standings.last();
        lemma_score_of_last(standings, last.0);
        lemma_ranking_with_standings(ranking, rest);
        let before = ranking_with_standings(ranking, rest);
        lemma_with_member(before, last.0, last.1);
        let after = ranking_with_standings(ranking, standings);
        assert forall|member: Seq<char>| #[trigger]
            score_of(after, member) == (if has_member(standings, member) {
                score_of(standings, member)
            } else {
                score_of(ranking, member)
            }) by {
            lemma_score_of_last(standings, member);
            if member != last.0 {
                assert(score_of(after, member) == score_of(before, member));
            }
        }
    }
}

/// After a rebuild the cache is in order, the view holds exactly the
/// standings that the records of its bucket give, and every other ranking
/// is as it was.
pub proof fn lemma_rebuilt_view_holds_the_standings(
    score_type: ScoreType,
    log: Seq<LeaderboardEntryView>,
    cache: CacheView,
    period: LeaderboardPeriod,
    now: LbDateTime,
)
    requires
        cache_is_ranked(cache),
    ensures
        cache_is_ranked(spec_reconstruct(score_type, log, cache, period, now)),
        forall|member: Seq<char>| #[trigger]
            cache_zscore(
                spec_reconstruct(score_type, log, cache, period, now),
                spec_view_id(score_type, period),
                member,
            ) == score_of(
                standings_of(
                    score_type.spec_aggregation(),
                    selected(log, spec_query(score_type, None, period.spec_full_date_range(now))),
                ),
                member,
            ),
        forall|key: Seq<char>|
            key != spec_view_id(score_type, period) ==> #[trigger] ranking_at(
                spec_reconstruct(score_type, log, cache, period, now),
                key,
            ) == ranking_at(cache, key),
{
    let key = spec_view_id(score_type, period);
    let standings = standings_of(
        score_type.spec_aggregation(),
        selected(log, spec_query(score_type, None, period.spec_full_date_range(now))),
    );
    let emptied = cache.remove(key);
    let after = spec_reconstruct(score_type, log, cache, period, now);
    lemma_absorb_all(
        Seq::empty(),
        score_type.spec_aggregation(),
        selected(log, spec_query(score_type, None, period.spec_full_date_range(now))),
    );
    lemma_cache_with_standings(emptied, key, standings);
    assert(ranking_at(emptied, key) =~= Seq::empty());
    lemma_ranking_with_standings(Seq::empty(), standings);
    assert forall|k: Seq<char>| #[trigger] after.dom().contains(k) implies is_ranked(after[k])
        && after[k].len() > 0 by {
        if k != key {
            assert(cache.dom().contains(k));
        }
    }
    assert forall|member: Seq<char>| #[trigger]
        cache_zscore(after, key, member) == score_of(standings, member) by {
        if standings.len() > 0 {
            assert(score_of(ranking_with_standings(Seq::empty(), standings), member) == (
            if has_member(standings, member) {
                score_of(standings, member)
            } else {
                score_of(Seq::<(Seq<char>, u32)>::empty(), member)
            }));
        }
    }
}

/// The top of a ranking: the first places of the ranking as the cache holds
/// it, so that scores never rise from one line to the next and no member
/// left out has a higher score than a member taken.
pub proof fn lemma_top_is_highest_first(cache: CacheView, key: Seq<char>, limit: int)
    requires
        cache_is_ranked(cache),
        limit >= 1,
    ensures
        cache_zrevrange(cache, key, 0, limit - 1) == ranking_at(cache, key).take(
            if limit <= ranking_at(cache, key).len() {
                limit
            } else {
                ranking_at(cache, key).len() as int
            },
        ),
        is_descending(cache_zrevrange(cache, key, 0, limit - 1)),
        forall|i: int, k: int|
            0 <= i < limit <= k < ranking_at(cache, key).len() ==> (#[trigger] ranking_at(
                cache,
                key,
            )[i]).1 >= (#[trigger] ranking_at(cache, key)[k]).1,
{
    let ranking = ranking_at(cache, key);
    let top = cache_zrevrange(cache, key, 0, limit - 1);
    assert(is_ranked(ranking)) by {
        if cache.dom().contains(key) {
        }
    }
    let count = if limit <= ranking.len() {
        limit
    } else {
        ranking.len() as int
    };
    assert(top =~= ranking.take(count));
}

/// The standing that the records `entries` give `player`: the value of the
/// player's first record, with the values of the later ones merged into it.
/// `None` where the player has no record.
pub open spec fn player_standing(
    aggregation: ScoreTypeAggregation,
    entries: Seq<LeaderboardEntryView>,
    player: Seq<char>,
) -> Option<u32>
    decreases entries.len(),
{
    if entries.len() == 0 {
        None
    } else if entries.last().player_id == player {
        Some(
            match player_standing(aggregation, entries.drop_last(), player) {
                Some(standing) => aggregation.spec_compare(standing, entries.last().value),
                None => entries.last().value,
            },
        )
    } else {
        player_standing(aggregation, entries.drop_last(), player)
    }
}

/// The standings folded from records give every player the merge of the
/// values of the player's own records.
pub proof fn lemma_standings_merge_each_players_records(
    aggregation: ScoreTypeAggregation,
    entries: Seq<LeaderboardEntryView>,
    player: Seq<char>,
)
    ensures
        has_distinct_members(standings_of(aggregation, entries)),
        score_of(standings_of(aggregation, entries), player) == player_standing(
            aggregation,
            entries,
            player,
        ),
    decreases entries.len(),
{
    if entries.len() > 0 {
        lemma_standings_merge_each_players_records(aggregation, entries.drop_last(), player);
        lemma_absorb_one(
            standings_of(aggregation, entries.drop_last()),
            aggregation,
            entries.last().player_id,
            entries.last().value,
        );
    }
}

/// The deltas `values` merged into a standing of 0, in order: their sum,
/// held at `u32::MAX`, or the greatest of them.
pub open spec fn merged(aggregation: ScoreTypeAggregation, values: Seq<u32>) -> u32
    decreases values.len(),
{
    if values.len() == 0 {
        0
    } else {
        aggregation.spec_compare(merged(aggregation, values.drop_last()), values.last())
    }
}

/// The log and the cache after the updates `values` of `player`, made at the
/// instants `times`, in order.
pub open spec fn run_updates(
    score_type: ScoreType,
    log: Seq<LeaderboardEntryView>,
    cache: CacheView,
    player: Seq<char>,
    values: Seq<u32>,
    times: Seq<LbDateTime>,
) -> (Seq<LeaderboardEntryView>, CacheView)
    decreases values.len(),
{
    if values.len() == 0 {
        (log, cache)
    } else {
        let before = run_updates(
            score_type,
            log,
            cache,
            player,
            values.drop_last(),
            times.drop_last(),
        );
        spec_process_update(score_type, before.0, before.1, player, values.last(), times.last())
    }
}

/// The selection of the records of `player` that were written on the day of
/// `day`.
pub open spec fn day_query(
    score_type: ScoreType,
    player: Seq<char>,
    day: LbDateTime,
) -> LogQueryView {
    spec_query(score_type, Some(player), LeaderboardPeriod::Daily.spec_full_date_range(day))
}

/// What holds of a player's records of one day between updates: there is
/// at most one; where there is one, it holds `total`, and so does the
/// player's daily standing; where there is none, both are 0.  No record of
/// the day is later than `last`.
pub open spec fn day_invariant(
    score_type: ScoreType,
    log: Seq<LeaderboardEntryView>,
    cache: CacheView,
    player: Seq<char>,
    day: LbDateTime,
    total: u32,
    last: int,
) -> bool {
    let today = selected(log, day_query(score_type, player, day));
    let key = spec_view_id(score_type, LeaderboardPeriod::Daily);
    &&& cache_is_ranked(cache)
    &&& forall|i: int|
        0 <= i < log.len() && day_query(score_type, player, day).selects(#[trigger] log[i])
            ==> log[i].timestamp <= last
    &&& today.len() <= 1
    &&& today.len() == 1 ==> today[0].value == total && cache_zscore(cache, key, player) == Some(
        total,
    )
    &&& today.len() == 0 ==> total == 0 && standing_or_zero(cache, key, player) == 0
}

/// Where a selection holds no record of a log, no record of the log is
/// selected.
pub proof fn lemma_nothing_selected(log: Seq<LeaderboardEntryView>, query: LogQueryView)
    requires
        selected(log, query).len() == 0,
    ensures
        forall|i: int| 0 <= i < log.len() ==> !query.selects(#[trigger] log[i]),
    decreases log.len(),
{
    if log.len() > 0 {
        let rest = log.drop_last();
        if query.selects(log.last()) {
            assert(selected(log, query).len() > 0);
        }
        lemma_nothing_selected(rest, query);
        assert forall|i: int| 0 <= i < log.len() implies !query.selects(#[trigger] log[i]) by {
            if i < rest.len() {
                assert(rest[i] == log[i]);
            }
        }
    }
}

/// Every record that a removal leaves is a record of the log.
pub proof fn lemma_unselected_records(log: Seq<LeaderboardEntryView>, query: LogQueryView, j: int)
    requires
        0 <= j < unselected(log, query).len(),
    ensures
        exists|i: int| 0 <= i < log.len() && #[trigger] log[i] == unselected(log, query)[j],
    decreases log.len(),
{
    if log.len() > 0 {
        let rest = log.drop_last();
        let left = unselected(rest, query);
        if !query.selects(log.last()) && j == left.len() {
            assert(log[log.len() - 1] == unselected(log, query)[j]);
        } else {
            lemma_unselected_records(rest, query, j);
            let i = choose|i: int| 0 <= i < rest.len() && #[trigger] rest[i] == left[j];
            assert(log[i] == unselected(log, query)[j]);
        }
    }
}

/// After the records of one selection have been removed, a second selection
/// that holds no record outside the first finds nothing.
pub proof fn lemma_removed_records_are_gone(
    log: Seq<LeaderboardEntryView>,
    removed: LogQueryView,
    query: LogQueryView,
)
    requires
        forall|i: int|
            0 <= i < log.len() && query.selects(#[trigger] log[i]) ==> removed.selects(log[i]),
    ensures
        selected(unselected(log, removed), query).len() == 0,
    decreases log.len(),
{
    if log.len() > 0 {
        let rest = log.drop_last();
        assert forall|i: int| 0 <= i < rest.len() && query.selects(
            #[trigger] rest[i],
        ) implies removed.selects(rest[i]) by {
            assert(rest[i] == log[i]);
        }
        lemma_removed_records_are_gone(rest, removed, query);
        if !removed.selects(log.last()) {
            let left = unselected(log, removed);
            assert(left.drop_last() =~= unselected(rest, removed));
            assert(left.last() == log[log.len() - 1]);
        }
    }
}

/// One update keeps what holds of a player's records of the day, where the
/// update is made on that day and later than every record of the day:
/// afterwards the total is the old total with the delta merged into it.
pub proof fn lemma_update_keeps_day_invariant(
    score_type: ScoreType,
    log: Seq<LeaderboardEntryView>,
    cache: CacheView,
    player: Seq<char>,
    day: LbDateTime,
    total: u32,
    last: int,
    value: u32,
    now: LbDateTime,
)
    requires
        day.wf(),
        now.wf(),
        LeaderboardPeriod::Daily.spec_same_bucket(day, now),
        last < now.millis,
        day_invariant(score_type, log, cache, player, day, total, last),
    ensures
        day_invariant(
            score_type,
            spec_process_update(score_type, log, cache, player, value, now).0,
            spec_process_update(score_type, log, cache, player, value, now).1,
            player,
            day,
            score_type.spec_aggregation().spec_compare(total, value),
            now.millis as int,
        ),
{
    let aggregation = score_type.spec_aggregation();
    let key = spec_view_id(score_type, LeaderboardPeriod::Daily);
    let query = day_query(score_type, player, day);
    let today = selected(log, query);
    let standing = standing_or_zero(cache, key, player);
    assert(standing == total);
    let after = spec_process_update(score_type, log, cache, player, value, now);
    if spec_needs_update(aggregation, value, standing) {
        let daily_new_value = aggregation.spec_compare(standing, value);
        let removed = spec_query(
            score_type,
            Some(player),
            LeaderboardPeriod::Daily.spec_date_range_up_to(now),
        );
        lemma_same_bucket_iff_in_range(LeaderboardPeriod::Daily, day, now);
        assert(LeaderboardPeriod::Daily.spec_full_date_range(now)
            == LeaderboardPeriod::Daily.spec_full_date_range(day));
        lemma_removed_records_are_gone(log, removed, query);
        let left = unselected(log, removed);
        let entry = LeaderboardEntryView {
            player_id: player,
            timestamp: now.millis,
            score_type,
            value: daily_new_value,
        };
        assert(after.0 == left.push(entry));
        assert(query.selects(entry));
        assert(after.0.drop_last() =~= left);
        assert(after.0.last() == entry);
        assert(selected(after.0, query) =~= seq![entry]);
        lemma_standings_after_update(
            score_type,
            log,
            cache,
            player,
            value,
            now,
            LeaderboardPeriod::Daily,
        );
        assert forall|i: int|
            0 <= i < after.0.len() && query.selects(#[trigger] after.0[i]) implies after.0[i]
            .timestamp <= now.millis by {
            if i < left.len() {
                lemma_unselected_records(log, removed, i);
                let k = choose|k: int| 0 <= k < log.len() && #[trigger] log[k] == left[i];
                assert(log[k].timestamp <= last);
            }
        }
    }
}

/// What holds of a player's records of the day after a sequence of updates
/// that are all made on that day, each later than the one before.
pub proof fn lemma_updates_keep_day_invariant(
    score_type: ScoreType,
    log: Seq<LeaderboardEntryView>,
    cache: CacheView,
    player: Seq<char>,
    values: Seq<u32>,
    times: Seq<LbDateTime>,
    day: LbDateTime,
    floor: int,
)
    requires
        day.wf(),
        values.len() == times.len(),
        forall|i: int|
            0 <= i < times.len() ==> (#[trigger] times[i]).wf()
                && LeaderboardPeriod::Daily.spec_same_bucket(day, times[i]) && floor
                < times[i].millis,
        forall|i: int, j: int|
            0 <= i < j < times.len() ==> (#[trigger] times[i]).millis < (
            #[trigger] times[j]).millis,
        day_invariant(score_type, log, cache, player, day, 0, floor),
    ensures
        day_invariant(
            score_type,
            run_updates(score_type, log, cache, player, values, times).0,
            run_updates(score_type, log, cache, player, values, times).1,
            player,
            day,
            merged(score_type.spec_aggregation(), values),
            if times.len() == 0 {
                floor
            } else {
                times.last().millis as int
            },
        ),
    decreases values.len(),
{
    if values.len() > 0 {
        let earlier = times.drop_last();
        assert forall|i: int| 0 <= i < earlier.len() implies (#[trigger] earlier[i]).wf()
            && LeaderboardPeriod::Daily.spec_same_bucket(day, earlier[i]) && floor
            < earlier[i].millis by {
            assert(earlier[i] == times[i]);
        }
        assert forall|i: int, j: int| 0 <= i < j < earlier.len() implies (
        #[trigger] earlier[i]).millis < (#[trigger] earlier[j]).millis by {
            assert(earlier[i] == times[i]);
            assert(earlier[j] == times[j]);
        }
        lemma_updates_keep_day_invariant(
            score_type,
            log,
            cache,
            player,
            values.drop_last(),
            earlier,
            day,
            floor,
        );
        let before = run_updates(score_type, log, cache, player, values.drop_last(), earlier);
        let last = if earlier.len() == 0 {
            floor
        } else {
            earlier.last().millis as int
        };
        if earlier.len() > 0 {
            assert(earlier.last() == times[times.len() - 2]);
        }
        assert(times.last() == times[times.len() - 1]);
        lemma_update_keeps_day_invariant(
            score_type,
            before.0,
            before.1,
            player,
            day,
            merged(score_type.spec_aggregation(), values.drop_last()),
            last,
            values.last(),
            times.last(),
        );
    }
}

/// After any sequence of updates of one player, all made on one day and
/// each later than the one before, on a log that held no record of the
/// player for that day and a cache in which the player had no daily
/// standing: the log holds at most one record of the player for the day,
/// and its value is the deltas merged in order, their sum or their maximum.
/// It holds none only where the deltas merge to 0.
pub proof fn lemma_log_holds_one_record_per_day(
    score_type: ScoreType,
    log: Seq<LeaderboardEntryView>,
    cache: CacheView,
    player: Seq<char>,
    values: Seq<u32>,
    times: Seq<LbDateTime>,
    day: LbDateTime,
)
    requires
        cache_is_ranked(cache),
        day.wf(),
        values.len() == times.len(),
        forall|i: int|
            0 <= i < times.len() ==> (#[trigger] times[i]).wf()
                && LeaderboardPeriod::Daily.spec_same_bucket(day, times[i]),
        forall|i: int, j: int|
            0 <= i < j < times.len() ==> (#[trigger] times[i]).millis < (
            #[trigger] times[j]).millis,
        selected(log, day_query(score_type, player, day)).len() == 0,
        standing_or_zero(cache, spec_view_id(score_type, LeaderboardPeriod::Daily), player) == 0,
    ensures
        selected(
            run_updates(score_type, log, cache, player, values, times).0,
            day_query(score_type, player, day),
        ).len() <= 1,
        selected(
            run_updates(score_type, log, cache, player, values, times).0,
            day_query(score_type, player, day),
        ).len() == 1 ==> selected(
            run_updates(score_type, log, cache, player, values, times).0,
            day_query(score_type, player, day),
        )[0].value == merged(score_type.spec_aggregation(), values),
        selected(
            run_updates(score_type, log, cache, player, values, times).0,
            day_query(score_type, player, day),
        ).len() == 0 ==> merged(score_type.spec_aggregation(), values) == 0,
{
    let floor = if times.len() == 0 {
        0
    } else {
        times[0].millis - 1
    };
    lemma_nothing_selected(log, day_query(score_type, player, day));
    assert forall|i: int| 0 <= i < times.len() implies floor < (#[trigger] times[i]).millis by {
        if i > 0 {
            assert(times[0].millis < times[i].millis);
        }
    }
    lemma_updates_keep_day_invariant(score_type, log, cache, player, values, times, day, floor);
}

/// The sum of `values`.
pub open spec fn total(values: Seq<u32>) -> int
    decreases values.len(),
{
    if values.len() == 0 {
        0
    } else {
        total(values.drop_last()) + values.last()
    }
}

/// Deltas merged as a sum give their total, held at `u32::MAX`.
pub proof fn lemma_merged_sum_is_total(values: Seq<u32>)
    ensures
        total(values) >= 0,
        merged(ScoreTypeAggregation::Sum, values) == (if total(values) > u32::MAX {
            u32::MAX as int
        } else {
            total(values)
        }),
    decreases values.len(),
{
    if values.len() > 0 {
        lemma_merged_sum_is_total(values.drop_last());
    }
}

/// Deltas merged as a maximum give the greatest of them: none is greater,
/// and where there are any, one of them is it.
pub proof fn lemma_merged_max_is_greatest(values: Seq<u32>)
    ensures
        forall|i: int|
            0 <= i < values.len() ==> (#[trigger] values[i]) <= merged(
                ScoreTypeAggregation::Max,
                values,
            ),
        values.len() > 0 ==> exists|i: int|
            0 <= i < values.len() && (#[trigger] values[i]) == merged(
                ScoreTypeAggregation::Max,
                values,
            ),
        values.len() == 0 ==> merged(ScoreTypeAggregation::Max, values) == 0,
    decreases values.len(),
{
    if values.len() > 0 {
        let rest = values.drop_last();
        lemma_merged_max_is_greatest(rest);
        let greatest = merged(ScoreTypeAggregation::Max, values);
        assert forall|i: int| 0 <= i < values.len() implies (#[trigger] values[i])
            <= greatest by {
            if i < rest.len() {
                assert(rest[i] == values[i]);
            }
        }
        if greatest == values.last() {
            assert(values[values.len() - 1] == greatest);
        } else {
            let i = choose|i: int|
                0 <= i < rest.len() && (#[trigger] rest[i]) == merged(
                    ScoreTypeAggregation::Max,
                    rest,
                );
            assert(values[i] == greatest);
        }
    }
}

/// An update of zero that has been made changed nothing: not the engine
/// with its metadata, not the log, not the cache.
pub proof fn lemma_zero_update_changed_nothing(
    before: LeaderboardV2,
    after: LeaderboardV2,
    log_before: Seq<LeaderboardEntryView>,
    log_after: Seq<LeaderboardEntryView>,
    cache_before: CacheView,
    cache_after: CacheView,
    player: Seq<char>,
    now: LbDateTime,
    outcome: UpdateOutcome,
)
    requires
        update_post(
            before,
            after,
            log_before,
            log_after,
            cache_before,
            cache_after,
            player,
            0,
            now,
            outcome,
        ),
    ensures
        outcome == UpdateOutcome::Ignored,
        after == before,
        log_after == log_before,
        cache_after == cache_before,
{
}

/// The top of a leaderboard that was fetched with a rebuild: the lines of
/// the first places of the ranking, in which scores never rise, no member
/// left out has a higher score than a member taken, and every player has
/// the standing that the player's records of the bucket merge to.
pub proof fn lemma_fetched_top_after_rebuild(
    before: LeaderboardV2,
    after: LeaderboardV2,
    log: Seq<LeaderboardEntryView>,
    cache_before: CacheView,
    cache_after: CacheView,
    period: LeaderboardPeriod,
    limit: u32,
    now: LbDateTime,
    result: Result<Vec<LeaderboardLine>, LeaderboardFetchError>,
)
    requires
        cache_is_ranked(cache_before),
        limit >= 1,
        before.rebuilding is None,
        before.spec_needs_reconstruction(
            period,
            now,
            cache_before.dom().contains(spec_view_id(before.score_type, period)),
        ),
        fetch_post(before, after, log, true, cache_before, cache_after, period, limit, now, result),
    ensures
        result is Ok,
        lines_view(result->Ok_0@) == lines_of(
            ranking_at(cache_after, spec_view_id(before.score_type, period)).take(
                if limit <= ranking_at(cache_after, spec_view_id(before.score_type, period)).len() {
                    limit as int
                } else {
                    ranking_at(cache_after, spec_view_id(before.score_type, period)).len() as int
                },
            ),
        ),
        is_ranked(ranking_at(cache_after, spec_view_id(before.score_type, period))),
        forall|i: int, k: int|
            0 <= i < limit <= k < ranking_at(
                cache_after,
                spec_view_id(before.score_type, period),
            ).len() ==> (#[trigger] ranking_at(
                cache_after,
                spec_view_id(before.score_type, period),
            )[i]).1 >= (#[trigger] ranking_at(
                cache_after,
                spec_view_id(before.score_type, period),
            )[k]).1,
        forall|player: Seq<char>| #[trigger]
            cache_zscore(cache_after, spec_view_id(before.score_type, period), player)
                == player_standing(
                before.score_type.spec_aggregation(),
                selected(
                    log,
                    spec_query(before.score_type, None, period.spec_full_date_range(now)),
                ),
                player,
            ),
{
    let key = spec_view_id(before.score_type, period);
    let entries = selected(
        log,
        spec_query(before.score_type, None, period.spec_full_date_range(now)),
    );
    lemma_rebuilt_view_holds_the_standings(before.score_type, log, cache_before, period, now);
    lemma_top_is_highest_first(cache_after, key, limit as int);
    assert(is_ranked(ranking_at(cache_after, key))) by {
        if cache_after.dom().contains(key) {
        }
    }
    assert forall|player: Seq<char>| #[trigger]
        cache_zscore(cache_after, key, player) == player_standing(
            before.score_type.spec_aggregation(),
            entries,
            player,
        ) by {
        lemma_standings_merge_each_players_records(
            before.score_type.spec_aggregation(),
            entries,
            player,
        );
    }
}

} // verus!
