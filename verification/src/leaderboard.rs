//! Leaderboards whose rankings are kept under the name of their bucket, so
//! that a new bucket begins with an empty ranking.

use crate::cache::cache_zadd;
use crate::cache::cache_zrevrange;
use crate::cache::ranking_at;
use crate::cache::CacheStore;
use crate::cache::CacheView;
use crate::datetime::LbDateTime;
use crate::engine::cache_with_standings;
use crate::engine::standing_or_zero;
use crate::gregorian::iso_week_number;
use crate::line::lines_of;
use crate::line::lines_view;
use crate::line::ranking_from_reply;
use crate::line::ranking_of_reply;
use crate::line::strings_view;
use crate::line::LeaderboardLine;
use crate::period::LeaderboardPeriod;
use crate::ranking::has_member;
use crate::ranking::member_index;
use crate::ranking::ranking_view;
use crate::ranking::RankedMember;
use crate::score_type::ScoreType;
use vstd::prelude::*;
use vstd::string::*;

verus! {

/// How a standing is written.
#[derive(Clone, Copy, Debug, PartialEq, Eq, Structural)]
pub enum WriteRule {
    /// The standing becomes the amount.
    Replace,
    /// The amount is added to the standing, which is held at `u32::MAX`.
    Increment,
    /// The standing becomes the amount where the amount is higher.
    SetIfHigher,
}

/// The key of the ranking of `score_type` for the bucket of `period` that
/// holds `date`.
pub open spec fn spec_bucket_id(
    score_type: ScoreType,
    period: LeaderboardPeriod,
    date: LbDateTime,
) -> Seq<char> {
    "lb:"@ + score_type.spec_name() + ":"@ + period.spec_today_id(
        date.year as int,
        date.month as int,
        date.day as int,
        iso_week_number(date.year as int, date.month as int, date.day as int),
    )
}

/// The cache after `amount` has been written for `id` under `key` by `rule`.
pub open spec fn cache_write(
    cache: CacheView,
    key: Seq<char>,
    id: Seq<char>,
    rule: WriteRule,
    amount: u32,
) -> CacheView {
    let standing = standing_or_zero(cache, key, id);
    match rule {
        WriteRule::Replace => cache_zadd(cache, key, amount, id),
        WriteRule::Increment => cache_zadd(
            cache,
            key,
            if standing + amount > u32::MAX {
                u32::MAX
            } else {
                (standing + amount) as u32
            },
            id,
        ),
        WriteRule::SetIfHigher => if amount > standing {
            cache_zadd(cache, key, amount, id)
        } else {
            cache
        },
    }
}

/// The cache after `amount` has been written for `id` by `rule` in the
/// rankings of the first `count` periods.
pub open spec fn cache_write_all(
    cache: CacheView,
    score_type: ScoreType,
    date: LbDateTime,
    id: Seq<char>,
    rule: WriteRule,
    amount: u32,
    count: int,
) -> CacheView
    decreases count,
{
    if count <= 0 {
        cache
    } else {
        cache_write(
            cache_write_all(cache, score_type, date, id, rule, amount, count - 1),
            spec_bucket_id(score_type, LeaderboardPeriod::spec_all()[count - 1], date),
            id,
            rule,
            amount,
        )
    }
}

/// The leaderboards of one score type, one ranking for every bucket.
#[derive(Clone, Copy, Debug)]
pub struct Leaderboard {
    /// What is counted.
    pub score_type: ScoreType,
}

impl Leaderboard {
    /// The key of the ranking for the bucket of `period` that holds `date`.
    pub fn get_id(&self, period: &LeaderboardPeriod, date: &LbDateTime) -> (r: String)
        requires
            date.wf(),
        ensures
            r@ == spec_bucket_id(self.score_type, *period, *date),
    {
        let mut id: String = String::from_str("lb:");
        id.append(self.score_type.as_str());
        id.append(":");
        let bucket: String = period.today_id_at(date);
        id.append(bucket.as_str());
        id
    }

    /// The lines that a flat reply of members and scores gives.
    pub fn strings_as_leaderboard_entries(raw: Vec<String>) -> (r: Vec<LeaderboardLine>)
        ensures
            lines_view(r@) == lines_of(ranking_of_reply(strings_view(raw@))),
    {
        let ranking: Vec<RankedMember> = ranking_from_reply(&raw);
        LeaderboardLine::from_ranking(&ranking)
    }

    /// Writes the members `items` with their scores under `key`, in order.
    pub fn zadd_entries(&self, cache: &mut CacheStore, key: &str, items: &Vec<RankedMember>)
        requires
            old(cache).wf(),
        ensures
            final(cache).wf(),
            final(cache)@ == cache_with_standings(old(cache)@, key@, ranking_view(items@)),
    {
        let ghost all = ranking_view(items@);
        let mut i: usize = 0;
        assert(all.take(0) =~= Seq::empty());
        while i < items.len()
            invariant
                i <= items.len(),
                all == ranking_view(items@),
                cache.wf(),
                cache@ == cache_with_standings(old(cache)@, key@, all.take(i as int)),
            decreases items.len() - i,
        {
            proof {
                let next = all.take(i + 1);
                assert(next.drop_last() =~= all.take(i as int));
                assert(next.last() == items@[i as int]@);
            }
            cache.zadd(key, items[i].score, items[i].member.as_str());
            i += 1;
        }
        assert(all.take(i as int) =~= all);
    }

    /// Writes the standings of all players, `players`, to the all-time
    /// ranking of the bucket that holds `date`.
    pub fn populate_all_time(
        &self,
        cache: &mut CacheStore,
        players: &Vec<RankedMember>,
        date: &LbDateTime,
    )
        requires
            old(cache).wf(),
            date.wf(),
        ensures
            final(cache).wf(),
            final(cache)@ == cache_with_standings(
                old(cache)@,
                spec_bucket_id(self.score_type, LeaderboardPeriod::AllTime, *date),
                ranking_view(players@),
            ),
    {
        let key: String = self.get_id(&LeaderboardPeriod::AllTime, date);
        self.zadd_entries(cache, key.as_str(), players);
    }

    /// Writes `amount` for `id` by `rule` in the rankings of all six
    /// periods for the buckets that hold `date`.
    pub fn write_all(
        &self,
        cache: &mut CacheStore,
        id: &String,
        rule: WriteRule,
        amount: u32,
        date: &LbDateTime,
    )
        requires
            old(cache).wf(),
            date.wf(),
        ensures
            final(cache).wf(),
            final(cache)@ == cache_write_all(
                old(cache)@,
                self.score_type,
                *date,
                id@,
                rule,
                amount,
                6,
            ),
    {
        let periods: Vec<LeaderboardPeriod> = LeaderboardPeriod::all();
        let mut i: usize = 0;
        while i < periods.len()
            invariant
                i <= periods.len(),
                periods@ == LeaderboardPeriod::spec_all(),
                cache.wf(),
                date.wf(),
                cache@ == cache_write_all(
                    old(cache)@,
                    self.score_type,
                    *date,
                    id@,
                    rule,
                    amount,
                    i as int,
                ),
            decreases periods.len() - i,
        {
            let period: LeaderboardPeriod = periods[i];
            let key: String = self.get_id(&period, date);
            let standing: u32 = match cache.zscore(key.as_str(), id.as_str()) {
                Some(standing) => standing,
                None => 0,
            };
            match rule {
                WriteRule::Replace => {
                    cache.zadd(key.as_str(), amount, id.as_str());
                },
                WriteRule::Increment => {
                    cache.zadd(key.as_str(), standing.saturating_add(amount), id.as_str());
                },
                WriteRule::SetIfHigher => {
                    if amount > standing {
                        cache.zadd(key.as_str(), amount, id.as_str());
                    }
                },
            }
            i += 1;
        }
    }

    /// Gives `id` the standing `score` in all six rankings.
    pub fn set(&self, cache: &mut CacheStore, id: &String, score: u32, date: &LbDateTime)
        requires
            old(cache).wf(),
            date.wf(),
        ensures
            final(cache).wf(),
            final(cache)@ == cache_write_all(
                old(cache)@,
                self.score_type,
                *date,
                id@,
                WriteRule::Replace,
                score,
                6,
            ),
    {
        self.write_all(cache, id, WriteRule::Replace, score, date);
    }

    /// Raises the standing of `id` by `incr`, or by 1 where none is given,
    /// in all six rankings.
    pub fn increment(
        &self,
        cache: &mut CacheStore,
        id: &String,
        incr: Option<u32>,
        date: &LbDateTime,
    )
        requires
            old(cache).wf(),
            date.wf(),
        ensures
            final(cache).wf(),
            final(cache)@ == cache_write_all(
                old(cache)@,
                self.score_type,
                *date,
                id@,
                WriteRule::Increment,
                match incr {
                    Some(amount) => amount,
                    None => 1,
                },
                6,
            ),
    {
        let amount: u32 = match incr {
            Some(amount) => amount,
            None => 1,
        };
        self.write_all(cache, id, WriteRule::Increment, amount, date);
    }

    /// Gives `id` the standing `new` in each of the six rankings in which
    /// it is higher than the standing there.
    pub fn set_if_higher(&self, cache: &mut CacheStore, id: &String, new: u32, date: &LbDateTime)
        requires
            old(cache).wf(),
            date.wf(),
        ensures
            final(cache).wf(),
            final(cache)@ == cache_write_all(
                old(cache)@,
                self.score_type,
                *date,
                id@,
                WriteRule::SetIfHigher,
                new,
                6,
            ),
    {
        self.write_all(cache, id, WriteRule::SetIfHigher, new, date);
    }

    /// The first `limit` lines of the ranking for the bucket of `period`
    /// that holds `date`.
    pub fn fetch_top(
        &self,
        cache: &CacheStore,
        period: &LeaderboardPeriod,
        limit: u32,
        date: &LbDateTime,
    ) -> (r: Vec<LeaderboardLine>)
        requires
            cache.wf(),
            date.wf(),
            limit >= 1,
        ensures
            lines_view(r@) == lines_of(
                cache_zrevrange(
                    cache@,
                    spec_bucket_id(self.score_type, *period, *date),
                    0,
                    limit - 1,
                ),
            ),
    {
        let key: String = self.get_id(period, date);
        let top: Vec<RankedMember> = cache.zrevrange_with_scores(
            key.as_str(),
            0,
            (limit - 1) as usize,
        );
        LeaderboardLine::from_ranking(&top)
    }

    /// The place of `id` in the ranking for the bucket of `period` that
    /// holds `date`, counted from 0 for the highest score.
    pub fn get_position(
        &self,
        cache: &CacheStore,
        id: &String,
        period: &LeaderboardPeriod,
        date: &LbDateTime,
    ) -> (r: Option<u64>)
        requires
            cache.wf(),
            date.wf(),
        ensures
            r is Some <==> has_member(
                ranking_at(cache@, spec_bucket_id(self.score_type, *period, *date)),
                id@,
            ),
            r matches Some(place) ==> place == member_index(
                ranking_at(cache@, spec_bucket_id(self.score_type, *period, *date)),
                id@,
            ),
    {
        let key: String = self.get_id(period, date);
        match cache.zrevrank(key.as_str(), id.as_str()) {
            Some(place) => Some(place as u64),
            None => None,
        }
    }
}

} // verus!
