//! The engines of all score types.

use crate::cache::CacheStore;
use crate::cache::CacheView;
use crate::datetime::LbDateTime;
use crate::engine::fetch_post;
use crate::engine::spec_process_update;
use crate::engine::spec_update_outcome;
use crate::engine::update_post;
use crate::engine::LeaderboardFetchError;
use crate::engine::LeaderboardV2;
use crate::engine::UpdateOutcome;
use crate::entry::LeaderboardEntryView;
use crate::line::LeaderboardLine;
use crate::listener::ScoreUpdate;
use crate::log::LogStore;
use crate::period::LeaderboardPeriod;
use crate::score_type::ScoreType;
use vstd::prelude::*;

verus! {

/// One engine for every score type.
#[derive(Debug)]
pub struct MarsLeaderboards {
    pub kills: LeaderboardV2,
    pub deaths: LeaderboardV2,
    pub first_bloods: LeaderboardV2,
    pub wins: LeaderboardV2,
    pub losses: LeaderboardV2,
    pub ties: LeaderboardV2,
    pub xp: LeaderboardV2,
    pub messages_sent: LeaderboardV2,
    pub matches_played: LeaderboardV2,
    pub server_playtime: LeaderboardV2,
    pub game_playtime: LeaderboardV2,
    pub core_leaks: LeaderboardV2,
    pub core_block_destroys: LeaderboardV2,
    pub destroyable_destroys: LeaderboardV2,
    pub destroyable_block_destroys: LeaderboardV2,
    pub flag_captures: LeaderboardV2,
    pub flag_drops: LeaderboardV2,
    pub flag_pickups: LeaderboardV2,
    pub flag_defends: LeaderboardV2,
    pub flag_hold_time: LeaderboardV2,
    pub wool_captures: LeaderboardV2,
    pub wool_drops: LeaderboardV2,
    pub wool_pickups: LeaderboardV2,
    pub wool_defends: LeaderboardV2,
    pub control_point_captures: LeaderboardV2,
    pub highest_killstreak: LeaderboardV2,
}

impl MarsLeaderboards {
    /// The engine of `score_type`.
    pub open spec fn spec_from_score_type(&self, score_type: ScoreType) -> LeaderboardV2 {
        match score_type {
            ScoreType::Kills => self.kills,
            ScoreType::Deaths => self.deaths,
            ScoreType::FirstBloods => self.first_bloods,
            ScoreType::Wins => self.wins,
            ScoreType::Losses => self.losses,
            ScoreType::Ties => self.ties,
            ScoreType::Xp => self.xp,
            ScoreType::MessagesSent => self.messages_sent,
            ScoreType::MatchesPlayed => self.matches_played,
            ScoreType::ServerPlaytime => self.server_playtime,
            ScoreType::GamePlaytime => self.game_playtime,
            ScoreType::CoreLeaks => self.core_leaks,
            ScoreType::CoreBlockDestroys => self.core_block_destroys,
            ScoreType::DestroyableDestroys => self.destroyable_destroys,
            ScoreType::DestroyableBlockDestroys => self.destroyable_block_destroys,
            ScoreType::FlagCaptures => self.flag_captures,
            ScoreType::FlagDrops => self.flag_drops,
            ScoreType::FlagPickups => self.flag_pickups,
            ScoreType::FlagDefends => self.flag_defends,
            ScoreType::FlagHoldTime => self.flag_hold_time,
            ScoreType::WoolCaptures => self.wool_captures,
            ScoreType::WoolDrops => self.wool_drops,
            ScoreType::WoolPickups => self.wool_pickups,
            ScoreType::WoolDefends => self.wool_defends,
            ScoreType::ControlPointCaptures => self.control_point_captures,
            ScoreType::HighestKillstreak => self.highest_killstreak,
        }
    }

    /// The engines with `engine` in the place of the engine of `score_type`.
    pub open spec fn spec_with(
        &self,
        score_type: ScoreType,
        engine: LeaderboardV2,
    ) -> MarsLeaderboards {
        match score_type {
            ScoreType::Kills => MarsLeaderboards {
                kills: engine,
                ..*self
            },
            ScoreType::Deaths => MarsLeaderboards {
                deaths: engine,
                ..*self
            },
            ScoreType::FirstBloods => MarsLeaderboards {
                first_bloods: engine,
                ..*self
            },
            ScoreType::Wins => MarsLeaderboards {
                wins: engine,
                ..*self
            },
            ScoreType::Losses => MarsLeaderboards {
                losses: engine,
                ..*self
            },
            ScoreType::Ties => MarsLeaderboards {
                ties: engine,
                ..*self
            },
            ScoreType::Xp => MarsLeaderboards {
                xp: engine,
                ..*self
            },
            ScoreType::MessagesSent => MarsLeaderboards {
                messages_sent: engine,
                ..*self
            },
            ScoreType::MatchesPlayed => MarsLeaderboards {
                matches_played: engine,
                ..*self
            },
            ScoreType::ServerPlaytime => MarsLeaderboards {
                server_playtime: engine,
                ..*self
            },
            ScoreType::GamePlaytime => MarsLeaderboards {
                game_playtime: engine,
                ..*self
            },
            ScoreType::CoreLeaks => MarsLeaderboards {
                core_leaks: engine,
                ..*self
            },
            ScoreType::CoreBlockDestroys => MarsLeaderboards {
                core_block_destroys: engine,
                ..*self
            },
            ScoreType::DestroyableDestroys => MarsLeaderboards {
                destroyable_destroys: engine,
                ..*self
            },
            ScoreType::DestroyableBlockDestroys => MarsLeaderboards {
                destroyable_block_destroys: engine,
                ..*self
            },
            ScoreType::FlagCaptures => MarsLeaderboards {
                flag_captures: engine,
                ..*self
            },
            ScoreType::FlagDrops => MarsLeaderboards {
                flag_drops: engine,
                ..*self
            },
            ScoreType::FlagPickups => MarsLeaderboards {
                flag_pickups: engine,
                ..*self
            },
            ScoreType::FlagDefends => MarsLeaderboards {
                flag_defends: engine,
                ..*self
            },
            ScoreType::FlagHoldTime => MarsLeaderboards {
                flag_hold_time: engine,
                ..*self
            },
            ScoreType::WoolCaptures => MarsLeaderboards {
                wool_captures: engine,
                ..*self
            },
            ScoreType::WoolDrops => MarsLeaderboards {
                wool_drops: engine,
                ..*self
            },
            ScoreType::WoolPickups => MarsLeaderboards {
                wool_pickups: engine,
                ..*self
            },
            ScoreType::WoolDefends => MarsLeaderboards {
                wool_defends: engine,
                ..*self
            },
            ScoreType::ControlPointCaptures => MarsLeaderboards {
                control_point_captures: engine,
                ..*self
            },
            ScoreType::HighestKillstreak => MarsLeaderboards {
                highest_killstreak: engine,
                ..*self
            },
        }
    }

    /// Replacing the engine of one score type changes that engine alone.
    pub proof fn lemma_with(&self, score_type: ScoreType, engine: LeaderboardV2, other: ScoreType)
        ensures
            self.spec_with(score_type, engine).spec_from_score_type(other) == (if other
                == score_type {
                engine
            } else {
                self.spec_from_score_type(other)
            }),
    {
    }

    /// Replacing an engine by a well-formed one for the same score type
    /// keeps the engines well-formed.
    pub proof fn lemma_with_keeps_wf(&self, score_type: ScoreType, engine: LeaderboardV2)
        requires
            self.wf(),
            engine.wf(),
            engine.score_type == score_type,
        ensures
            self.spec_with(score_type, engine).wf(),
            forall|other: ScoreType|
                other != score_type ==> #[trigger] self.spec_with(
                    score_type,
                    engine,
                ).spec_from_score_type(other) == self.spec_from_score_type(other),
            self.spec_with(score_type, engine).spec_from_score_type(score_type) == engine,
    {
        let after = self.spec_with(score_type, engine);
        assert forall|other: ScoreType|
            (#[trigger] after.spec_from_score_type(other)).score_type == other
                && after.spec_from_score_type(other).wf() by {
            self.lemma_with(score_type, engine, other);
            assert(self.spec_from_score_type(other).wf());
        }
        assert forall|other: ScoreType|
            other != score_type implies #[trigger] after.spec_from_score_type(other)
            == self.spec_from_score_type(other) by {
            self.lemma_with(score_type, engine, other);
        }
        self.lemma_with(score_type, engine, score_type);
    }

    /// Every engine counts the score type that it stands for, and is
    /// well-formed.
    pub open spec fn wf(&self) -> bool {
        forall|score_type: ScoreType|
            (#[trigger] self.spec_from_score_type(score_type)).score_type == score_type
                && self.spec_from_score_type(score_type).wf()
    }

    /// Engines for all score types, none of which has touched a view yet.
    pub fn new() -> (r: MarsLeaderboards)
        ensures
            r.wf(),
            forall|score_type: ScoreType, period: LeaderboardPeriod|
                (#[trigger] r.spec_from_score_type(score_type).lb_metadata.spec_get(period))
                    is None,
            forall|score_type: ScoreType|
                (#[trigger] r.spec_from_score_type(score_type)).rebuilding is None,
    {
        MarsLeaderboards {
            kills: LeaderboardV2::new(ScoreType::Kills),
            deaths: LeaderboardV2::new(ScoreType::Deaths),
            first_bloods: LeaderboardV2::new(ScoreType::FirstBloods),
            wins: LeaderboardV2::new(ScoreType::Wins),
            losses: LeaderboardV2::new(ScoreType::Losses),
            ties: LeaderboardV2::new(ScoreType::Ties),
            xp: LeaderboardV2::new(ScoreType::Xp),
            messages_sent: LeaderboardV2::new(ScoreType::MessagesSent),
            matches_played: LeaderboardV2::new(ScoreType::MatchesPlayed),
            server_playtime: LeaderboardV2::new(ScoreType::ServerPlaytime),
            game_playtime: LeaderboardV2::new(ScoreType::GamePlaytime),
            core_leaks: LeaderboardV2::new(ScoreType::CoreLeaks),
            core_block_destroys: LeaderboardV2::new(ScoreType::CoreBlockDestroys),
            destroyable_destroys: LeaderboardV2::new(ScoreType::DestroyableDestroys),
            destroyable_block_destroys: LeaderboardV2::new(ScoreType::DestroyableBlockDestroys),
            flag_captures: LeaderboardV2::new(ScoreType::FlagCaptures),
            flag_drops: LeaderboardV2::new(ScoreType::FlagDrops),
            flag_pickups: LeaderboardV2::new(ScoreType::FlagPickups),
            flag_defends: LeaderboardV2::new(ScoreType::FlagDefends),
            flag_hold_time: LeaderboardV2::new(ScoreType::FlagHoldTime),
            wool_captures: LeaderboardV2::new(ScoreType::WoolCaptures),
            wool_drops: LeaderboardV2::new(ScoreType::WoolDrops),
            wool_pickups: LeaderboardV2::new(ScoreType::WoolPickups),
            wool_defends: LeaderboardV2::new(ScoreType::WoolDefends),
            control_point_captures: LeaderboardV2::new(ScoreType::ControlPointCaptures),
            highest_killstreak: LeaderboardV2::new(ScoreType::HighestKillstreak),
        }
    }

    /// The engine of `score_type`.
    pub fn from_score_type(&self, score_type: ScoreType) -> (r: &LeaderboardV2)
        ensures
            *r == self.spec_from_score_type(score_type),
    {
        match score_type {
            ScoreType::Kills => &self.kills,
            ScoreType::Deaths => &self.deaths,
            ScoreType::FirstBloods => &self.first_bloods,
            ScoreType::Wins => &self.wins,
            ScoreType::Losses => &self.losses,
            ScoreType::Ties => &self.ties,
            ScoreType::Xp => &self.xp,
            ScoreType::MessagesSent => &self.messages_sent,
            ScoreType::MatchesPlayed => &self.matches_played,
            ScoreType::ServerPlaytime => &self.server_playtime,
            ScoreType::GamePlaytime => &self.game_playtime,
            ScoreType::CoreLeaks => &self.core_leaks,
            ScoreType::CoreBlockDestroys => &self.core_block_destroys,
            ScoreType::DestroyableDestroys => &self.destroyable_destroys,
            ScoreType::DestroyableBlockDestroys => &self.destroyable_block_destroys,
            ScoreType::FlagCaptures => &self.flag_captures,
            ScoreType::FlagDrops => &self.flag_drops,
            ScoreType::FlagPickups => &self.flag_pickups,
            ScoreType::FlagDefends => &self.flag_defends,
            ScoreType::FlagHoldTime => &self.flag_hold_time,
            ScoreType::WoolCaptures => &self.wool_captures,
            ScoreType::WoolDrops => &self.wool_drops,
            ScoreType::WoolPickups => &self.wool_pickups,
            ScoreType::WoolDefends => &self.wool_defends,
            ScoreType::ControlPointCaptures => &self.control_point_captures,
            ScoreType::HighestKillstreak => &self.highest_killstreak,
        }
    }

    /// The engine of `score_type`, to be changed in place.
    pub fn from_score_type_mut(&mut self, score_type: ScoreType) -> (r: &mut LeaderboardV2)
        ensures
            *r == old(self).spec_from_score_type(score_type),
            *final(self) == old(self).spec_with(score_type, *final(r)),
    {
        match score_type {
            ScoreType::Kills => &mut self.kills,
            ScoreType::Deaths => &mut self.deaths,
            ScoreType::FirstBloods => &mut self.first_bloods,
            ScoreType::Wins => &mut self.wins,
            ScoreType::Losses => &mut self.losses,
            ScoreType::Ties => &mut self.ties,
            ScoreType::Xp => &mut self.xp,
            ScoreType::MessagesSent => &mut self.messages_sent,
            ScoreType::MatchesPlayed => &mut self.matches_played,
            ScoreType::ServerPlaytime => &mut self.server_playtime,
            ScoreType::GamePlaytime => &mut self.game_playtime,
            ScoreType::CoreLeaks => &mut self.core_leaks,
            ScoreType::CoreBlockDestroys => &mut self.core_block_destroys,
            ScoreType::DestroyableDestroys => &mut self.destroyable_destroys,
            ScoreType::DestroyableBlockDestroys => &mut self.destroyable_block_destroys,
            ScoreType::FlagCaptures => &mut self.flag_captures,
            ScoreType::FlagDrops => &mut self.flag_drops,
            ScoreType::FlagPickups => &mut self.flag_pickups,
            ScoreType::FlagDefends => &mut self.flag_defends,
            ScoreType::FlagHoldTime => &mut self.flag_hold_time,
            ScoreType::WoolCaptures => &mut self.wool_captures,
            ScoreType::WoolDrops => &mut self.wool_drops,
            ScoreType::WoolPickups => &mut self.wool_pickups,
            ScoreType::WoolDefends => &mut self.wool_defends,
            ScoreType::ControlPointCaptures => &mut self.control_point_captures,
            ScoreType::HighestKillstreak => &mut self.highest_killstreak,
        }
    }

    /// Applies the update `value` of `player_id` at `now` to the engine of
    /// `score_type`; the other engines are left as they are.
    pub fn process_update(
        &mut self,
        log: &mut LogStore,
        cache: &mut CacheStore,
        score_type: ScoreType,
        player_id: String,
        value: u32,
        now: &LbDateTime,
    ) -> (r: UpdateOutcome)
        requires
            old(self).wf(),
            old(cache).wf(),
            now.wf(),
            spec_update_outcome(
                score_type,
                old(cache)@,
                old(self).spec_from_score_type(score_type).rebuilding is Some,
                player_id@,
                value,
            ) == UpdateOutcome::Applied ==> old(log).online,
        ensures
            final(self).wf(),
            final(cache).wf(),
            final(log).online == old(log).online,
            update_post(
                old(self).spec_from_score_type(score_type),
                final(self).spec_from_score_type(score_type),
                old(log)@,
                final(log)@,
                old(cache)@,
                final(cache)@,
                player_id@,
                value,
                *now,
                r,
            ),
            forall|other: ScoreType|
                other != score_type ==> #[trigger] final(self).spec_from_score_type(other) == old(
                    self,
                ).spec_from_score_type(other),
    {
        proof {
            assert(old(self).spec_from_score_type(score_type).wf());
        }
        let engine: &mut LeaderboardV2 = self.from_score_type_mut(score_type);
        let r: UpdateOutcome = engine.process_update(log, cache, player_id, value, now);
        proof {
            old(self).lemma_with_keeps_wf(score_type, *engine);
        }
        r
    }

    /// The first `limit` lines of the leaderboard of `score_type` over
    /// `period` at `now`; the other engines are left as they are.
    pub fn fetch_top(
        &mut self,
        log: &LogStore,
        cache: &mut CacheStore,
        score_type: ScoreType,
        period: &LeaderboardPeriod,
        limit: u32,
        now: &LbDateTime,
    ) -> (r: Result<Vec<LeaderboardLine>, LeaderboardFetchError>)
        requires
            old(self).wf(),
            old(cache).wf(),
            now.wf(),
            limit >= 1,
        ensures
            final(self).wf(),
            final(cache).wf(),
            fetch_post(
                old(self).spec_from_score_type(score_type),
                final(self).spec_from_score_type(score_type),
                log@,
                log.online,
                old(cache)@,
                final(cache)@,
                *period,
                limit,
                *now,
                r,
            ),
            forall|other: ScoreType|
                other != score_type ==> #[trigger] final(self).spec_from_score_type(other) == old(
                    self,
                ).spec_from_score_type(other),
    {
        proof {
            assert(old(self).spec_from_score_type(score_type).wf());
        }
        let engine: &mut LeaderboardV2 = self.from_score_type_mut(score_type);
        let r: Result<Vec<LeaderboardLine>, LeaderboardFetchError> = engine.fetch_top(
            log,
            cache,
            period,
            limit,
            now,
        );
        proof {
            old(self).lemma_with_keeps_wf(score_type, *engine);
        }
        r
    }
}

/// The engines, the log and the cache together.
pub ghost struct LeaderboardsState {
    pub engines: MarsLeaderboards,
    pub log: Seq<LeaderboardEntryView>,
    pub cache: CacheView,
}

/// The engine after the update `value` of `player`: every view has
/// metadata where the update was applied, and nothing has changed where it
/// was not.
pub open spec fn engine_after_update(
    engine: LeaderboardV2,
    cache: CacheView,
    player: Seq<char>,
    value: u32,
) -> LeaderboardV2 {
    if spec_update_outcome(
        engine.score_type,
        cache,
        engine.rebuilding is Some,
        player,
        value,
    ) == UpdateOutcome::Applied {
        LeaderboardV2 {
            score_type: engine.score_type,
            lb_metadata: engine.lb_metadata.spec_ensure_all(),
            rebuilding: engine.rebuilding,
        }
    } else {
        engine
    }
}

/// What becomes of `update` for `player` in `state`.
pub open spec fn routed_outcome(
    state: LeaderboardsState,
    player: Seq<char>,
    update: ScoreUpdate,
) -> UpdateOutcome {
    let engine = state.engines.spec_from_score_type(update.score_type);
    spec_update_outcome(
        engine.score_type,
        state.cache,
        engine.rebuilding is Some,
        player,
        update.value,
    )
}

/// The state after `update` for `player` has been handed to the engine of
/// its score type at `now`.
pub open spec fn route_update(
    state: LeaderboardsState,
    player: Seq<char>,
    update: ScoreUpdate,
    now: LbDateTime,
) -> LeaderboardsState {
    let engine = state.engines.spec_from_score_type(update.score_type);
    if routed_outcome(state, player, update) == UpdateOutcome::Applied {
        let after = spec_process_update(
            engine.score_type,
            state.log,
            state.cache,
            player,
            update.value,
            now,
        );
        LeaderboardsState {
            engines: state.engines.spec_with(
                update.score_type,
                engine_after_update(engine, state.cache, player, update.value),
            ),
            log: after.0,
            cache: after.1,
        }
    } else {
        state
    }
}

/// The state after the updates `updates` for `player` have been handed to
/// their engines at `now`, in order.
pub open spec fn route_updates(
    state: LeaderboardsState,
    player: Seq<char>,
    updates: Seq<ScoreUpdate>,
    now: LbDateTime,
) -> LeaderboardsState
    decreases updates.len(),
{
    if updates.len() == 0 {
        state
    } else {
        route_update(
            route_updates(state, player, updates.drop_last(), now),
            player,
            updates.last(),
            now,
        )
    }
}

/// What becomes of each of the updates `updates`, in order.
pub open spec fn routed_outcomes(
    state: LeaderboardsState,
    player: Seq<char>,
    updates: Seq<ScoreUpdate>,
    now: LbDateTime,
) -> Seq<UpdateOutcome>
    decreases updates.len(),
{
    if updates.len() == 0 {
        Seq::empty()
    } else {
        routed_outcomes(state, player, updates.drop_last(), now).push(
            routed_outcome(
                route_updates(state, player, updates.drop_last(), now),
                player,
                updates.last(),
            ),
        )
    }
}

impl MarsLeaderboards {
    /// Hands the updates `updates` for `player_id` to the engines of their
    /// score types at `now`, in order, and says what became of each.
    pub fn apply_updates(
        &mut self,
        log: &mut LogStore,
        cache: &mut CacheStore,
        player_id: &String,
        updates: &Vec<ScoreUpdate>,
        now: &LbDateTime,
    ) -> (r: Vec<UpdateOutcome>)
        requires
            old(self).wf(),
            old(cache).wf(),
            old(log).online,
            now.wf(),
        ensures
            final(self).wf(),
            final(cache).wf(),
            final(log).online,
            (LeaderboardsState {
                engines: *final(self),
                log: final(log)@,
                cache: final(cache)@,
            }) == route_updates(
                LeaderboardsState { engines: *old(self), log: old(log)@, cache: old(cache)@ },
                player_id@,
                updates@,
                *now,
            ),
            r@ == routed_outcomes(
                LeaderboardsState { engines: *old(self), log: old(log)@, cache: old(cache)@ },
                player_id@,
                updates@,
                *now,
            ),
    {
        let ghost start = LeaderboardsState {
            engines: *old(self),
            log: old(log)@,
            cache: old(cache)@,
        };
        let mut outcomes: Vec<UpdateOutcome> = Vec::new();
        let mut i: usize = 0;
        assert(updates@.take(0) =~= Seq::empty());
        while i < updates.len()
            invariant
                i <= updates.len(),
                self.wf(),
                cache.wf(),
                log.online,
                now.wf(),
                (LeaderboardsState { engines: *self, log: log@, cache: cache@ }) == route_updates(
                    start,
                    player_id@,
                    updates@.take(i as int),
                    *now,
                ),
                outcomes@ == routed_outcomes(start, player_id@, updates@.take(i as int), *now),
            decreases updates.len() - i,
        {
            let ghost before = LeaderboardsState { engines: *self, log: log@, cache: cache@ };
            let update: ScoreUpdate = updates[i];
            proof {
                let next = updates@.take(i + 1);
                assert(next.drop_last() =~= updates@.take(i as int));
                assert(next.last() == update);
                assert(before.engines.spec_from_score_type(update.score_type).score_type
                    == update.score_type);
            }
            let outcome: UpdateOutcome = self.process_update(
                log,
                cache,
                update.score_type,
                player_id.clone(),
                update.value,
                now,
            );
            outcomes.push(outcome);
            proof {
                let engine = before.engines.spec_from_score_type(update.score_type);
                let after = self.spec_from_score_type(update.score_type);
                assert(after == engine_after_update(
                    engine,
                    before.cache,
                    player_id@,
                    update.value,
                ));
                before.engines.lemma_replaced(*self, update.score_type);
                assert((LeaderboardsState { engines: *self, log: log@, cache: cache@ })
                    == route_update(before, player_id@, update, *now));
            }
            i += 1;
        }
        assert(updates@.take(i as int) =~= updates@);
        outcomes
    }

    /// Engines that differ from these in the engine of one score type alone
    /// are these with that engine replaced.
    pub proof fn lemma_replaced(&self, after: MarsLeaderboards, score_type: ScoreType)
        requires
            forall|other: ScoreType|
                other != score_type ==> #[trigger] after.spec_from_score_type(other)
                    == self.spec_from_score_type(other),
        ensures
            after == self.spec_with(score_type, after.spec_from_score_type(score_type)),
    {
        assert(score_type != ScoreType::Kills ==> after.spec_from_score_type(
            ScoreType::Kills,
        ) == self.spec_from_score_type(ScoreType::Kills));
        assert(score_type != ScoreType::Deaths ==> after.spec_from_score_type(
            ScoreType::Deaths,
        ) == self.spec_from_score_type(ScoreType::Deaths));
        assert(score_type != ScoreType::FirstBloods ==> after.spec_from_score_type(
            ScoreType::FirstBloods,
        ) == self.spec_from_score_type(ScoreType::FirstBloods));
        assert(score_type != ScoreType::Wins ==> after.spec_from_score_type(
            ScoreType::Wins,
        ) == self.spec_from_score_type(ScoreType::Wins));
        assert(score_type != ScoreType::Losses ==> after.spec_from_score_type(
            ScoreType::Losses,
        ) == self.spec_from_score_type(ScoreType::Losses));
        assert(score_type != ScoreType::Ties ==> after.spec_from_score_type(
            ScoreType::Ties,
        ) == self.spec_from_score_type(ScoreType::Ties));
        assert(score_type != ScoreType::Xp ==> after.spec_from_score_type(
            ScoreType::Xp,
        ) == self.spec_from_score_type(ScoreType::Xp));
        assert(score_type != ScoreType::MessagesSent ==> after.spec_from_score_type(
            ScoreType::MessagesSent,
        ) == self.spec_from_score_type(ScoreType::MessagesSent));
        assert(score_type != ScoreType::MatchesPlayed ==> after.spec_from_score_type(
            ScoreType::MatchesPlayed,
        ) == self.spec_from_score_type(ScoreType::MatchesPlayed));
        assert(score_type != ScoreType::ServerPlaytime ==> after.spec_from_score_type(
            ScoreType::ServerPlaytime,
        ) == self.spec_from_score_type(ScoreType::ServerPlaytime));
        assert(score_type != ScoreType::GamePlaytime ==> after.spec_from_score_type(
            ScoreType::GamePlaytime,
        ) == self.spec_from_score_type(ScoreType::GamePlaytime));
        assert(score_type != ScoreType::CoreLeaks ==> after.spec_from_score_type(
            ScoreType::CoreLeaks,
        ) == self.spec_from_score_type(ScoreType::CoreLeaks));
        assert(score_type != ScoreType::CoreBlockDestroys ==> after.spec_from_score_type(
            ScoreType::CoreBlockDestroys,
        ) == self.spec_from_score_type(ScoreType::CoreBlockDestroys));
        assert(score_type != ScoreType::DestroyableDestroys ==> after.spec_from_score_type(
            ScoreType::DestroyableDestroys,
        ) == self.spec_from_score_type(ScoreType::DestroyableDestroys));
        assert(score_type != ScoreType::DestroyableBlockDestroys ==> after.spec_from_score_type(
            ScoreType::DestroyableBlockDestroys,
        ) == self.spec_from_score_type(ScoreType::DestroyableBlockDestroys));
        assert(score_type != ScoreType::FlagCaptures ==> after.spec_from_score_type(
            ScoreType::FlagCaptures,
        ) == self.spec_from_score_type(ScoreType::FlagCaptures));
        assert(score_type != ScoreType::FlagDrops ==> after.spec_from_score_type(
            ScoreType::FlagDrops,
        ) == self.spec_from_score_type(ScoreType::FlagDrops));
        assert(score_type != ScoreType::FlagPickups ==> after.spec_from_score_type(
            ScoreType::FlagPickups,
        ) == self.spec_from_score_type(ScoreType::FlagPickups));
        assert(score_type != ScoreType::FlagDefends ==> after.spec_from_score_type(
            ScoreType::FlagDefends,
        ) == self.spec_from_score_type(ScoreType::FlagDefends));
        assert(score_type != ScoreType::FlagHoldTime ==> after.spec_from_score_type(
            ScoreType::FlagHoldTime,
        ) == self.spec_from_score_type(ScoreType::FlagHoldTime));
        assert(score_type != ScoreType::WoolCaptures ==> after.spec_from_score_type(
            ScoreType::WoolCaptures,
        ) == self.spec_from_score_type(ScoreType::WoolCaptures));
        assert(score_type != ScoreType::WoolDrops ==> after.spec_from_score_type(
            ScoreType::WoolDrops,
        ) == self.spec_from_score_type(ScoreType::WoolDrops));
        assert(score_type != ScoreType::WoolPickups ==> after.spec_from_score_type(
            ScoreType::WoolPickups,
        ) == self.spec_from_score_type(ScoreType::WoolPickups));
        assert(score_type != ScoreType::WoolDefends ==> after.spec_from_score_type(
            ScoreType::WoolDefends,
        ) == self.spec_from_score_type(ScoreType::WoolDefends));
        assert(score_type != ScoreType::ControlPointCaptures ==> after.spec_from_score_type(
            ScoreType::ControlPointCaptures,
        ) == self.spec_from_score_type(ScoreType::ControlPointCaptures));
        assert(score_type != ScoreType::HighestKillstreak ==> after.spec_from_score_type(
            ScoreType::HighestKillstreak,
        ) == self.spec_from_score_type(ScoreType::HighestKillstreak));
    }
}

impl ScoreType {
    /// The engine of this score type among `lbs`.
    pub fn to_leaderboard<'a>(&self, lbs: &'a MarsLeaderboards) -> (r: &'a LeaderboardV2)
        ensures
            *r == lbs.spec_from_score_type(*self),
    {
        match self {
            ScoreType::Kills => &lbs.kills,
            ScoreType::Deaths => &lbs.deaths,
            ScoreType::FirstBloods => &lbs.first_bloods,
            ScoreType::Wins => &lbs.wins,
            ScoreType::Losses => &lbs.losses,
            ScoreType::Ties => &lbs.ties,
            ScoreType::Xp => &lbs.xp,
            ScoreType::MessagesSent => &lbs.messages_sent,
            ScoreType::MatchesPlayed => &lbs.matches_played,
            ScoreType::ServerPlaytime => &lbs.server_playtime,
            ScoreType::GamePlaytime => &lbs.game_playtime,
            ScoreType::CoreLeaks => &lbs.core_leaks,
            ScoreType::CoreBlockDestroys => &lbs.core_block_destroys,
            ScoreType::DestroyableDestroys => &lbs.destroyable_destroys,
            ScoreType::DestroyableBlockDestroys => &lbs.destroyable_block_destroys,
            ScoreType::FlagCaptures => &lbs.flag_captures,
            ScoreType::FlagDrops => &lbs.flag_drops,
            ScoreType::FlagPickups => &lbs.flag_pickups,
            ScoreType::FlagDefends => &lbs.flag_defends,
            ScoreType::FlagHoldTime => &lbs.flag_hold_time,
            ScoreType::WoolCaptures => &lbs.wool_captures,
            ScoreType::WoolDrops => &lbs.wool_drops,
            ScoreType::WoolPickups => &lbs.wool_pickups,
            ScoreType::WoolDefends => &lbs.wool_defends,
            ScoreType::ControlPointCaptures => &lbs.control_point_captures,
            ScoreType::HighestKillstreak => &lbs.highest_killstreak,
        }
    }
}

} // verus!
