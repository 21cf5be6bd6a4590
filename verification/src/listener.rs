//! What the events of a match mean for the leaderboards: for every event the
//! updates that it asks for.

use crate::score_type::ScoreType;
use vstd::prelude::*;

verus! {

/// An update that an event asks for: a delta for one score type.
#[derive(Clone, Copy, Debug, PartialEq, Eq, Structural)]
pub struct ScoreUpdate {
    /// What is counted.
    pub score_type: ScoreType,
    /// By how much.
    pub value: u32,
}

/// How a match ended for a participant.
#[derive(Clone, Copy, Debug, PartialEq, Eq, Structural)]
pub enum PlayerMatchResult {
    Win,
    Lose,
    Tie,
    /// The participant left before the end.
    Intermediate,
}

/// The update of `value` for `score_type`.
pub open spec fn update_of(score_type: ScoreType, value: u32) -> ScoreUpdate {
    ScoreUpdate { score_type, value }
}

/// `held_time` as a delta: itself where 32 bits hold it.
pub open spec fn held_time_delta(held_time: u64) -> u32 {
    held_time as u32
}

/// `game_playtime` as a delta: itself where 32 bits hold it, else 0.
pub open spec fn playtime_delta(game_playtime: u64) -> u32 {
    if game_playtime <= u32::MAX {
        game_playtime as u32
    } else {
        0
    }
}

/// The updates that the end of a match asks for, for a participant whose
/// statistics are tracked: one for the result, where the match was won, lost
/// or tied, then one match played, the messages sent and the time played.
pub open spec fn match_end_updates(
    match_result: PlayerMatchResult,
    messages_total: u32,
    game_playtime: u64,
) -> Seq<ScoreUpdate> {
    let result = match match_result {
        PlayerMatchResult::Win => seq![update_of(ScoreType::Wins, 1)],
        PlayerMatchResult::Lose => seq![update_of(ScoreType::Losses, 1)],
        PlayerMatchResult::Tie => seq![update_of(ScoreType::Ties, 1)],
        PlayerMatchResult::Intermediate => Seq::empty(),
    };
    result + seq![
        update_of(ScoreType::MatchesPlayed, 1),
        update_of(ScoreType::MessagesSent, messages_total),
        update_of(ScoreType::GamePlaytime, playtime_delta(game_playtime)),
    ]
}

/// Turns the events of a match into leaderboard updates.  Every hook takes
/// whether the match tracks statistics; where it does not, no event asks for
/// an update.
#[derive(Clone, Copy, Debug)]
pub struct LeaderboardListener {}

impl LeaderboardListener {
    /// The updates of `updates` where statistics are tracked, none otherwise.
    pub open spec fn when_tracked(tracking_stats: bool, updates: Seq<ScoreUpdate>) -> Seq<
        ScoreUpdate,
    > {
        if tracking_stats {
            updates
        } else {
            Seq::empty()
        }
    }

    /// One update of 1 for `score_type` where statistics are tracked.
    fn count_one(tracking_stats: bool, score_type: ScoreType) -> (r: Vec<ScoreUpdate>)
        ensures
            r@ == Self::when_tracked(tracking_stats, seq![update_of(score_type, 1)]),
    {
        let mut updates: Vec<ScoreUpdate> = Vec::new();
        if tracking_stats {
            updates.push(ScoreUpdate { score_type, value: 1 });
        }
        assert(updates@ =~= Self::when_tracked(tracking_stats, seq![update_of(score_type, 1)]));
        updates
    }

    /// Two updates where statistics are tracked.
    fn count_two(
        tracking_stats: bool,
        first: ScoreType,
        first_value: u32,
        second: ScoreType,
        second_value: u32,
    ) -> (r: Vec<ScoreUpdate>)
        ensures
            r@ == Self::when_tracked(
                tracking_stats,
                seq![update_of(first, first_value), update_of(second, second_value)],
            ),
    {
        let mut updates: Vec<ScoreUpdate> = Vec::new();
        if tracking_stats {
            updates.push(ScoreUpdate { score_type: first, value: first_value });
            updates.push(ScoreUpdate { score_type: second, value: second_value });
        }
        assert(updates@ =~= Self::when_tracked(
            tracking_stats,
            seq![update_of(first, first_value), update_of(second, second_value)],
        ));
        updates
    }

    /// The end of a match.
    pub fn on_match_end_v2(
        &self,
        tracking_stats: bool,
        match_result: PlayerMatchResult,
        messages_total: u32,
        game_playtime: u64,
    ) -> (r: Vec<ScoreUpdate>)
        ensures
            r@ == Self::when_tracked(
                tracking_stats,
                match_end_updates(match_result, messages_total, game_playtime),
            ),
    {
        let mut updates: Vec<ScoreUpdate> = Vec::new();
        if !tracking_stats {
            assert(updates@ =~= Seq::empty());
            return updates;
        }
        match match_result {
            PlayerMatchResult::Win => {
                updates.push(ScoreUpdate { score_type: ScoreType::Wins, value: 1 });
            },
            PlayerMatchResult::Lose => {
                updates.push(ScoreUpdate { score_type: ScoreType::Losses, value: 1 });
            },
            PlayerMatchResult::Tie => {
                updates.push(ScoreUpdate { score_type: ScoreType::Ties, value: 1 });
            },
            PlayerMatchResult::Intermediate => {},
        }
        updates.push(ScoreUpdate { score_type: ScoreType::MatchesPlayed, value: 1 });
        updates.push(ScoreUpdate { score_type: ScoreType::MessagesSent, value: messages_total });
        let playtime: u32 = if game_playtime <= 0xffff_ffff {
            game_playtime as u32
        } else {
            0
        };
        updates.push(ScoreUpdate { score_type: ScoreType::GamePlaytime, value: playtime });
        assert(updates@ =~= match_end_updates(match_result, messages_total, game_playtime));
        updates
    }

    /// A kill: one kill, and one first blood where it was the first of the match.
    pub fn on_kill(&self, tracking_stats: bool, first_blood: bool) -> (r: Vec<ScoreUpdate>)
        ensures
            r@ == Self::when_tracked(
                tracking_stats,
                if first_blood {
                    seq![update_of(ScoreType::Kills, 1), update_of(ScoreType::FirstBloods, 1)]
                } else {
                    seq![update_of(ScoreType::Kills, 1)]
                },
            ),
    {
        if first_blood {
            Self::count_two(tracking_stats, ScoreType::Kills, 1, ScoreType::FirstBloods, 1)
        } else {
            Self::count_one(tracking_stats, ScoreType::Kills)
        }
    }

    /// A death.
    pub fn on_death(&self, tracking_stats: bool) -> (r: Vec<ScoreUpdate>)
        ensures
            r@ == Self::when_tracked(tracking_stats, seq![update_of(ScoreType::Deaths, 1)]),
    {
        Self::count_one(tracking_stats, ScoreType::Deaths)
    }

    /// A killstreak of `amount` kills.
    pub fn on_killstreak(&self, tracking_stats: bool, amount: u32) -> (r: Vec<ScoreUpdate>)
        ensures
            r@ == Self::when_tracked(
                tracking_stats,
                seq![update_of(ScoreType::HighestKillstreak, amount)],
            ),
    {
        let mut updates: Vec<ScoreUpdate> = Vec::new();
        if tracking_stats {
            updates.push(ScoreUpdate { score_type: ScoreType::HighestKillstreak, value: amount });
        }
        assert(updates@ =~= Self::when_tracked(
            tracking_stats,
            seq![update_of(ScoreType::HighestKillstreak, amount)],
        ));
        updates
    }

    /// A destroyable destroyed, of which the player broke `block_count` blocks.
    pub fn on_destroyable_destroy(&self, tracking_stats: bool, block_count: u32) -> (r: Vec<
        ScoreUpdate,
    >)
        ensures
            r@ == Self::when_tracked(
                tracking_stats,
                seq![
                    update_of(ScoreType::DestroyableDestroys, 1),
                    update_of(ScoreType::DestroyableBlockDestroys, block_count),
                ],
            ),
    {
        Self::count_two(
            tracking_stats,
            ScoreType::DestroyableDestroys,
            1,
            ScoreType::DestroyableBlockDestroys,
            block_count,
        )
    }

    /// A core leaked.
    pub fn on_core_leak(&self, tracking_stats: bool) -> (r: Vec<ScoreUpdate>)
        ensures
            r@ == Self::when_tracked(
                tracking_stats,
                seq![
                    update_of(ScoreType::CoreLeaks, 1),
                    update_of(ScoreType::CoreBlockDestroys, 1),
                ],
            ),
    {
        Self::count_two(tracking_stats, ScoreType::CoreLeaks, 1, ScoreType::CoreBlockDestroys, 1)
    }

    /// A flag captured after it was held for `held_time`.
    pub fn on_flag_place(&self, tracking_stats: bool, held_time: u64) -> (r: Vec<ScoreUpdate>)
        requires
            held_time <= u32::MAX,
        ensures
            r@ == Self::when_tracked(
                tracking_stats,
                seq![
                    update_of(ScoreType::FlagCaptures, 1),
                    update_of(ScoreType::FlagHoldTime, held_time_delta(held_time)),
                ],
            ),
    {
        Self::count_two(
            tracking_stats,
            ScoreType::FlagCaptures,
            1,
            ScoreType::FlagHoldTime,
            held_time as u32,
        )
    }

    /// A flag picked up.
    pub fn on_flag_pickup(&self, tracking_stats: bool) -> (r: Vec<ScoreUpdate>)
        ensures
            r@ == Self::when_tracked(tracking_stats, seq![update_of(ScoreType::FlagPickups, 1)]),
    {
        Self::count_one(tracking_stats, ScoreType::FlagPickups)
    }

    /// A flag dropped after it was held for `held_time`.
    pub fn on_flag_drop(&self, tracking_stats: bool, held_time: u64) -> (r: Vec<ScoreUpdate>)
        requires
            held_time <= u32::MAX,
        ensures
            r@ == Self::when_tracked(
                tracking_stats,
                seq![
                    update_of(ScoreType::FlagDrops, 1),
                    update_of(ScoreType::FlagHoldTime, held_time_delta(held_time)),
                ],
            ),
    {
        Self::count_two(
            tracking_stats,
            ScoreType::FlagDrops,
            1,
            ScoreType::FlagHoldTime,
            held_time as u32,
        )
    }

    /// A flag holder stopped.
    pub fn on_flag_defend(&self, tracking_stats: bool) -> (r: Vec<ScoreUpdate>)
        ensures
            r@ == Self::when_tracked(tracking_stats, seq![update_of(ScoreType::FlagDefends, 1)]),
    {
        Self::count_one(tracking_stats, ScoreType::FlagDefends)
    }

    /// A wool captured.
    pub fn on_wool_place(&self, tracking_stats: bool) -> (r: Vec<ScoreUpdate>)
        ensures
            r@ == Self::when_tracked(tracking_stats, seq![update_of(ScoreType::WoolCaptures, 1)]),
    {
        Self::count_one(tracking_stats, ScoreType::WoolCaptures)
    }

    /// A wool picked up.
    pub fn on_wool_pickup(&self, tracking_stats: bool) -> (r: Vec<ScoreUpdate>)
        ensures
            r@ == Self::when_tracked(tracking_stats, seq![update_of(ScoreType::WoolPickups, 1)]),
    {
        Self::count_one(tracking_stats, ScoreType::WoolPickups)
    }

    /// A wool dropped.
    pub fn on_wool_drop(&self, tracking_stats: bool) -> (r: Vec<ScoreUpdate>)
        ensures
            r@ == Self::when_tracked(tracking_stats, seq![update_of(ScoreType::WoolDrops, 1)]),
    {
        Self::count_one(tracking_stats, ScoreType::WoolDrops)
    }

    /// A wool holder stopped.
    pub fn on_wool_defend(&self, tracking_stats: bool) -> (r: Vec<ScoreUpdate>)
        ensures
            r@ == Self::when_tracked(tracking_stats, seq![update_of(ScoreType::WoolDefends, 1)]),
    {
        Self::count_one(tracking_stats, ScoreType::WoolDefends)
    }

    /// A control point captured.
    pub fn on_control_point_capture(&self, tracking_stats: bool) -> (r: Vec<ScoreUpdate>)
        ensures
            r@ == Self::when_tracked(
                tracking_stats,
                seq![update_of(ScoreType::ControlPointCaptures, 1)],
            ),
    {
        Self::count_one(tracking_stats, ScoreType::ControlPointCaptures)
    }
}

} // verus!
