//! Score types and the two ways in which their values are aggregated.

use crate::text::str_equal;
use vstd::prelude::*;
use vstd::string::*;

verus! {

/// What is counted on a leaderboard.
#[derive(Clone, Copy, Debug, PartialEq, Eq, Hash, Structural)]
pub enum ScoreType {
    Kills,
    Deaths,
    FirstBloods,
    Wins,
    Losses,
    Ties,
    Xp,
    MessagesSent,
    MatchesPlayed,
    ServerPlaytime,
    GamePlaytime,
    CoreLeaks,
    CoreBlockDestroys,
    DestroyableDestroys,
    DestroyableBlockDestroys,
    FlagCaptures,
    FlagDrops,
    FlagPickups,
    FlagDefends,
    FlagHoldTime,
    WoolCaptures,
    WoolDrops,
    WoolPickups,
    WoolDefends,
    ControlPointCaptures,
    HighestKillstreak,
}

/// How the values of a score type are combined.
#[derive(Clone, Copy, Debug, PartialEq, Eq, Hash, Structural)]
pub enum ScoreTypeAggregation {
    /// Values add up.
    Sum,
    /// The greatest value stands.
    Max,
}

impl ScoreTypeAggregation {
    /// A delta of zero changes no standing, whatever the aggregation.
    pub open spec fn spec_is_delta_useless(self, delta: u32) -> bool {
        delta == 0
    }

    /// The standing that results when `new` is merged into `old`: their sum,
    /// held at `u32::MAX`, or the greater of the two.
    pub open spec fn spec_compare(self, old_value: u32, new_value: u32) -> u32 {
        match self {
            ScoreTypeAggregation::Sum => if old_value + new_value > u32::MAX {
                u32::MAX
            } else {
                (old_value + new_value) as u32
            },
            ScoreTypeAggregation::Max => if old_value >= new_value {
                old_value
            } else {
                new_value
            },
        }
    }

    /// Whether updates have to be applied in the order in which they were
    /// made.  No aggregation asks for that.
    pub open spec fn spec_requires_sequential_consistency(self) -> bool {
        false
    }

    /// Whether a delta is known to change nothing.  `false` says only that
    /// this is not known: for a maximum the standing decides.
    pub fn is_delta_useless(&self, delta: u32) -> (r: bool)
        ensures
            r == self.spec_is_delta_useless(delta),
    {
        delta == 0
    }

    /// Whether updates have to be applied in the order in which they were made.
    pub fn requires_sequential_consistency(&self) -> (r: bool)
        ensures
            r == self.spec_requires_sequential_consistency(),
    {
        match self {
            ScoreTypeAggregation::Sum => false,
            ScoreTypeAggregation::Max => false,
        }
    }

    /// Merges `new_value` into the standing `old_value`.
    pub fn compare(&self, old_value: u32, new_value: u32) -> (r: u32)
        ensures
            r == self.spec_compare(old_value, new_value),
    {
        match self {
            ScoreTypeAggregation::Sum => old_value.saturating_add(new_value),
            ScoreTypeAggregation::Max => if old_value >= new_value {
                old_value
            } else {
                new_value
            },
        }
    }
}

impl ScoreType {
    /// How values of this score type are combined: the highest killstreak is
    /// a maximum, everything else a sum.
    pub open spec fn spec_aggregation(self) -> ScoreTypeAggregation {
        if self == ScoreType::HighestKillstreak {
            ScoreTypeAggregation::Max
        } else {
            ScoreTypeAggregation::Sum
        }
    }

    /// The tag of the score type, in upper case with underscores.
    pub open spec fn spec_name(self) -> Seq<char> {
        match self {
            ScoreType::Kills => "KILLS"@,
            ScoreType::Deaths => "DEATHS"@,
            ScoreType::FirstBloods => "FIRST_BLOODS"@,
            ScoreType::Wins => "WINS"@,
            ScoreType::Losses => "LOSSES"@,
            ScoreType::Ties => "TIES"@,
            ScoreType::Xp => "XP"@,
            ScoreType::MessagesSent => "MESSAGES_SENT"@,
            ScoreType::MatchesPlayed => "MATCHES_PLAYED"@,
            ScoreType::ServerPlaytime => "SERVER_PLAYTIME"@,
            ScoreType::GamePlaytime => "GAME_PLAYTIME"@,
            ScoreType::CoreLeaks => "CORE_LEAKS"@,
            ScoreType::CoreBlockDestroys => "CORE_BLOCK_DESTROYS"@,
            ScoreType::DestroyableDestroys => "DESTROYABLE_DESTROYS"@,
            ScoreType::DestroyableBlockDestroys => "DESTROYABLE_BLOCK_DESTROYS"@,
            ScoreType::FlagCaptures => "FLAG_CAPTURES"@,
            ScoreType::FlagDrops => "FLAG_DROPS"@,
            ScoreType::FlagPickups => "FLAG_PICKUPS"@,
            ScoreType::FlagDefends => "FLAG_DEFENDS"@,
            ScoreType::FlagHoldTime => "FLAG_HOLD_TIME"@,
            ScoreType::WoolCaptures => "WOOL_CAPTURES"@,
            ScoreType::WoolDrops => "WOOL_DROPS"@,
            ScoreType::WoolPickups => "WOOL_PICKUPS"@,
            ScoreType::WoolDefends => "WOOL_DEFENDS"@,
            ScoreType::ControlPointCaptures => "CONTROL_POINT_CAPTURES"@,
            ScoreType::HighestKillstreak => "HIGHEST_KILLSTREAK"@,
        }
    }

    /// How values of this score type are combined.
    pub fn get_aggregation_type(&self) -> (r: ScoreTypeAggregation)
        ensures
            r == self.spec_aggregation(),
    {
        match self {
            ScoreType::Kills
            | ScoreType::Deaths
            | ScoreType::FirstBloods
            | ScoreType::Wins
            | ScoreType::Losses
            | ScoreType::Ties
            | ScoreType::Xp
            | ScoreType::MessagesSent
            | ScoreType::MatchesPlayed
            | ScoreType::ServerPlaytime
            | ScoreType::GamePlaytime
            | ScoreType::CoreLeaks
            | ScoreType::CoreBlockDestroys
            | ScoreType::DestroyableDestroys
            | ScoreType::DestroyableBlockDestroys
            | ScoreType::FlagCaptures
            | ScoreType::FlagDrops
            | ScoreType::FlagPickups
            | ScoreType::FlagDefends
            | ScoreType::FlagHoldTime
            | ScoreType::WoolCaptures
            | ScoreType::WoolDrops
            | ScoreType::WoolPickups
            | ScoreType::WoolDefends
            | ScoreType::ControlPointCaptures => ScoreTypeAggregation::Sum,
            ScoreType::HighestKillstreak => ScoreTypeAggregation::Max,
        }
    }

    /// The tag of the score type, in upper case with underscores.
    pub fn as_str(&self) -> (r: &'static str)
        ensures
            r@ == self.spec_name(),
    {
        match self {
            ScoreType::Kills => "KILLS",
            ScoreType::Deaths => "DEATHS",
            ScoreType::FirstBloods => "FIRST_BLOODS",
            ScoreType::Wins => "WINS",
            ScoreType::Losses => "LOSSES",
            ScoreType::Ties => "TIES",
            ScoreType::Xp => "XP",
            ScoreType::MessagesSent => "MESSAGES_SENT",
            ScoreType::MatchesPlayed => "MATCHES_PLAYED",
            ScoreType::ServerPlaytime => "SERVER_PLAYTIME",
            ScoreType::GamePlaytime => "GAME_PLAYTIME",
            ScoreType::CoreLeaks => "CORE_LEAKS",
            ScoreType::CoreBlockDestroys => "CORE_BLOCK_DESTROYS",
            ScoreType::DestroyableDestroys => "DESTROYABLE_DESTROYS",
            ScoreType::DestroyableBlockDestroys => "DESTROYABLE_BLOCK_DESTROYS",
            ScoreType::FlagCaptures => "FLAG_CAPTURES",
            ScoreType::FlagDrops => "FLAG_DROPS",
            ScoreType::FlagPickups => "FLAG_PICKUPS",
            ScoreType::FlagDefends => "FLAG_DEFENDS",
            ScoreType::FlagHoldTime => "FLAG_HOLD_TIME",
            ScoreType::WoolCaptures => "WOOL_CAPTURES",
            ScoreType::WoolDrops => "WOOL_DROPS",
            ScoreType::WoolPickups => "WOOL_PICKUPS",
            ScoreType::WoolDefends => "WOOL_DEFENDS",
            ScoreType::ControlPointCaptures => "CONTROL_POINT_CAPTURES",
            ScoreType::HighestKillstreak => "HIGHEST_KILLSTREAK",
        }
    }

    /// The tag of the score type, in upper case with underscores.
    pub fn to_string(&self) -> (r: String)
        ensures
            r@ == self.spec_name(),
    {
        String::from_str(self.as_str())
    }

    /// The score type with the tag `tag`, if there is one.
    pub fn from_str(tag: &str) -> (r: Option<ScoreType>)
        ensures
            r matches Some(score_type) ==> score_type.spec_name() == tag@,
            r is None ==> forall|score_type: ScoreType| score_type.spec_name() != tag@,
    {
        let all: Vec<ScoreType> = ScoreType::all();
        let mut i: usize = 0;
        while i < all.len()
            invariant
                i <= all.len(),
                all@ == ScoreType::spec_all(),
                forall|j: int| 0 <= j < i ==> (#[trigger] all@[j]).spec_name() != tag@,
            decreases all.len() - i,
        {
            if str_equal(all[i].as_str(), tag) {
                return Some(all[i]);
            }
            i += 1;
        }
        proof {
            assert forall|score_type: ScoreType| score_type.spec_name() != tag@ by {
                ScoreType::lemma_all_is_complete(score_type);
            }
        }
        None
    }

    /// Every score type, in the order of declaration.
    pub open spec fn spec_all() -> Seq<ScoreType> {
        seq![
            ScoreType::Kills,
            ScoreType::Deaths,
            ScoreType::FirstBloods,
            ScoreType::Wins,
            ScoreType::Losses,
            ScoreType::Ties,
            ScoreType::Xp,
            ScoreType::MessagesSent,
            ScoreType::MatchesPlayed,
            ScoreType::ServerPlaytime,
            ScoreType::GamePlaytime,
            ScoreType::CoreLeaks,
            ScoreType::CoreBlockDestroys,
            ScoreType::DestroyableDestroys,
            ScoreType::DestroyableBlockDestroys,
            ScoreType::FlagCaptures,
            ScoreType::FlagDrops,
            ScoreType::FlagPickups,
            ScoreType::FlagDefends,
            ScoreType::FlagHoldTime,
            ScoreType::WoolCaptures,
            ScoreType::WoolDrops,
            ScoreType::WoolPickups,
            ScoreType::WoolDefends,
            ScoreType::ControlPointCaptures,
            ScoreType::HighestKillstreak,
        ]
    }

    /// Every score type occurs in `spec_all`.
    pub proof fn lemma_all_is_complete(score_type: ScoreType)
        ensures
            ScoreType::spec_all().contains(score_type),
    {
        let all = ScoreType::spec_all();
        match score_type {
            ScoreType::Kills => { assert(all[0] == score_type); },
            ScoreType::Deaths => { assert(all[1] == score_type); },
            ScoreType::FirstBloods => { assert(all[2] == score_type); },
            ScoreType::Wins => { assert(all[3] == score_type); },
            ScoreType::Losses => { assert(all[4] == score_type); },
            ScoreType::Ties => { assert(all[5] == score_type); },
            ScoreType::Xp => { assert(all[6] == score_type); },
            ScoreType::MessagesSent => { assert(all[7] == score_type); },
            ScoreType::MatchesPlayed => { assert(all[8] == score_type); },
            ScoreType::ServerPlaytime => { assert(all[9] == score_type); },
            ScoreType::GamePlaytime => { assert(all[10] == score_type); },
            ScoreType::CoreLeaks => { assert(all[11] == score_type); },
            ScoreType::CoreBlockDestroys => { assert(all[12] == score_type); },
            ScoreType::DestroyableDestroys => { assert(all[13] == score_type); },
            ScoreType::DestroyableBlockDestroys => { assert(all[14] == score_type); },
            ScoreType::FlagCaptures => { assert(all[15] == score_type); },
            ScoreType::FlagDrops => { assert(all[16] == score_type); },
            ScoreType::FlagPickups => { assert(all[17] == score_type); },
            ScoreType::FlagDefends => { assert(all[18] == score_type); },
            ScoreType::FlagHoldTime => { assert(all[19] == score_type); },
            ScoreType::WoolCaptures => { assert(all[20] == score_type); },
            ScoreType::WoolDrops => { assert(all[21] == score_type); },
            ScoreType::WoolPickups => { assert(all[22] == score_type); },
            ScoreType::WoolDefends => { assert(all[23] == score_type); },
            ScoreType::ControlPointCaptures => { assert(all[24] == score_type); },
            ScoreType::HighestKillstreak => { assert(all[25] == score_type); },
        }
    }

    /// Every score type, in the order of declaration.
    pub fn all() -> (r: Vec<ScoreType>)
        ensures
            r@ == ScoreType::spec_all(),
    {
        let r: Vec<ScoreType> = vec![
            ScoreType::Kills,
            ScoreType::Deaths,
            ScoreType::FirstBloods,
            ScoreType::Wins,
            ScoreType::Losses,
            ScoreType::Ties,
            ScoreType::Xp,
            ScoreType::MessagesSent,
            ScoreType::MatchesPlayed,
            ScoreType::ServerPlaytime,
            ScoreType::GamePlaytime,
            ScoreType::CoreLeaks,
            ScoreType::CoreBlockDestroys,
            ScoreType::DestroyableDestroys,
            ScoreType::DestroyableBlockDestroys,
            ScoreType::FlagCaptures,
            ScoreType::FlagDrops,
            ScoreType::FlagPickups,
            ScoreType::FlagDefends,
            ScoreType::FlagHoldTime,
            ScoreType::WoolCaptures,
            ScoreType::WoolDrops,
            ScoreType::WoolPickups,
            ScoreType::WoolDefends,
            ScoreType::ControlPointCaptures,
            ScoreType::HighestKillstreak,
        ];
        assert(r@ =~= ScoreType::spec_all());
        r
    }
}

} // verus!
