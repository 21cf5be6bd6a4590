//! Why the record of a player was updated.

use vstd::prelude::*;

verus! {

/// The event that led to an update of a player's record.
#[derive(Clone, Copy, Debug, PartialEq, Eq, Hash, Structural)]
pub enum PlayerUpdateReason {
    Kill,
    Death,
    Chat,
    Killstreak,
    KillstreakEnd,
    PartyJoin,
    PartyLeave,
    MatchEnd,
    DestroyableDamage,
    DestroyableDestroy,
    CoreLeak,
    FlagPlace,
    FlagDrop,
    FlagPickup,
    FlagDefend,
    WoolPlace,
    WoolDrop,
    WoolPickup,
    WoolDefend,
    ControlPointCapture,
}

impl PlayerUpdateReason {
    /// The tag of the reason, in upper case with underscores.
    pub open spec fn spec_name(self) -> Seq<char> {
        match self {
            PlayerUpdateReason::Kill => "KILL"@,
            PlayerUpdateReason::Death => "DEATH"@,
            PlayerUpdateReason::Chat => "CHAT"@,
            PlayerUpdateReason::Killstreak => "KILLSTREAK"@,
            PlayerUpdateReason::KillstreakEnd => "KILLSTREAK_END"@,
            PlayerUpdateReason::PartyJoin => "PARTY_JOIN"@,
            PlayerUpdateReason::PartyLeave => "PARTY_LEAVE"@,
            PlayerUpdateReason::MatchEnd => "MATCH_END"@,
            PlayerUpdateReason::DestroyableDamage => "DESTROYABLE_DAMAGE"@,
            PlayerUpdateReason::DestroyableDestroy => "DESTROYABLE_DESTROY"@,
            PlayerUpdateReason::CoreLeak => "CORE_LEAK"@,
            PlayerUpdateReason::FlagPlace => "FLAG_PLACE"@,
            PlayerUpdateReason::FlagDrop => "FLAG_DROP"@,
            PlayerUpdateReason::FlagPickup => "FLAG_PICKUP"@,
            PlayerUpdateReason::FlagDefend => "FLAG_DEFEND"@,
            PlayerUpdateReason::WoolPlace => "WOOL_PLACE"@,
            PlayerUpdateReason::WoolDrop => "WOOL_DROP"@,
            PlayerUpdateReason::WoolPickup => "WOOL_PICKUP"@,
            PlayerUpdateReason::WoolDefend => "WOOL_DEFEND"@,
            PlayerUpdateReason::ControlPointCapture => "CONTROL_POINT_CAPTURE"@,
        }
    }

    /// The tag of the reason, in upper case with underscores.
    pub fn as_str(&self) -> (r: &'static str)
        ensures
            r@ == self.spec_name(),
    {
        match self {
            PlayerUpdateReason::Kill => "KILL",
            PlayerUpdateReason::Death => "DEATH",
            PlayerUpdateReason::Chat => "CHAT",
            PlayerUpdateReason::Killstreak => "KILLSTREAK",
            PlayerUpdateReason::KillstreakEnd => "KILLSTREAK_END",
            PlayerUpdateReason::PartyJoin => "PARTY_JOIN",
            PlayerUpdateReason::PartyLeave => "PARTY_LEAVE",
            PlayerUpdateReason::MatchEnd => "MATCH_END",
            PlayerUpdateReason::DestroyableDamage => "DESTROYABLE_DAMAGE",
            PlayerUpdateReason::DestroyableDestroy => "DESTROYABLE_DESTROY",
            PlayerUpdateReason::CoreLeak => "CORE_LEAK",
            PlayerUpdateReason::FlagPlace => "FLAG_PLACE",
            PlayerUpdateReason::FlagDrop => "FLAG_DROP",
            PlayerUpdateReason::FlagPickup => "FLAG_PICKUP",
            PlayerUpdateReason::FlagDefend => "FLAG_DEFEND",
            PlayerUpdateReason::WoolPlace => "WOOL_PLACE",
            PlayerUpdateReason::WoolDrop => "WOOL_DROP",
            PlayerUpdateReason::WoolPickup => "WOOL_PICKUP",
            PlayerUpdateReason::WoolDefend => "WOOL_DEFEND",
            PlayerUpdateReason::ControlPointCapture => "CONTROL_POINT_CAPTURE",
        }
    }
}

/// Tells the reason for the update that each event of a match leads to.
#[derive(Clone, Copy, Debug)]
pub struct PlayerUpdateListener {}

impl PlayerUpdateListener {
    pub fn on_kill(&self) -> (r: PlayerUpdateReason)
        ensures
            r == PlayerUpdateReason::Kill,
    {
        PlayerUpdateReason::Kill
    }

    pub fn on_death(&self) -> (r: PlayerUpdateReason)
        ensures
            r == PlayerUpdateReason::Death,
    {
        PlayerUpdateReason::Death
    }

    pub fn on_chat(&self) -> (r: PlayerUpdateReason)
        ensures
            r == PlayerUpdateReason::Chat,
    {
        PlayerUpdateReason::Chat
    }

    pub fn on_killstreak(&self) -> (r: PlayerUpdateReason)
        ensures
            r == PlayerUpdateReason::Killstreak,
    {
        PlayerUpdateReason::Killstreak
    }

    pub fn on_killstreak_end(&self) -> (r: PlayerUpdateReason)
        ensures
            r == PlayerUpdateReason::KillstreakEnd,
    {
        PlayerUpdateReason::KillstreakEnd
    }

    pub fn on_party_join(&self) -> (r: PlayerUpdateReason)
        ensures
            r == PlayerUpdateReason::PartyJoin,
    {
        PlayerUpdateReason::PartyJoin
    }

    pub fn on_party_leave(&self) -> (r: PlayerUpdateReason)
        ensures
            r == PlayerUpdateReason::PartyLeave,
    {
        PlayerUpdateReason::PartyLeave
    }

    pub fn on_match_end_v2(&self) -> (r: PlayerUpdateReason)
        ensures
            r == PlayerUpdateReason::MatchEnd,
    {
        PlayerUpdateReason::MatchEnd
    }

    pub fn on_destroyable_damage(&self) -> (r: PlayerUpdateReason)
        ensures
            r == PlayerUpdateReason::DestroyableDamage,
    {
        PlayerUpdateReason::DestroyableDamage
    }

    pub fn on_destroyable_destroy(&self) -> (r: PlayerUpdateReason)
        ensures
            r == PlayerUpdateReason::DestroyableDestroy,
    {
        PlayerUpdateReason::DestroyableDestroy
    }

    pub fn on_core_leak(&self) -> (r: PlayerUpdateReason)
        ensures
            r == PlayerUpdateReason::CoreLeak,
    {
        PlayerUpdateReason::CoreLeak
    }

    pub fn on_control_point_capture(&self) -> (r: PlayerUpdateReason)
        ensures
            r == PlayerUpdateReason::ControlPointCapture,
    {
        PlayerUpdateReason::ControlPointCapture
    }

    pub fn on_flag_place(&self) -> (r: PlayerUpdateReason)
        ensures
            r == PlayerUpdateReason::FlagPlace,
    {
        PlayerUpdateReason::FlagPlace
    }

    pub fn on_flag_pickup(&self) -> (r: PlayerUpdateReason)
        ensures
            r == PlayerUpdateReason::FlagPickup,
    {
        PlayerUpdateReason::FlagPickup
    }

    pub fn on_flag_drop(&self) -> (r: PlayerUpdateReason)
        ensures
            r == PlayerUpdateReason::FlagDrop,
    {
        PlayerUpdateReason::FlagDrop
    }

    pub fn on_flag_defend(&self) -> (r: PlayerUpdateReason)
        ensures
            r == PlayerUpdateReason::FlagDefend,
    {
        PlayerUpdateReason::FlagDefend
    }

    pub fn on_wool_place(&self) -> (r: PlayerUpdateReason)
        ensures
            r == PlayerUpdateReason::WoolPlace,
    {
        PlayerUpdateReason::WoolPlace
    }

    pub fn on_wool_pickup(&self) -> (r: PlayerUpdateReason)
        ensures
            r == PlayerUpdateReason::WoolPickup,
    {
        PlayerUpdateReason::WoolPickup
    }

    pub fn on_wool_drop(&self) -> (r: PlayerUpdateReason)
        ensures
            r == PlayerUpdateReason::WoolDrop,
    {
        PlayerUpdateReason::WoolDrop
    }

    pub fn on_wool_defend(&self) -> (r: PlayerUpdateReason)
        ensures
            r == PlayerUpdateReason::WoolDefend,
    {
        PlayerUpdateReason::WoolDefend
    }
}

} // verus!
