//! Achievements: what a player can earn, and the presets that describe them.

use vstd::prelude::*;
use vstd::string::*;

verus! {

/// An achievement.
#[derive(Debug, Clone)]
pub struct Achievement {
    pub id: String,
    pub name: String,
    pub description: String,
    pub metadata: Option<AchievementMetadata>,
    pub agent: Agent,
    pub first_completion: Option<String>,
}

/// What has to happen for an achievement to be earned.
#[derive(Debug, Clone)]
pub enum Agent {
    TotalKillsAgentParams { target_kills: u32 },
    KillStreakAgentParams { target_streak: u32 },
    FireDeathAgentParams,
    CaptureNoSprintAgentParams,
    ChatMessageAgentParams { message: String },
    LevelUpAgentParams { level: u32 },
    WoolCaptureAgentParams { captures: u32 },
    FirstBloodAgentParams { target: u32 },
    BowDistanceAgentParams { distance: u64 },
    FlagCaptureAgentParams { captures: u32 },
    FlagDefendAgentParams { defends: u32 },
    WoolDefendAgentParams { defends: u32 },
    MonumentDamageAgentParams { breaks: u32 },
    MonumentDestroyAgentParams { destroys: u32 },
    KillConsecutiveAgentParams { seconds: u64, kills: u32, all_within: bool },
    PlayTimeAgentParams { hours: u64 },
    RecordAgentParams { record_type: RecordType, threshold: u32 },
    ControlPointCaptureAgentParams { captures: u32 },
    TotalWinsAgentParams { wins: u32 },
    TotalDeathsAgentParams { deaths: u32 },
    TotalLossesAgentParams { losses: u32 },
}

/// A record that a player can hold.
#[derive(Debug, Clone, Copy, PartialEq, Eq, Structural)]
pub enum RecordType {
    LongestSession,
    LongestProjectileKill,
    FastestWoolCapture,
    FastestFlagCapture,
    FastestFirstBlood,
    KillsInMatch,
    DeathsInMatch,
}

/// How an achievement is shown.
#[derive(Debug, Clone)]
pub struct AchievementMetadata {
    pub category: String,
    pub display_name: String,
    pub description: String,
}

/// How an achievement is shown, as a value.
pub ghost struct AchievementMetadataView {
    pub category: Seq<char>,
    pub display_name: Seq<char>,
    pub description: Seq<char>,
}

impl View for AchievementMetadata {
    type V = AchievementMetadataView;

    open spec fn view(&self) -> AchievementMetadataView {
        AchievementMetadataView {
            category: self.category@,
            display_name: self.display_name@,
            description: self.description@,
        }
    }
}

/// The presets of achievement metadata.
#[derive(Debug, Clone, Copy, PartialEq, Eq, Structural)]
pub enum AchievementMetadataConstant {
    /// No category.
    NoCategory,
    /// Obtain a killstreak of "x".
    BloodBathCategory,
    /// Capture "x" wools.
    WoolieMammothCategory,
    /// Obtain "x" total kills.
    PathToGenocideCategory,
    /// Shoot and kill a player from "x" blocks away.
    MarksmanCategory,
    /// Kill "x" players within a span of "y" seconds.
    MercilessCategory,
    /// Kill "x" players within "y" seconds of each kill.
    WomboComboCategory,
    /// Die to a source of fire.
    BurntToastCategory,
    /// Obtain your first first-blood kill.
    BloodGodCategory,
    /// Obtain "x" first-blood kills.
    TotalFirstBloodsCategory,
    /// Damage "x" monument blocks overall.
    PillarsOfSandCategory,
    /// Capture "x" flags overall.
    TouchdownCategory,
    /// Stop "x" flag holders from capturing the flag.
    PassInterferenceCategory,
    /// Capture "x" control-point objectives overall.
    TerritorialDisputeCategory,
    /// Win "x" matches overall.
    VictoryScreechCategory,
    /// Reach level "x".
    ChampionRoadCategory,
    /// Play for "x" hours in matches overall.
    TouchGrassCategory,
    /// Win your first match.
    FirstWinCategory,
    /// Obtain your first kill.
    FirstKillCategory,
    /// Obtain your first loss.
    FirstLossCategory,
    /// Obtain your first death.
    FirstDeathCategory,
}

/// What is asked of a new achievement.
#[derive(Debug, Clone)]
pub struct AchievementCreateRequest {
    pub name: String,
    pub description: String,
    pub metadata_preset: Option<AchievementMetadataConstant>,
    pub agent: Agent,
}

impl AchievementMetadataConstant {
    /// The category under which the preset files an achievement.
    pub open spec fn spec_category(self) -> Seq<char> {
        match self {
            AchievementMetadataConstant::NoCategory => "Misc"@,
            AchievementMetadataConstant::BloodBathCategory => "Kills"@,
            AchievementMetadataConstant::WoolieMammothCategory => "Objectives"@,
            AchievementMetadataConstant::PathToGenocideCategory => "Kills"@,
            AchievementMetadataConstant::MarksmanCategory => "Kills"@,
            AchievementMetadataConstant::MercilessCategory => "Kills"@,
            AchievementMetadataConstant::WomboComboCategory => "Kills"@,
            AchievementMetadataConstant::BurntToastCategory => "Deaths"@,
            AchievementMetadataConstant::BloodGodCategory => "Kills"@,
            AchievementMetadataConstant::TotalFirstBloodsCategory => "Kills"@,
            AchievementMetadataConstant::PillarsOfSandCategory => "Objectives"@,
            AchievementMetadataConstant::TouchdownCategory => "Objectives"@,
            AchievementMetadataConstant::PassInterferenceCategory => "Objectives"@,
            AchievementMetadataConstant::TerritorialDisputeCategory => "Objectives"@,
            AchievementMetadataConstant::VictoryScreechCategory => "Wins"@,
            AchievementMetadataConstant::ChampionRoadCategory => "Misc"@,
            AchievementMetadataConstant::TouchGrassCategory => "Misc"@,
            AchievementMetadataConstant::FirstWinCategory => "Wins"@,
            AchievementMetadataConstant::FirstKillCategory => "Kills"@,
            AchievementMetadataConstant::FirstLossCategory => "Losses"@,
            AchievementMetadataConstant::FirstDeathCategory => "Deaths"@,
        }
    }

    /// The name under which the preset shows an achievement.
    pub open spec fn spec_display_name(self) -> Seq<char> {
        match self {
            AchievementMetadataConstant::NoCategory => "No Display Name"@,
            AchievementMetadataConstant::BloodBathCategory => "Blood Bath"@,
            AchievementMetadataConstant::WoolieMammothCategory => "Woolie Mammoth"@,
            AchievementMetadataConstant::PathToGenocideCategory => "Path to Genocide"@,
            AchievementMetadataConstant::MarksmanCategory => "Marksman"@,
            AchievementMetadataConstant::MercilessCategory => "Merciless"@,
            AchievementMetadataConstant::WomboComboCategory => "Wombo Combo"@,
            AchievementMetadataConstant::BurntToastCategory => "Burnt Toast"@,
            AchievementMetadataConstant::BloodGodCategory => "Blood God"@,
            AchievementMetadataConstant::TotalFirstBloodsCategory => "Swift as the Wind"@,
            AchievementMetadataConstant::PillarsOfSandCategory => "Pillars of Sand"@,
            AchievementMetadataConstant::TouchdownCategory => "Touchdown"@,
            AchievementMetadataConstant::PassInterferenceCategory => "Pass Interference"@,
            AchievementMetadataConstant::TerritorialDisputeCategory => "Territorial Dispute"@,
            AchievementMetadataConstant::VictoryScreechCategory => "Victory Screech"@,
            AchievementMetadataConstant::ChampionRoadCategory => "Champion Road"@,
            AchievementMetadataConstant::TouchGrassCategory => "Touch Grass"@,
            AchievementMetadataConstant::FirstWinCategory => "Mom, Get the Camera!"@,
            AchievementMetadataConstant::FirstKillCategory => "Baby Steps"@,
            AchievementMetadataConstant::FirstLossCategory => "My Stats!"@,
            AchievementMetadataConstant::FirstDeathCategory => "Oof!"@,
        }
    }

    /// The description that the preset gives an achievement.
    pub open spec fn spec_description(self) -> Seq<char> {
        match self {
            AchievementMetadataConstant::NoCategory => "No Description"@,
            _ => "Click here to view this achievement."@,
        }
    }

    /// The category under which the preset files an achievement.
    pub fn category(&self) -> (r: &'static str)
        ensures
            r@ == self.spec_category(),
    {
        match self {
            AchievementMetadataConstant::NoCategory => "Misc",
            AchievementMetadataConstant::BloodBathCategory => "Kills",
            AchievementMetadataConstant::WoolieMammothCategory => "Objectives",
            AchievementMetadataConstant::PathToGenocideCategory => "Kills",
            AchievementMetadataConstant::MarksmanCategory => "Kills",
            AchievementMetadataConstant::MercilessCategory => "Kills",
            AchievementMetadataConstant::WomboComboCategory => "Kills",
            AchievementMetadataConstant::BurntToastCategory => "Deaths",
            AchievementMetadataConstant::BloodGodCategory => "Kills",
            AchievementMetadataConstant::TotalFirstBloodsCategory => "Kills",
            AchievementMetadataConstant::PillarsOfSandCategory => "Objectives",
            AchievementMetadataConstant::TouchdownCategory => "Objectives",
            AchievementMetadataConstant::PassInterferenceCategory => "Objectives",
            AchievementMetadataConstant::TerritorialDisputeCategory => "Objectives",
            AchievementMetadataConstant::VictoryScreechCategory => "Wins",
            AchievementMetadataConstant::ChampionRoadCategory => "Misc",
            AchievementMetadataConstant::TouchGrassCategory => "Misc",
            AchievementMetadataConstant::FirstWinCategory => "Wins",
            AchievementMetadataConstant::FirstKillCategory => "Kills",
            AchievementMetadataConstant::FirstLossCategory => "Losses",
            AchievementMetadataConstant::FirstDeathCategory => "Deaths",
        }
    }

    /// The name under which the preset shows an achievement.
    pub fn display_name(&self) -> (r: &'static str)
        ensures
            r@ == self.spec_display_name(),
    {
        match self {
            AchievementMetadataConstant::NoCategory => "No Display Name",
            AchievementMetadataConstant::BloodBathCategory => "Blood Bath",
            AchievementMetadataConstant::WoolieMammothCategory => "Woolie Mammoth",
            AchievementMetadataConstant::PathToGenocideCategory => "Path to Genocide",
            AchievementMetadataConstant::MarksmanCategory => "Marksman",
            AchievementMetadataConstant::MercilessCategory => "Merciless",
            AchievementMetadataConstant::WomboComboCategory => "Wombo Combo",
            AchievementMetadataConstant::BurntToastCategory => "Burnt Toast",
            AchievementMetadataConstant::BloodGodCategory => "Blood God",
            AchievementMetadataConstant::TotalFirstBloodsCategory => "Swift as the Wind",
            AchievementMetadataConstant::PillarsOfSandCategory => "Pillars of Sand",
            AchievementMetadataConstant::TouchdownCategory => "Touchdown",
            AchievementMetadataConstant::PassInterferenceCategory => "Pass Interference",
            AchievementMetadataConstant::TerritorialDisputeCategory => "Territorial Dispute",
            AchievementMetadataConstant::VictoryScreechCategory => "Victory Screech",
            AchievementMetadataConstant::ChampionRoadCategory => "Champion Road",
            AchievementMetadataConstant::TouchGrassCategory => "Touch Grass",
            AchievementMetadataConstant::FirstWinCategory => "Mom, Get the Camera!",
            AchievementMetadataConstant::FirstKillCategory => "Baby Steps",
            AchievementMetadataConstant::FirstLossCategory => "My Stats!",
            AchievementMetadataConstant::FirstDeathCategory => "Oof!",
        }
    }

    /// The description that the preset gives an achievement.
    pub fn description(&self) -> (r: &'static str)
        ensures
            r@ == self.spec_description(),
    {
        match self {
            AchievementMetadataConstant::NoCategory => "No Description",
            _ => "Click here to view this achievement.",
        }
    }
}

/// The metadata that the preset `constant` stands for.
pub fn achievement_metadata_preset_to_metadata(constant: AchievementMetadataConstant) -> (r:
    AchievementMetadata)
    ensures
        r@ == (AchievementMetadataView {
            category: constant.spec_category(),
            display_name: constant.spec_display_name(),
            description: constant.spec_description(),
        }),
{
    AchievementMetadata {
        category: String::from_str(constant.category()),
        display_name: String::from_str(constant.display_name()),
        description: String::from_str(constant.description()),
    }
}

impl Achievement {
    /// The name of the collection that holds the achievements.
    pub fn get_collection_name() -> (r: &'static str)
        ensures
            r@ == "achievement"@,
    {
        "achievement"
    }

    /// Whether the achievement is what `request` asks for: name, description
    /// and agent are those of the request, the metadata is that of the
    /// preset, where one is named, and nobody has completed it yet.
    pub open spec fn spec_made_from(&self, request: AchievementCreateRequest) -> bool {
        &&& self.name == request.name
        &&& self.description == request.description
        &&& self.agent == request.agent
        &&& self.first_completion is None
        &&& self.metadata is Some <==> request.metadata_preset is Some
        &&& self.metadata matches Some(metadata) ==> metadata@ == (AchievementMetadataView {
            category: request.metadata_preset.unwrap().spec_category(),
            display_name: request.metadata_preset.unwrap().spec_display_name(),
            description: request.metadata_preset.unwrap().spec_description(),
        })
    }

    /// The achievement that `request` asks for, under the identifier `id`.
    pub fn from_request(id: String, request: AchievementCreateRequest) -> (r: Achievement)
        ensures
            r.id == id,
            r.spec_made_from(request),
    {
        let metadata: Option<AchievementMetadata> = match request.metadata_preset {
            Some(preset) => Some(achievement_metadata_preset_to_metadata(preset)),
            None => None,
        };
        Achievement {
            id,
            name: request.name,
            description: request.description,
            metadata,
            agent: request.agent,
            first_completion: None,
        }
    }

    /// The achievement that `request` asks for, under a fresh identifier.
    pub fn create(request: AchievementCreateRequest) -> (r: Achievement)
        ensures
            r.spec_made_from(request),
    {
        Achievement::from_request(fresh_identifier(), request)
    }
}

/// A fresh identifier.
///
/// Calls `Uuid::new_v4` and writes the identifier out with `to_string`.  It
/// is drawn at random, so nothing is claimed of it.
#[verifier::external_body]
pub(crate) fn fresh_identifier() -> String {
    uuid::Uuid::new_v4().to_string()
}

} // verus!
