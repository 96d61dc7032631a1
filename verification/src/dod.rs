//! Wire-level data model for the mod's user messages: closed enumerations for
//! teams, classes, weapons and ammunition, and one record type per message.
//!
//! Wire strings are kept as raw byte vectors: the payloads carry NUL-terminated
//! byte strings whose encoding the analyzer never interprets.

use vstd::prelude::*;
use vstd::string::StringSliceAdditionalSpecFns;

verus! {

/// Decoding failure: an unknown message name, or a payload that does not match
/// the message's grammar.
#[derive(Clone, Copy, Debug, PartialEq, Eq, Structural)]
pub enum Error {
    ParserError,
}

/// Version of the mod that was used to record the demo.
#[derive(Clone, Copy, Debug, PartialEq, Eq, Structural)]
pub enum Version {
    V1_0,
    V1_1,
    V1_1b,
    V1_1c,
    V1_2,
    V1_3,
}

#[derive(Clone, Copy, Debug, PartialEq, Eq, Structural)]
pub enum Team {
    Allies,
    Axis,
    Spectators,
}

#[derive(Clone, Copy, Debug, PartialEq, Eq, Structural)]
pub enum Class {
    AxisMortar,
    Bazooka,
    BritishMortar,
    BritishRifleman,
    Fg42Zielfernrohr,
    Fg42Zweibein,
    Grenadier,
    Gunner,
    MG34Schutze,
    MG42Schutze,
    MachineGunner,
    Marksman,
    MasterSergeant,
    Mortar,
    Panzerschreck,
    Random,
    Rifleman,
    RocketInfantry,
    Scharfschutze,
    Sergeant,
    SergeantMajor,
    Sniper,
    StaffSergeant,
    Stosstruppe,
    Sturmtruppe,
    SupportInfantry,
    Unteroffizer,
}

#[derive(Clone, Copy, Debug, PartialEq, Eq, Structural)]
pub enum Weapon {
    Kabar,
    GermanKnife,
    M1911,
    Luger,
    Garand,
    ScopedK98,
    Thompson,
    Stg44,
    Springfield,
    K98,
    Bar,
    Mp40,
    Mk2Grenade,
    StickGrenade,
    Mg42,
    Browning30Cal,
    Spade,
    M1Carbine,
    Mg34,
    GreaseGun,
    Fg42,
    K43,
    LeeEnfield,
    Sten,
    Bren,
    Webley,
    Bazooka,
    Panzerschreck,
    Piat,
    Mortar,
    ScopedFg42,
    M1A1Carbine,
    K98Bayonet,
    ScopedLeeEnfield,
    MillsBomb,
    BritishKnife,
    ButtStock,
    EnfieldBayonet,
}

/// Ammunition used by a [Weapon].
#[derive(Clone, Copy, Debug, PartialEq, Eq, Structural)]
pub enum Ammo {
    Smg,
    AltRifle,
    Rifle,
    Pistol,
    Springfield,
    Heavy,
    Mg42,
    Browning30Cal,
    Grenade,
    Rocket,
}

/// Round phase carried by a RoundState message.
#[derive(Clone, Copy, Debug, PartialEq, Eq, Structural)]
pub enum RoundState {
    /// Round is being initialized or reset; players are frozen.
    Reset,
    /// Freeze time is over; the round is running.
    Normal,
    /// Allies team has won the round.
    AlliesWin,
    /// Axis team has won the round.
    AxisWin,
    /// Round time expired with no winner.
    Draw,
}

/// Wire tag for a team byte: 1, 2 or 3.
pub open spec fn spec_team_from_tag(tag: u8) -> Option<Team> {
    if tag == 1 {
        Some(Team::Allies)
    } else if tag == 2 {
        Some(Team::Axis)
    } else if tag == 3 {
        Some(Team::Spectators)
    } else {
        None
    }
}

pub fn team_from_tag(tag: u8) -> (r: Option<Team>)
    ensures
        r == spec_team_from_tag(tag),
{
    match tag {
        1 => Some(Team::Allies),
        2 => Some(Team::Axis),
        3 => Some(Team::Spectators),
        _ => None,
    }
}

/// Wire tag for a class byte: 1 through 27.
pub open spec fn spec_class_from_tag(tag: u8) -> Option<Class> {
    match tag {
        1 => Some(Class::Rifleman),
        2 => Some(Class::StaffSergeant),
        3 => Some(Class::MasterSergeant),
        4 => Some(Class::Sergeant),
        5 => Some(Class::Sniper),
        6 => Some(Class::SupportInfantry),
        7 => Some(Class::MachineGunner),
        8 => Some(Class::Bazooka),
        9 => Some(Class::Mortar),
        10 => Some(Class::Grenadier),
        11 => Some(Class::Stosstruppe),
        12 => Some(Class::Unteroffizer),
        13 => Some(Class::Sturmtruppe),
        14 => Some(Class::Scharfschutze),
        15 => Some(Class::Fg42Zweibein),
        16 => Some(Class::Fg42Zielfernrohr),
        17 => Some(Class::MG34Schutze),
        18 => Some(Class::MG42Schutze),
        19 => Some(Class::Panzerschreck),
        20 => Some(Class::AxisMortar),
        21 => Some(Class::BritishRifleman),
        22 => Some(Class::SergeantMajor),
        23 => Some(Class::Marksman),
        24 => Some(Class::Gunner),
        25 => Some(Class::RocketInfantry),
        26 => Some(Class::BritishMortar),
        27 => Some(Class::Random),
        _ => None,
    }
}

pub fn class_from_tag(tag: u8) -> (r: Option<Class>)
    ensures
        r == spec_class_from_tag(tag),
{
    match tag {
        1 => Some(Class::Rifleman),
        2 => Some(Class::StaffSergeant),
        3 => Some(Class::MasterSergeant),
        4 => Some(Class::Sergeant),
        5 => Some(Class::Sniper),
        6 => Some(Class::SupportInfantry),
        7 => Some(Class::MachineGunner),
        8 => Some(Class::Bazooka),
        9 => Some(Class::Mortar),
        10 => Some(Class::Grenadier),
        11 => Some(Class::Stosstruppe),
        12 => Some(Class::Unteroffizer),
        13 => Some(Class::Sturmtruppe),
        14 => Some(Class::Scharfschutze),
        15 => Some(Class::Fg42Zweibein),
        16 => Some(Class::Fg42Zielfernrohr),
        17 => Some(Class::MG34Schutze),
        18 => Some(Class::MG42Schutze),
        19 => Some(Class::Panzerschreck),
        20 => Some(Class::AxisMortar),
        21 => Some(Class::BritishRifleman),
        22 => Some(Class::SergeantMajor),
        23 => Some(Class::Marksman),
        24 => Some(Class::Gunner),
        25 => Some(Class::RocketInfantry),
        26 => Some(Class::BritishMortar),
        27 => Some(Class::Random),
        _ => None,
    }
}

/// Wire tag for a weapon byte.
pub open spec fn spec_weapon_from_tag(tag: u8) -> Option<Weapon> {
    match tag {
        1 => Some(Weapon::Kabar),
        2 => Some(Weapon::GermanKnife),
        3 => Some(Weapon::M1911),
        4 => Some(Weapon::Luger),
        5 => Some(Weapon::Garand),
        6 => Some(Weapon::ScopedK98),
        7 => Some(Weapon::Thompson),
        8 => Some(Weapon::Stg44),
        9 => Some(Weapon::Springfield),
        10 => Some(Weapon::K98),
        11 => Some(Weapon::Bar),
        12 => Some(Weapon::Mp40),
        13 => Some(Weapon::Mk2Grenade),
        14 => Some(Weapon::StickGrenade),
        17 => Some(Weapon::Mg42),
        18 => Some(Weapon::Browning30Cal),
        19 => Some(Weapon::Spade),
        20 => Some(Weapon::M1Carbine),
        21 => Some(Weapon::Mg34),
        22 => Some(Weapon::GreaseGun),
        23 => Some(Weapon::Fg42),
        24 => Some(Weapon::K43),
        25 => Some(Weapon::LeeEnfield),
        26 => Some(Weapon::Sten),
        27 => Some(Weapon::Bren),
        28 => Some(Weapon::Webley),
        29 => Some(Weapon::Bazooka),
        30 => Some(Weapon::Panzerschreck),
        31 => Some(Weapon::Piat),
        32 => Some(Weapon::Mortar),
        35 => Some(Weapon::ScopedFg42),
        36 => Some(Weapon::M1A1Carbine),
        37 => Some(Weapon::K98Bayonet),
        38 => Some(Weapon::ScopedLeeEnfield),
        39 => Some(Weapon::MillsBomb),
        40 => Some(Weapon::BritishKnife),
        42 => Some(Weapon::ButtStock),
        43 => Some(Weapon::EnfieldBayonet),
        _ => None,
    }
}

pub fn weapon_from_tag(tag: u8) -> (r: Option<Weapon>)
    ensures
        r == spec_weapon_from_tag(tag),
{
    match tag {
        1 => Some(Weapon::Kabar),
        2 => Some(Weapon::GermanKnife),
        3 => Some(Weapon::M1911),
        4 => Some(Weapon::Luger),
        5 => Some(Weapon::Garand),
        6 => Some(Weapon::ScopedK98),
        7 => Some(Weapon::Thompson),
        8 => Some(Weapon::Stg44),
        9 => Some(Weapon::Springfield),
        10 => Some(Weapon::K98),
        11 => Some(Weapon::Bar),
        12 => Some(Weapon::Mp40),
        13 => Some(Weapon::Mk2Grenade),
        14 => Some(Weapon::StickGrenade),
        17 => Some(Weapon::Mg42),
        18 => Some(Weapon::Browning30Cal),
        19 => Some(Weapon::Spade),
        20 => Some(Weapon::M1Carbine),
        21 => Some(Weapon::Mg34),
        22 => Some(Weapon::GreaseGun),
        23 => Some(Weapon::Fg42),
        24 => Some(Weapon::K43),
        25 => Some(Weapon::LeeEnfield),
        26 => Some(Weapon::Sten),
        27 => Some(Weapon::Bren),
        28 => Some(Weapon::Webley),
        29 => Some(Weapon::Bazooka),
        30 => Some(Weapon::Panzerschreck),
        31 => Some(Weapon::Piat),
        32 => Some(Weapon::Mortar),
        35 => Some(Weapon::ScopedFg42),
        36 => Some(Weapon::M1A1Carbine),
        37 => Some(Weapon::K98Bayonet),
        38 => Some(Weapon::ScopedLeeEnfield),
        39 => Some(Weapon::MillsBomb),
        40 => Some(Weapon::BritishKnife),
        42 => Some(Weapon::ButtStock),
        43 => Some(Weapon::EnfieldBayonet),
        _ => None,
    }
}

/// Wire tag for an ammunition byte: 1 through 9.
pub open spec fn spec_ammo_from_tag(tag: u8) -> Option<Ammo> {
    match tag {
        1 => Some(Ammo::Smg),
        2 => Some(Ammo::AltRifle),
        3 => Some(Ammo::Rifle),
        4 => Some(Ammo::Pistol),
        5 => Some(Ammo::Springfield),
        6 => Some(Ammo::Heavy),
        7 => Some(Ammo::Mg42),
        8 => Some(Ammo::Browning30Cal),
        9 => Some(Ammo::Rocket),
        _ => None,
    }
}

pub fn ammo_from_tag(tag: u8) -> (r: Option<Ammo>)
    ensures
        r == spec_ammo_from_tag(tag),
{
    match tag {
        1 => Some(Ammo::Smg),
        2 => Some(Ammo::AltRifle),
        3 => Some(Ammo::Rifle),
        4 => Some(Ammo::Pistol),
        5 => Some(Ammo::Springfield),
        6 => Some(Ammo::Heavy),
        7 => Some(Ammo::Mg42),
        8 => Some(Ammo::Browning30Cal),
        9 => Some(Ammo::Rocket),
        _ => None,
    }
}

/// Wire tag for a round-state byte: one of 0, 1, 3, 4, 5.
pub open spec fn spec_round_state_from_tag(tag: u8) -> Option<RoundState> {
    match tag {
        0 => Some(RoundState::Reset),
        1 => Some(RoundState::Normal),
        3 => Some(RoundState::AlliesWin),
        4 => Some(RoundState::AxisWin),
        5 => Some(RoundState::Draw),
        _ => None,
    }
}

pub fn round_state_from_tag(tag: u8) -> (r: Option<RoundState>)
    ensures
        r == spec_round_state_from_tag(tag),
{
    match tag {
        0 => Some(RoundState::Reset),
        1 => Some(RoundState::Normal),
        3 => Some(RoundState::AlliesWin),
        4 => Some(RoundState::AxisWin),
        5 => Some(RoundState::Draw),
        _ => None,
    }
}

/// Sent when the POV picks up ammo so the HUD can show an ammo icon.
///
/// Registered by the mod but never sent; no payload grammar is known.
#[derive(Clone, Debug, PartialEq)]
pub struct AmmoPickup {}

/// Sent when the remaining ammo for the POV's current weapon has changed and
/// the amount would overflow an [AmmoX] message.
#[derive(Clone, Debug, PartialEq)]
pub struct AmmoShort {
    pub ammo: Ammo,
    pub amount: u16,
}

/// Sent when the remaining ammo for the POV's current weapon has changed.
#[derive(Clone, Debug, PartialEq)]
pub struct AmmoX {
    pub ammo: Ammo,
    pub amount: u8,
}

/// Sent when a blood sprite should be rendered at a position.
#[derive(Clone, Debug, PartialEq)]
pub struct BloodPuff(pub i16, pub i16, pub i16);

#[derive(Clone, Debug, PartialEq)]
pub struct CameraView {
    pub target_name: Vec<u8>,
}

/// Sent when objective capture is interrupted.
#[derive(Clone, Debug, PartialEq)]
pub struct CancelProg {
    pub area_index: u8,
    pub _unk2: u8,
}

/// Sent when an objective is captured by a player so that a message can be
/// displayed to clients.
#[derive(Clone, Debug, PartialEq)]
pub struct CapMsg {
    /// Client index of the player.
    pub client_index: u8,

    /// Name of the objective captured.
    pub point_name: Vec<u8>,

    /// Team associated with the player.
    pub team: Team,
}

/// Sent when the countdown to a clan match begins; the value is the countdown
/// in nanoseconds.
#[derive(Clone, Debug, PartialEq)]
pub struct ClanTimer(pub u64);

/// Sent when the client should spawn a corpse at a given location.
#[derive(Clone, Debug, PartialEq)]
pub struct ClCorpse {
    pub model_name: Vec<u8>,
    pub origin_x: i16,
    pub origin_y: i16,
    pub origin_z: i16,
    pub angle_x: i8,
    pub angle_y: i8,
    pub angle_z: i8,
    pub animation_sequence: u8,
    pub body: u16,
    pub team: Team,
}

/// Sent to update the HUD icon of a capture area.
#[derive(Clone, Debug, PartialEq)]
pub struct ClientAreas {
    pub icon_index: u8,
    pub hud_icon: Option<Vec<u8>>,
}

#[derive(Clone, Debug, PartialEq)]
pub struct CurMarker {
    pub marker_id: u8,
}

#[derive(Clone, Debug, PartialEq)]
pub struct CurWeapon {
    pub is_active: bool,
    pub weapon: Weapon,
    pub clip_ammo: u8,
}

/// Sent when a player kills another player to rerender the HUD.
#[derive(Clone, Debug, PartialEq)]
pub struct DeathMsg {
    /// Client index of the killer, or 0 if the death was a suicide.
    pub killer_client_index: u8,

    /// Client index of the victim.
    pub victim_client_index: u8,

    /// Weapon that was used to kill the victim.
    pub weapon: Weapon,
}

/// Sent when a player's frag total has updated.
#[derive(Clone, Debug, PartialEq)]
pub struct Frags {
    /// Client index of the player.
    pub client_index: u8,

    /// New total number of frags by the player.
    pub frags: i16,
}

/// Sent on spawn; two bytes that likely carry per-team rule bitfields.
#[derive(Clone, Debug, PartialEq)]
pub struct GameRules {
    pub _unk1: u8,
    pub _unk2: u8,
}

/// Sent when a player should play a hand signal animation.
#[derive(Clone, Debug, PartialEq)]
pub struct HandSignal {
    /// Client index of the player.
    pub client_index: u8,

    /// Animation sequence to play.
    pub animation_id: u8,
}

/// Sent when the POV's health changes to rerender the HUD.
#[derive(Clone, Debug, PartialEq)]
pub struct Health(pub u8);

/// Sent when the POV's weapon should be holstered or removed from holster.
#[derive(Clone, Debug, PartialEq)]
pub struct HideWeapon {
    pub flags: u8,
}

/// Marks a spectator-relay recording.
#[derive(Clone, Debug, PartialEq)]
pub struct Hltv {}

#[derive(Clone, Debug, PartialEq)]
pub struct HudText {
    pub text: Vec<u8>,
    pub init_hud_style: u8,
}

/// Sent when the POV joins the game to prepare their HUD.
#[derive(Clone, Debug, PartialEq)]
pub struct InitHUD {}

/// One map objective carried by an [InitObj] message.
#[derive(Clone, Debug, PartialEq)]
pub struct Objective {
    pub entity_index: u16,
    pub area_index: u8,
    pub team: Option<Team>,
    pub _unk1: u8,
    pub neutral_icon_index: u8,
    pub allies_icon_index: u8,
    pub axis_icon_index: u8,
    pub origin_x: i16,
    pub origin_y: i16,
}

/// Sent to initialize the map's capture objectives.
#[derive(Clone, Debug, PartialEq)]
pub struct InitObj {
    pub objectives: Vec<Objective>,
}

#[derive(Clone, Debug, PartialEq)]
pub struct MapMarker {}

/// Sent when the POV connects to the server so it can render the MOTD window.
#[derive(Clone, Debug, PartialEq)]
pub struct Motd {
    /// True if there are no more MOTD messages following this one.
    pub is_terminal: bool,
    pub text: Vec<u8>,
}

/// Sent when a player's objective score changes.
#[derive(Clone, Debug, PartialEq)]
pub struct ObjScore {
    /// Client index of the player.
    pub client_index: u8,

    /// Amount of points the player has accrued.
    pub score: i16,
}

#[derive(Clone, Debug, PartialEq)]
pub struct Object {}

/// Sent when a player changes class.
#[derive(Clone, Debug, PartialEq)]
pub struct PClass {
    /// Client index of the player that changed class.
    pub client_index: u8,

    /// Identifier for the class chosen by the player.
    pub class: Class,
}

#[derive(Clone, Debug, PartialEq)]
pub struct PShoot {}

/// Sent when a player's status changes.
#[derive(Clone, Debug, PartialEq)]
pub struct PStatus {
    /// Client index of the updated player.
    pub client_index: u8,

    pub status: u8,
}

/// Sent when a player joins a team.
#[derive(Clone, Debug, PartialEq)]
pub struct PTeam {
    /// Client index of the player.
    pub client_index: u8,

    /// Identifier for the team that was joined.
    pub team: Team,
}

/// Sent when one or more players enter a capture area to rerender the HUD.
#[derive(Clone, Debug, PartialEq)]
pub struct PlayersIn {
    /// Index of the objective that players are inside.
    pub objective_index: u8,

    /// Team that the players inside the objective are members of.
    pub team: Team,

    /// Number of players that are in the objective area.
    pub players_inside_area: u8,

    /// Number of players required to start capturing the objective.
    pub required_players_for_area: u8,
}

/// Sent when objective capture progress ticks.
#[derive(Clone, Debug, PartialEq)]
pub struct ProgUpdate {
    pub area_index: u8,
    pub team: Team,
}

#[derive(Clone, Debug, PartialEq)]
pub struct ReloadDone {}

#[derive(Clone, Debug, PartialEq)]
pub struct ReqState {}

/// Sent when the POV spawns to reset their HUD state for the new life.
#[derive(Clone, Debug, PartialEq)]
pub struct ResetHUD {}

#[derive(Clone, Debug, PartialEq)]
pub struct ResetSens {}

/// Sent when a player sends a message in chat.
#[derive(Clone, Debug, PartialEq)]
pub struct SayText {
    /// Client index of the player that sent the message.
    pub client_index: u8,

    /// Message sent by the player.
    pub text: Vec<u8>,
}

/// Sent when the POV looks through the scope of a weapon.
#[derive(Clone, Debug, PartialEq)]
pub struct Scope {}

/// Superseded by [ScoreShort].
#[derive(Clone, Debug, PartialEq)]
pub struct ScoreInfo {
    pub client_index: u8,
    pub points: i8,
    pub kills: i8,
    pub deaths: i8,
    pub class: Class,
    pub team: Team,
}

/// Intended for values that would overflow a [ScoreInfo].
#[derive(Clone, Debug, PartialEq)]
pub struct ScoreInfoLong {
    pub client_index: u8,
    pub score: i16,
    pub frags: i16,
    pub class: Class,
    pub team: Team,
}

/// Sent when a player's score line changes.
#[derive(Clone, Debug, PartialEq)]
pub struct ScoreShort {
    pub client_index: u8,
    pub score: i16,
    pub kills: i16,
    pub deaths: i16,
}

/// Recognized message whose payload grammar is not understood; decoding one
/// always fails.
#[derive(Clone, Debug, PartialEq)]
pub struct ScreenFade {}

/// Recognized message whose payload grammar is not understood; decoding one
/// always fails.
#[derive(Clone, Debug, PartialEq)]
pub struct ScreenShake {}

/// Sent when the POV connects to a server.
#[derive(Clone, Debug, PartialEq)]
pub struct ServerName(pub Vec<u8>);

#[derive(Clone, Debug, PartialEq)]
pub struct SetFOV(pub u8);

/// Sent when an objective changes hands.
#[derive(Clone, Debug, PartialEq)]
pub struct SetObj {
    pub area_index: u8,
    pub team: Option<Team>,
}

#[derive(Clone, Debug, PartialEq)]
pub struct ShowMenu {}

/// Sent when a player's spectator state changes.
#[derive(Clone, Debug, PartialEq)]
pub struct Spectator {
    /// Client index of the player.
    pub client_index: u8,

    /// True if the player joined spectators, false if the player left.
    pub is_spectator: bool,
}

/// Sent when objective capture progress has started; the duration is in
/// nanoseconds.
#[derive(Clone, Debug, PartialEq)]
pub struct StartProg {
    pub area_index: u8,
    pub team: Team,
    pub cap_duration: u64,
}

/// Variant of [StartProg] with a fractional duration on the wire; the duration
/// is in nanoseconds.
#[derive(Clone, Debug, PartialEq)]
pub struct StartProgF {
    pub area_index: u8,
    pub team: Team,
    pub cap_duration: u64,
}

#[derive(Clone, Debug, PartialEq)]
pub struct StatusValue(pub u8);

/// Sent when a team scores points either by objective or tick.
#[derive(Clone, Debug, PartialEq)]
pub struct TeamScore {
    pub team: Team,
    pub score: u16,
}

#[derive(Clone, Debug, PartialEq)]
pub struct TextMsg {
    pub destination: u8,
    pub text: Vec<u8>,
    pub arg1: Option<Vec<u8>>,
    pub arg2: Option<Vec<u8>>,
    pub arg3: Option<Vec<u8>>,
    pub arg4: Option<Vec<u8>>,
}

/// Sent in response to a `timeleft` command; the value is in nanoseconds.
#[derive(Clone, Debug, PartialEq)]
pub struct TimeLeft(pub u64);

#[derive(Clone, Debug, PartialEq)]
pub struct TimerStatus {}

/// Sent in response to a `use` command from the client.
#[derive(Clone, Debug, PartialEq)]
pub struct UseSound {
    /// When true, an entity is in range and the client plays a different sound.
    pub is_entity_in_sphere: bool,
}

/// Recognized message whose payload grammar is not understood; decoding one
/// always fails.
#[derive(Clone, Debug, PartialEq)]
pub struct VGUIMenu {}

#[derive(Clone, Debug, PartialEq)]
pub struct VoiceMask {
    pub audible_players: i32,
    pub banned_players: i32,
}

/// Sent when the state of the reinforcements timer changes.
#[derive(Clone, Debug, PartialEq)]
pub struct WaveStatus(pub u8);

/// Sent to set the reinforcements timer; the value is in nanoseconds.
#[derive(Clone, Debug, PartialEq)]
pub struct WaveTime(pub u64);

/// Sent when the client should be updated with a list of known weapons.
#[derive(Clone, Debug, PartialEq)]
pub struct WeaponList {
    pub primary_ammo: Ammo,
    pub primary_ammo_max: u8,
    pub secondary_ammo: Ammo,
    pub secondary_ammo_max: u8,
    pub slot: u8,
    pub position_in_slot: u8,
    pub weapon: Weapon,
    pub _unk1: u8,
    pub _unk2: u8,
    pub clip_size: u8,
}

/// Sent when the client picks up a weapon so the HUD can show a weapon icon.
///
/// Registered by the mod but never sent; no payload grammar is known.
#[derive(Clone, Debug, PartialEq)]
pub struct WeapPickup {}

#[derive(Clone, Debug, PartialEq)]
pub struct Weather {}

/// Sent when the POV dies.
#[derive(Clone, Debug, PartialEq)]
pub struct YouDied {}

/// Kinds of messages registered by the mod.
#[derive(Clone, Debug, PartialEq)]
pub enum UserMessage {
    AmmoPickup(AmmoPickup),
    AmmoShort(AmmoShort),
    AmmoX(AmmoX),
    BloodPuff(BloodPuff),
    CameraView(CameraView),
    CancelProg(CancelProg),
    CapMsg(CapMsg),
    ClanTimer(ClanTimer),
    ClCorpse(ClCorpse),
    ClientAreas(ClientAreas),
    CurMarker(CurMarker),
    CurWeapon(CurWeapon),
    DeathMsg(DeathMsg),
    Frags(Frags),
    GameRules(GameRules),
    HandSignal(HandSignal),
    Health(Health),
    HideWeapon(HideWeapon),
    Hltv(Hltv),
    HudText(HudText),
    InitHUD(InitHUD),
    InitObj(InitObj),
    MapMarker(MapMarker),
    Motd(Motd),
    ObjScore(ObjScore),
    Object(Object),
    PClass(PClass),
    PShoot(PShoot),
    PStatus(PStatus),
    PTeam(PTeam),
    PlayersIn(PlayersIn),
    ReloadDone(ReloadDone),
    ReqState(ReqState),
    ResetHUD(ResetHUD),
    ResetSens(ResetSens),
    RoundState(RoundState),
    SayText(SayText),
    Scope(Scope),
    ScoreShort(ScoreShort),
    ScreenFade(ScreenFade),
    ScreenShake(ScreenShake),
    ServerName(ServerName),
    SetFOV(SetFOV),
    SetObj(SetObj),
    ShowMenu(ShowMenu),
    Spectator(Spectator),
    StartProg(StartProg),
    StartProgF(StartProgF),
    StatusValue(StatusValue),
    TeamScore(TeamScore),
    TextMsg(TextMsg),
    TimeLeft(TimeLeft),
    TimerStatus(TimerStatus),
    UseSound(UseSound),
    VGUIMenu(VGUIMenu),
    VoiceMask(VoiceMask),
    WaveStatus(WaveStatus),
    WaveTime(WaveTime),
    WeaponList(WeaponList),
    WeapPickup(WeapPickup),
    Weather(Weather),
    YouDied(YouDied),
}

impl Team {
    /// The `team` field of a userinfo blob names the team in lower case.
    pub open spec fn spec_from_name(name: Seq<u8>) -> Option<Team> {
        if name == "allies".spec_bytes() {
            Some(Team::Allies)
        } else if name == "axis".spec_bytes() {
            Some(Team::Axis)
        } else if name == "spectators".spec_bytes() {
            Some(Team::Spectators)
        } else {
            None
        }
    }

    pub fn from_name(name: &[u8]) -> (r: Option<Team>)
        ensures
            r == Team::spec_from_name(name@),
    {
        if crate::decode::bytes_eq_str(name, "allies") {
            Some(Team::Allies)
        } else if crate::decode::bytes_eq_str(name, "axis") {
            Some(Team::Axis)
        } else if crate::decode::bytes_eq_str(name, "spectators") {
            Some(Team::Spectators)
        } else {
            None
        }
    }
}

} // verus!
