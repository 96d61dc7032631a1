//! Byte-level decoder for user-message payloads.
//!
//! Each recognized message has a grammar stated as a spec function over the
//! payload bytes; the executable parsers are proved to return exactly what the
//! grammar says. Except for the trailing-string messages (ServerName, Motd),
//! every parser is all-consuming: leftover bytes are a parse error.

use vstd::prelude::*;
use vstd::slice::{slice_subrange, slice_to_vec};
use vstd::string::StringSliceAdditionalSpecFns;
use crate::dod::{
    Ammo, AmmoShort, AmmoX, BloodPuff, CancelProg, CapMsg, ClCorpse, ClanTimer, ClientAreas,
    Class, CurWeapon, DeathMsg, Error, Frags, GameRules, Health, HideWeapon, HudText, InitHUD,
    InitObj, Motd, ObjScore, Objective, PClass, PStatus, PTeam, PlayersIn, ReloadDone, ReqState,
    ResetHUD, ResetSens, RoundState, SayText, Scope, ScoreShort, ServerName, SetFOV, SetObj,
    Spectator, StartProg, StatusValue, Team, TeamScore, TextMsg, TimeLeft, UseSound, UserMessage,
    VoiceMask, WaveStatus, WaveTime, Weapon, WeaponList, YouDied, spec_ammo_from_tag,
    spec_class_from_tag, spec_round_state_from_tag, spec_team_from_tag, spec_weapon_from_tag,
    ammo_from_tag, class_from_tag, round_state_from_tag, team_from_tag, weapon_from_tag,
};

verus! {

/// Nanoseconds in one second, for durations carried as whole seconds.
pub const NANOS_PER_SECOND: u64 = 1_000_000_000;

// ---------------------------------------------------------------------------
// Primitives
// ---------------------------------------------------------------------------

pub fn bytes_eq(a: &[u8], b: &[u8]) -> (r: bool)
    ensures
        r == (a@ == b@),
{
    if a.len() != b.len() {
        return false;
    }
    let mut i: usize = 0;
    while i < a.len()
        invariant
            0 <= i <= a@.len(),
            a@.len() == b@.len(),
            forall|j: int| 0 <= j < i ==> a@[j] == b@[j],
        decreases a@.len() - i,
    {
        if a[i] != b[i] {
            return false;
        }
        i = i + 1;
    }
    proof {
        assert(a@ =~= b@);
    }
    true
}

/// Compares wire bytes against an ASCII name literal.
pub fn bytes_eq_str(a: &[u8], s: &str) -> (r: bool)
    ensures
        r == (a@ == s.spec_bytes()),
{
    bytes_eq(a, s.as_bytes())
}

/// Position of the first NUL byte at or after `start`, if any.
pub open spec fn spec_find_nul(b: Seq<u8>, start: int) -> Option<int>
    decreases b.len() - start when 0 <= start <= b.len()
{
    if start >= b.len() {
        None
    } else if b[start] == 0 {
        Some(start)
    } else {
        spec_find_nul(b, start + 1)
    }
}

pub proof fn lemma_find_nul(b: Seq<u8>, start: int)
    requires
        0 <= start <= b.len(),
    ensures
        match spec_find_nul(b, start) {
            Some(k) => start <= k < b.len() && b[k] == 0 && (forall|j: int|
                start <= j < k ==> b[j] != 0),
            None => forall|j: int| start <= j < b.len() ==> b[j] != 0,
        },
    decreases b.len() - start,
{
    if start < b.len() && b[start] != 0 {
        lemma_find_nul(b, start + 1);
    }
}

pub fn find_nul(data: &[u8], start: usize) -> (r: Option<usize>)
    requires
        start <= data@.len(),
    ensures
        match r {
            Some(k) => spec_find_nul(data@, start as int) == Some(k as int),
            None => spec_find_nul(data@, start as int) is None,
        },
{
    let mut i: usize = start;
    while i < data.len()
        invariant
            start <= i <= data@.len(),
            spec_find_nul(data@, start as int) == spec_find_nul(data@, i as int),
        decreases data@.len() - i,
    {
        if data[i] == 0 {
            return Some(i);
        }
        i = i + 1;
    }
    None
}

/// Little-endian 16-bit unsigned value of two bytes.
pub open spec fn spec_u16_le(b0: u8, b1: u8) -> u16 {
    (b0 + b1 * 256) as u16
}

/// Little-endian 16-bit signed value of two bytes.
pub open spec fn spec_i16_le(b0: u8, b1: u8) -> i16 {
    spec_u16_le(b0, b1) as i16
}

/// Little-endian 32-bit unsigned value of four bytes.
pub open spec fn spec_u32_le(b0: u8, b1: u8, b2: u8, b3: u8) -> u32 {
    (b0 + b1 * 0x100 + b2 * 0x10000 + b3 * 0x1000000) as u32
}

/// Little-endian 32-bit signed value of four bytes.
pub open spec fn spec_i32_le(b0: u8, b1: u8, b2: u8, b3: u8) -> i32 {
    spec_u32_le(b0, b1, b2, b3) as i32
}

pub fn u16_le(b0: u8, b1: u8) -> (r: u16)
    ensures
        r == spec_u16_le(b0, b1),
{
    b0 as u16 + (b1 as u16) * 256
}

pub fn i16_le(b0: u8, b1: u8) -> (r: i16)
    ensures
        r == spec_i16_le(b0, b1),
{
    u16_le(b0, b1) as i16
}

pub fn u32_le(b0: u8, b1: u8, b2: u8, b3: u8) -> (r: u32)
    ensures
        r == spec_u32_le(b0, b1, b2, b3),
{
    b0 as u32 + (b1 as u32) * 0x100 + (b2 as u32) * 0x10000 + (b3 as u32) * 0x1000000
}

pub fn i32_le(b0: u8, b1: u8, b2: u8, b3: u8) -> (r: i32)
    ensures
        r == spec_i32_le(b0, b1, b2, b3),
{
    u32_le(b0, b1, b2, b3) as i32
}

// ---------------------------------------------------------------------------
// Fixed-size messages
// ---------------------------------------------------------------------------

/// Grammar of a DeathMsg payload: killer byte, victim byte, weapon tag.
pub open spec fn spec_death_msg(b: Seq<u8>) -> Option<DeathMsg> {
    if b.len() == 3 {
        match spec_weapon_from_tag(b[2]) {
            Some(w) => Some(
                DeathMsg {
                    killer_client_index: b[0],
                    victim_client_index: b[1],
                    weapon: w,
                },
            ),
            None => None,
        }
    } else {
        None
    }
}

fn parse_death_msg(data: &[u8]) -> (r: Option<DeathMsg>)
    ensures
        r == spec_death_msg(data@),
{
    if data.len() != 3 {
        return None;
    }
    match weapon_from_tag(data[2]) {
        Some(weapon) => Some(
            DeathMsg { killer_client_index: data[0], victim_client_index: data[1], weapon },
        ),
        None => None,
    }
}

/// Grammar of an AmmoShort payload: ammo tag, 16-bit amount.
pub open spec fn spec_ammo_short(b: Seq<u8>) -> Option<AmmoShort> {
    if b.len() == 3 {
        match spec_ammo_from_tag(b[0]) {
            Some(a) => Some(AmmoShort { ammo: a, amount: spec_u16_le(b[1], b[2]) }),
            None => None,
        }
    } else {
        None
    }
}

fn parse_ammo_short(data: &[u8]) -> (r: Option<AmmoShort>)
    ensures
        r == spec_ammo_short(data@),
{
    if data.len() != 3 {
        return None;
    }
    match ammo_from_tag(data[0]) {
        Some(ammo) => Some(AmmoShort { ammo, amount: u16_le(data[1], data[2]) }),
        None => None,
    }
}

/// Grammar of an AmmoX payload: ammo tag, 8-bit amount.
pub open spec fn spec_ammox(b: Seq<u8>) -> Option<AmmoX> {
    if b.len() == 2 {
        match spec_ammo_from_tag(b[0]) {
            Some(a) => Some(AmmoX { ammo: a, amount: b[1] }),
            None => None,
        }
    } else {
        None
    }
}

fn parse_ammox(data: &[u8]) -> (r: Option<AmmoX>)
    ensures
        r == spec_ammox(data@),
{
    if data.len() != 2 {
        return None;
    }
    match ammo_from_tag(data[0]) {
        Some(ammo) => Some(AmmoX { ammo, amount: data[1] }),
        None => None,
    }
}

/// Grammar of a BloodPuff payload: three 16-bit coordinates.
pub open spec fn spec_blood_puff(b: Seq<u8>) -> Option<BloodPuff> {
    if b.len() == 6 {
        Some(BloodPuff(spec_i16_le(b[0], b[1]), spec_i16_le(b[2], b[3]), spec_i16_le(b[4], b[5])))
    } else {
        None
    }
}

fn parse_blood_puff(data: &[u8]) -> (r: Option<BloodPuff>)
    ensures
        r == spec_blood_puff(data@),
{
    if data.len() != 6 {
        return None;
    }
    Some(
        BloodPuff(
            i16_le(data[0], data[1]),
            i16_le(data[2], data[3]),
            i16_le(data[4], data[5]),
        ),
    )
}

/// Grammar of a CancelProg payload: two bytes.
pub open spec fn spec_cancel_prog(b: Seq<u8>) -> Option<CancelProg> {
    if b.len() == 2 {
        Some(CancelProg { area_index: b[0], _unk2: b[1] })
    } else {
        None
    }
}

fn parse_cancel_prog(data: &[u8]) -> (r: Option<CancelProg>)
    ensures
        r == spec_cancel_prog(data@),
{
    if data.len() != 2 {
        return None;
    }
    Some(CancelProg { area_index: data[0], _unk2: data[1] })
}

/// Grammar of a ClanTimer payload: one byte of whole seconds.
pub open spec fn spec_clan_timer(b: Seq<u8>) -> Option<ClanTimer> {
    if b.len() == 1 {
        Some(ClanTimer((b[0] * NANOS_PER_SECOND) as u64))
    } else {
        None
    }
}

fn parse_clan_timer(data: &[u8]) -> (r: Option<ClanTimer>)
    ensures
        r == spec_clan_timer(data@),
{
    if data.len() != 1 {
        return None;
    }
    Some(ClanTimer(data[0] as u64 * NANOS_PER_SECOND))
}

/// Grammar of a CurWeapon payload: active flag, weapon tag, clip count.
pub open spec fn spec_cur_weapon(b: Seq<u8>) -> Option<CurWeapon> {
    if b.len() == 3 {
        match spec_weapon_from_tag(b[1]) {
            Some(w) => Some(CurWeapon { is_active: b[0] != 0, weapon: w, clip_ammo: b[2] }),
            None => None,
        }
    } else {
        None
    }
}

fn parse_cur_weapon(data: &[u8]) -> (r: Option<CurWeapon>)
    ensures
        r == spec_cur_weapon(data@),
{
    if data.len() != 3 {
        return None;
    }
    match weapon_from_tag(data[1]) {
        Some(weapon) => Some(CurWeapon { is_active: data[0] != 0, weapon, clip_ammo: data[2] }),
        None => None,
    }
}

/// Grammar of a Frags payload: client byte, 16-bit signed frag count.
pub open spec fn spec_frags(b: Seq<u8>) -> Option<Frags> {
    if b.len() == 3 {
        Some(Frags { client_index: b[0], frags: spec_i16_le(b[1], b[2]) })
    } else {
        None
    }
}

fn parse_frags(data: &[u8]) -> (r: Option<Frags>)
    ensures
        r == spec_frags(data@),
{
    if data.len() != 3 {
        return None;
    }
    Some(Frags { client_index: data[0], frags: i16_le(data[1], data[2]) })
}

/// Grammar of a GameRules payload: two bytes.
pub open spec fn spec_game_rules(b: Seq<u8>) -> Option<GameRules> {
    if b.len() == 2 {
        Some(GameRules { _unk1: b[0], _unk2: b[1] })
    } else {
        None
    }
}

fn parse_game_rules(data: &[u8]) -> (r: Option<GameRules>)
    ensures
        r == spec_game_rules(data@),
{
    if data.len() != 2 {
        return None;
    }
    Some(GameRules { _unk1: data[0], _unk2: data[1] })
}

/// Grammar of a Health payload: one byte.
pub open spec fn spec_health(b: Seq<u8>) -> Option<Health> {
    if b.len() == 1 {
        Some(Health(b[0]))
    } else {
        None
    }
}

fn parse_health(data: &[u8]) -> (r: Option<Health>)
    ensures
        r == spec_health(data@),
{
    if data.len() != 1 {
        return None;
    }
    Some(Health(data[0]))
}

/// Grammar of a HideWeapon payload: one byte of flags.
pub open spec fn spec_hide_weapon(b: Seq<u8>) -> Option<HideWeapon> {
    if b.len() == 1 {
        Some(HideWeapon { flags: b[0] })
    } else {
        None
    }
}

fn parse_hide_weapon(data: &[u8]) -> (r: Option<HideWeapon>)
    ensures
        r == spec_hide_weapon(data@),
{
    if data.len() != 1 {
        return None;
    }
    Some(HideWeapon { flags: data[0] })
}

/// Grammar of an InitHUD payload: empty.
pub open spec fn spec_init_hud(b: Seq<u8>) -> Option<InitHUD> {
    if b.len() == 0 {
        Some(InitHUD {})
    } else {
        None
    }
}

fn parse_init_hud(data: &[u8]) -> (r: Option<InitHUD>)
    ensures
        r == spec_init_hud(data@),
{
    if data.len() != 0 {
        return None;
    }
    Some(InitHUD {})
}

/// Grammar of an ObjScore payload: client byte, 16-bit signed score.
pub open spec fn spec_obj_score(b: Seq<u8>) -> Option<ObjScore> {
    if b.len() == 3 {
        Some(ObjScore { client_index: b[0], score: spec_i16_le(b[1], b[2]) })
    } else {
        None
    }
}

fn parse_obj_score(data: &[u8]) -> (r: Option<ObjScore>)
    ensures
        r == spec_obj_score(data@),
{
    if data.len() != 3 {
        return None;
    }
    Some(ObjScore { client_index: data[0], score: i16_le(data[1], data[2]) })
}

/// Grammar of a PClass payload: client byte, class tag.
pub open spec fn spec_p_class(b: Seq<u8>) -> Option<PClass> {
    if b.len() == 2 {
        match spec_class_from_tag(b[1]) {
            Some(c) => Some(PClass { client_index: b[0], class: c }),
            None => None,
        }
    } else {
        None
    }
}

fn parse_p_class(data: &[u8]) -> (r: Option<PClass>)
    ensures
        r == spec_p_class(data@),
{
    if data.len() != 2 {
        return None;
    }
    match class_from_tag(data[1]) {
        Some(class) => Some(PClass { client_index: data[0], class }),
        None => None,
    }
}

/// Grammar of a PStatus payload: client byte, status byte.
pub open spec fn spec_p_status(b: Seq<u8>) -> Option<PStatus> {
    if b.len() == 2 {
        Some(PStatus { client_index: b[0], status: b[1] })
    } else {
        None
    }
}

fn parse_p_status(data: &[u8]) -> (r: Option<PStatus>)
    ensures
        r == spec_p_status(data@),
{
    if data.len() != 2 {
        return None;
    }
    Some(PStatus { client_index: data[0], status: data[1] })
}

/// Grammar of a PlayersIn payload: objective byte, team tag, two counts.
pub open spec fn spec_players_in(b: Seq<u8>) -> Option<PlayersIn> {
    if b.len() == 4 {
        match spec_team_from_tag(b[1]) {
            Some(t) => Some(
                PlayersIn {
                    objective_index: b[0],
                    team: t,
                    players_inside_area: b[2],
                    required_players_for_area: b[3],
                },
            ),
            None => None,
        }
    } else {
        None
    }
}

fn parse_players_in(data: &[u8]) -> (r: Option<PlayersIn>)
    ensures
        r == spec_players_in(data@),
{
    if data.len() != 4 {
        return None;
    }
    match team_from_tag(data[1]) {
        Some(team) => Some(
            PlayersIn {
                objective_index: data[0],
                team,
                players_inside_area: data[2],
                required_players_for_area: data[3],
            },
        ),
        None => None,
    }
}

/// Grammar of an empty payload message.
pub open spec fn spec_empty_ok(b: Seq<u8>) -> bool {
    b.len() == 0
}

/// Grammar of a RoundState payload: one state tag.
pub open spec fn spec_round_state(b: Seq<u8>) -> Option<RoundState> {
    if b.len() == 1 {
        spec_round_state_from_tag(b[0])
    } else {
        None
    }
}

fn parse_round_state(data: &[u8]) -> (r: Option<RoundState>)
    ensures
        r == spec_round_state(data@),
{
    if data.len() != 1 {
        return None;
    }
    round_state_from_tag(data[0])
}

/// Grammar of a Scope payload: one byte, ignored.
pub open spec fn spec_scope(b: Seq<u8>) -> Option<Scope> {
    if b.len() == 1 {
        Some(Scope {})
    } else {
        None
    }
}

fn parse_scope(data: &[u8]) -> (r: Option<Scope>)
    ensures
        r == spec_scope(data@),
{
    if data.len() != 1 {
        return None;
    }
    Some(Scope {})
}

/// Grammar of a ScoreShort payload: client byte, three 16-bit signed values,
/// one pad byte.
pub open spec fn spec_score_short(b: Seq<u8>) -> Option<ScoreShort> {
    if b.len() == 8 {
        Some(
            ScoreShort {
                client_index: b[0],
                score: spec_i16_le(b[1], b[2]),
                kills: spec_i16_le(b[3], b[4]),
                deaths: spec_i16_le(b[5], b[6]),
            },
        )
    } else {
        None
    }
}

fn parse_score_short(data: &[u8]) -> (r: Option<ScoreShort>)
    ensures
        r == spec_score_short(data@),
{
    if data.len() != 8 {
        return None;
    }
    Some(
        ScoreShort {
            client_index: data[0],
            score: i16_le(data[1], data[2]),
            kills: i16_le(data[3], data[4]),
            deaths: i16_le(data[5], data[6]),
        },
    )
}

/// Grammar of a SetFOV payload: one byte.
pub open spec fn spec_set_fov(b: Seq<u8>) -> Option<SetFOV> {
    if b.len() == 1 {
        Some(SetFOV(b[0]))
    } else {
        None
    }
}

fn parse_set_fov(data: &[u8]) -> (r: Option<SetFOV>)
    ensures
        r == spec_set_fov(data@),
{
    if data.len() != 1 {
        return None;
    }
    Some(SetFOV(data[0]))
}

/// A team byte that may be zero: zero stands for no team.
pub open spec fn spec_team_opt_from_tag(tag: u8) -> Option<Option<Team>> {
    if tag == 0 {
        Some(None)
    } else {
        match spec_team_from_tag(tag) {
            Some(t) => Some(Some(t)),
            None => None,
        }
    }
}

fn team_opt_from_tag(tag: u8) -> (r: Option<Option<Team>>)
    ensures
        r == spec_team_opt_from_tag(tag),
{
    if tag == 0 {
        Some(None)
    } else {
        match team_from_tag(tag) {
            Some(t) => Some(Some(t)),
            None => None,
        }
    }
}

/// Grammar of a SetObj payload: area byte, team-or-zero tag, one ignored byte.
pub open spec fn spec_set_obj(b: Seq<u8>) -> Option<SetObj> {
    if b.len() == 3 {
        match spec_team_opt_from_tag(b[1]) {
            Some(t) => Some(SetObj { area_index: b[0], team: t }),
            None => None,
        }
    } else {
        None
    }
}

fn parse_set_obj(data: &[u8]) -> (r: Option<SetObj>)
    ensures
        r == spec_set_obj(data@),
{
    if data.len() != 3 {
        return None;
    }
    match team_opt_from_tag(data[1]) {
        Some(team) => Some(SetObj { area_index: data[0], team }),
        None => None,
    }
}

/// Grammar of a Spectator payload: client byte, flag byte.
pub open spec fn spec_spectator(b: Seq<u8>) -> Option<Spectator> {
    if b.len() == 2 {
        Some(Spectator { client_index: b[0], is_spectator: b[1] != 0 })
    } else {
        None
    }
}

fn parse_spectator(data: &[u8]) -> (r: Option<Spectator>)
    ensures
        r == spec_spectator(data@),
{
    if data.len() != 2 {
        return None;
    }
    Some(Spectator { client_index: data[0], is_spectator: data[1] != 0 })
}

/// Grammar of a StartProg payload: area byte, team tag, 16-bit whole seconds.
pub open spec fn spec_start_prog(b: Seq<u8>) -> Option<StartProg> {
    if b.len() == 4 {
        match spec_team_from_tag(b[1]) {
            Some(t) => Some(
                StartProg {
                    area_index: b[0],
                    team: t,
                    cap_duration: (spec_u16_le(b[2], b[3]) * NANOS_PER_SECOND) as u64,
                },
            ),
            None => None,
        }
    } else {
        None
    }
}

fn parse_start_prog(data: &[u8]) -> (r: Option<StartProg>)
    ensures
        r == spec_start_prog(data@),
{
    if data.len() != 4 {
        return None;
    }
    match team_from_tag(data[1]) {
        Some(team) => Some(
            StartProg {
                area_index: data[0],
                team,
                cap_duration: u16_le(data[2], data[3]) as u64 * NANOS_PER_SECOND,
            },
        ),
        None => None,
    }
}

/// Grammar of a StatusValue payload: one byte.
pub open spec fn spec_status_value(b: Seq<u8>) -> Option<StatusValue> {
    if b.len() == 1 {
        Some(StatusValue(b[0]))
    } else {
        None
    }
}

fn parse_status_value(data: &[u8]) -> (r: Option<StatusValue>)
    ensures
        r == spec_status_value(data@),
{
    if data.len() != 1 {
        return None;
    }
    Some(StatusValue(data[0]))
}

/// Grammar of a TeamScore payload: team tag, 16-bit score.
pub open spec fn spec_team_score(b: Seq<u8>) -> Option<TeamScore> {
    if b.len() == 3 {
        match spec_team_from_tag(b[0]) {
            Some(t) => Some(TeamScore { team: t, score: spec_u16_le(b[1], b[2]) }),
            None => None,
        }
    } else {
        None
    }
}

fn parse_team_score(data: &[u8]) -> (r: Option<TeamScore>)
    ensures
        r == spec_team_score(data@),
{
    if data.len() != 3 {
        return None;
    }
    match team_from_tag(data[0]) {
        Some(team) => Some(TeamScore { team, score: u16_le(data[1], data[2]) }),
        None => None,
    }
}

/// Grammar of a TimeLeft payload: 16-bit whole seconds.
pub open spec fn spec_time_left(b: Seq<u8>) -> Option<TimeLeft> {
    if b.len() == 2 {
        Some(TimeLeft((spec_u16_le(b[0], b[1]) * NANOS_PER_SECOND) as u64))
    } else {
        None
    }
}

fn parse_time_left(data: &[u8]) -> (r: Option<TimeLeft>)
    ensures
        r == spec_time_left(data@),
{
    if data.len() != 2 {
        return None;
    }
    Some(TimeLeft(u16_le(data[0], data[1]) as u64 * NANOS_PER_SECOND))
}

/// Grammar of a UseSound payload: one flag byte.
pub open spec fn spec_use_sound(b: Seq<u8>) -> Option<UseSound> {
    if b.len() == 1 {
        Some(UseSound { is_entity_in_sphere: b[0] != 0 })
    } else {
        None
    }
}

fn parse_use_sound(data: &[u8]) -> (r: Option<UseSound>)
    ensures
        r == spec_use_sound(data@),
{
    if data.len() != 1 {
        return None;
    }
    Some(UseSound { is_entity_in_sphere: data[0] != 0 })
}

/// Grammar of a VoiceMask payload: two 32-bit signed masks.
pub open spec fn spec_voice_mask(b: Seq<u8>) -> Option<VoiceMask> {
    if b.len() == 8 {
        Some(
            VoiceMask {
                audible_players: spec_i32_le(b[0], b[1], b[2], b[3]),
                banned_players: spec_i32_le(b[4], b[5], b[6], b[7]),
            },
        )
    } else {
        None
    }
}

fn parse_voice_mask(data: &[u8]) -> (r: Option<VoiceMask>)
    ensures
        r == spec_voice_mask(data@),
{
    if data.len() != 8 {
        return None;
    }
    Some(
        VoiceMask {
            audible_players: i32_le(data[0], data[1], data[2], data[3]),
            banned_players: i32_le(data[4], data[5], data[6], data[7]),
        },
    )
}

/// Grammar of a WaveStatus payload: one byte.
pub open spec fn spec_wave_status(b: Seq<u8>) -> Option<WaveStatus> {
    if b.len() == 1 {
        Some(WaveStatus(b[0]))
    } else {
        None
    }
}

fn parse_wave_status(data: &[u8]) -> (r: Option<WaveStatus>)
    ensures
        r == spec_wave_status(data@),
{
    if data.len() != 1 {
        return None;
    }
    Some(WaveStatus(data[0]))
}

/// Grammar of a WaveTime payload: one byte of whole seconds.
pub open spec fn spec_wave_time(b: Seq<u8>) -> Option<WaveTime> {
    if b.len() == 1 {
        Some(WaveTime((b[0] * NANOS_PER_SECOND) as u64))
    } else {
        None
    }
}

fn parse_wave_time(data: &[u8]) -> (r: Option<WaveTime>)
    ensures
        r == spec_wave_time(data@),
{
    if data.len() != 1 {
        return None;
    }
    Some(WaveTime(data[0] as u64 * NANOS_PER_SECOND))
}

/// Grammar of a WeaponList payload: two ammo kinds with their maximums, slot
/// data, a weapon tag and clip size.
pub open spec fn spec_weapon_list(b: Seq<u8>) -> Option<WeaponList> {
    if b.len() == 10 {
        match (spec_ammo_from_tag(b[0]), spec_ammo_from_tag(b[2]), spec_weapon_from_tag(b[6])) {
            (Some(primary), Some(secondary), Some(w)) => Some(
                WeaponList {
                    primary_ammo: primary,
                    primary_ammo_max: b[1],
                    secondary_ammo: secondary,
                    secondary_ammo_max: b[3],
                    slot: b[4],
                    position_in_slot: b[5],
                    weapon: w,
                    _unk1: b[7],
                    _unk2: b[8],
                    clip_size: b[9],
                },
            ),
            _ => None,
        }
    } else {
        None
    }
}

fn parse_weapon_list(data: &[u8]) -> (r: Option<WeaponList>)
    ensures
        r == spec_weapon_list(data@),
{
    if data.len() != 10 {
        return None;
    }
    match (ammo_from_tag(data[0]), ammo_from_tag(data[2]), weapon_from_tag(data[6])) {
        (Some(primary_ammo), Some(secondary_ammo), Some(weapon)) => Some(
            WeaponList {
                primary_ammo,
                primary_ammo_max: data[1],
                secondary_ammo,
                secondary_ammo_max: data[3],
                slot: data[4],
                position_in_slot: data[5],
                weapon,
                _unk1: data[7],
                _unk2: data[8],
                clip_size: data[9],
            },
        ),
        _ => None,
    }
}

/// Grammar of a YouDied payload: exactly one byte, ignored.
pub open spec fn spec_you_died(b: Seq<u8>) -> Option<YouDied> {
    if b.len() == 1 {
        Some(YouDied {})
    } else {
        None
    }
}

fn parse_you_died(data: &[u8]) -> (r: Option<YouDied>)
    ensures
        r == spec_you_died(data@),
{
    if data.len() != 1 {
        return None;
    }
    Some(YouDied {})
}

/// Grammar of a PTeam payload: client byte, team tag.
pub open spec fn spec_p_team(b: Seq<u8>) -> Option<PTeam> {
    if b.len() == 2 {
        match spec_team_from_tag(b[1]) {
            Some(t) => Some(PTeam { client_index: b[0], team: t }),
            None => None,
        }
    } else {
        None
    }
}

fn parse_p_team(data: &[u8]) -> (r: Option<PTeam>)
    ensures
        r == spec_p_team(data@),
{
    if data.len() != 2 {
        return None;
    }
    match team_from_tag(data[1]) {
        Some(team) => Some(PTeam { client_index: data[0], team }),
        None => None,
    }
}

// ---------------------------------------------------------------------------
// Messages carrying NUL-terminated or trailing strings
// ---------------------------------------------------------------------------

/// A CapMsg payload parses when a client byte is followed by a NUL-terminated
/// objective name and a team tag that ends the payload.
pub open spec fn spec_cap_msg_ok(b: Seq<u8>) -> bool {
    b.len() >= 1 && match spec_find_nul(b, 1) {
        Some(k) => b.len() == k + 2 && spec_team_from_tag(b[k + 1]) is Some,
        None => false,
    }
}

pub open spec fn spec_cap_msg_fields(b: Seq<u8>, m: CapMsg) -> bool {
    b.len() >= 1 && match spec_find_nul(b, 1) {
        Some(k) => m.client_index == b[0] && m.point_name@ == b.subrange(1, k)
            && Some(m.team) == spec_team_from_tag(b[k + 1]),
        None => false,
    }
}

fn parse_cap_msg(data: &[u8]) -> (r: Option<CapMsg>)
    ensures
        r is Some <==> spec_cap_msg_ok(data@),
        r matches Some(m) ==> spec_cap_msg_fields(data@, m),
{
    if data.len() < 1 {
        return None;
    }
    match find_nul(data, 1) {
        None => None,
        Some(k) => {
            proof {
                lemma_find_nul(data@, 1);
            }
            if data.len() < 2 || k != data.len() - 2 {
                return None;
            }
            match team_from_tag(data[k + 1]) {
                Some(team) => {
                    let point_name = slice_to_vec(slice_subrange(data, 1, k));
                    Some(CapMsg { client_index: data[0], point_name, team })
                },
                None => None,
            }
        },
    }
}

/// A ClCorpse payload parses when a NUL-terminated model name is followed by
/// exactly thirteen bytes: origin, angle, animation, body and team.
pub open spec fn spec_cl_corpse_ok(b: Seq<u8>) -> bool {
    match spec_find_nul(b, 0) {
        Some(k) => b.len() == k + 14 && spec_team_from_tag(b[k + 13]) is Some,
        None => false,
    }
}

pub open spec fn spec_cl_corpse_fields(b: Seq<u8>, m: ClCorpse) -> bool {
    match spec_find_nul(b, 0) {
        Some(k) => m.model_name@ == b.subrange(0, k) && m.origin_x == spec_i16_le(
            b[k + 1],
            b[k + 2],
        ) && m.origin_y == spec_i16_le(b[k + 3], b[k + 4]) && m.origin_z == spec_i16_le(
            b[k + 5],
            b[k + 6],
        ) && m.angle_x == b[k + 7] as i8 && m.angle_y == b[k + 8] as i8 && m.angle_z == b[k
            + 9] as i8 && m.animation_sequence == b[k + 10] && m.body == spec_u16_le(
            b[k + 11],
            b[k + 12],
        ) && Some(m.team) == spec_team_from_tag(b[k + 13]),
        None => false,
    }
}

fn parse_cl_corpse(data: &[u8]) -> (r: Option<ClCorpse>)
    ensures
        r is Some <==> spec_cl_corpse_ok(data@),
        r matches Some(m) ==> spec_cl_corpse_fields(data@, m),
{
    match find_nul(data, 0) {
        None => None,
        Some(k) => {
            proof {
                lemma_find_nul(data@, 0);
            }
            if data.len() < 14 || k != data.len() - 14 {
                return None;
            }
            match team_from_tag(data[k + 13]) {
                Some(team) => {
                    let model_name = slice_to_vec(slice_subrange(data, 0, k));
                    Some(
                        ClCorpse {
                            model_name,
                            origin_x: i16_le(data[k + 1], data[k + 2]),
                            origin_y: i16_le(data[k + 3], data[k + 4]),
                            origin_z: i16_le(data[k + 5], data[k + 6]),
                            angle_x: data[k + 7] as i8,
                            angle_y: data[k + 8] as i8,
                            angle_z: data[k + 9] as i8,
                            animation_sequence: data[k + 10],
                            body: u16_le(data[k + 11], data[k + 12]),
                            team,
                        },
                    )
                },
                None => None,
            }
        },
    }
}

/// A ClientAreas payload is an icon byte and a flags byte; when the flags byte
/// is 255 a NUL-terminated icon name ends the payload.
pub open spec fn spec_client_areas_ok(b: Seq<u8>) -> bool {
    if b.len() < 2 {
        false
    } else if b[1] == 255 {
        match spec_find_nul(b, 2) {
            Some(k) => b.len() == k + 1,
            None => false,
        }
    } else {
        b.len() == 2
    }
}

pub open spec fn spec_client_areas_fields(b: Seq<u8>, m: ClientAreas) -> bool {
    b.len() >= 2 && m.icon_index == b[0] && if b[1] == 255 {
        match spec_find_nul(b, 2) {
            Some(k) => m.hud_icon matches Some(icon) && icon@ == b.subrange(2, k),
            None => false,
        }
    } else {
        m.hud_icon is None
    }
}

fn parse_client_areas(data: &[u8]) -> (r: Option<ClientAreas>)
    ensures
        r is Some <==> spec_client_areas_ok(data@),
        r matches Some(m) ==> spec_client_areas_fields(data@, m),
{
    if data.len() < 2 {
        return None;
    }
    if data[1] == 255 {
        match find_nul(data, 2) {
            None => None,
            Some(k) => {
                proof {
                    lemma_find_nul(data@, 2);
                }
                if k != data.len() - 1 {
                    return None;
                }
                let hud_icon = slice_to_vec(slice_subrange(data, 2, k));
                Some(ClientAreas { icon_index: data[0], hud_icon: Some(hud_icon) })
            },
        }
    } else {
        if data.len() != 2 {
            return None;
        }
        Some(ClientAreas { icon_index: data[0], hud_icon: None })
    }
}

/// A HudText payload parses when a NUL-terminated text is followed by exactly
/// one style byte.
pub open spec fn spec_hud_text_ok(b: Seq<u8>) -> bool {
    match spec_find_nul(b, 0) {
        Some(k) => b.len() == k + 2,
        None => false,
    }
}

pub open spec fn spec_hud_text_fields(b: Seq<u8>, m: HudText) -> bool {
    match spec_find_nul(b, 0) {
        Some(k) => m.text@ == b.subrange(0, k) && m.init_hud_style == b[k + 1],
        None => false,
    }
}

fn parse_hud_text(data: &[u8]) -> (r: Option<HudText>)
    ensures
        r is Some <==> spec_hud_text_ok(data@),
        r matches Some(m) ==> spec_hud_text_fields(data@, m),
{
    match find_nul(data, 0) {
        None => None,
        Some(k) => {
            proof {
                lemma_find_nul(data@, 0);
            }
            if data.len() < 2 || k != data.len() - 2 {
                return None;
            }
            let text = slice_to_vec(slice_subrange(data, 0, k));
            Some(HudText { text, init_hud_style: data[k + 1] })
        },
    }
}

/// A Motd payload is a terminal flag byte followed by text running to the end
/// of the payload.
pub open spec fn spec_motd_ok(b: Seq<u8>) -> bool {
    b.len() >= 1
}

pub open spec fn spec_motd_fields(b: Seq<u8>, m: Motd) -> bool {
    b.len() >= 1 && m.is_terminal == (b[0] != 0) && m.text@ == b.subrange(1, b.len() as int)
}

fn parse_motd(data: &[u8]) -> (r: Option<Motd>)
    ensures
        r is Some <==> spec_motd_ok(data@),
        r matches Some(m) ==> spec_motd_fields(data@, m),
{
    if data.len() < 1 {
        return None;
    }
    let text = slice_to_vec(slice_subrange(data, 1, data.len()));
    Some(Motd { is_terminal: data[0] != 0, text })
}

/// A SayText payload parses when a client byte and one ignored byte are
/// followed by a NUL-terminated chat line that ends the payload.
pub open spec fn spec_say_text_ok(b: Seq<u8>) -> bool {
    b.len() >= 2 && match spec_find_nul(b, 2) {
        Some(k) => b.len() == k + 1,
        None => false,
    }
}

pub open spec fn spec_say_text_fields(b: Seq<u8>, m: SayText) -> bool {
    b.len() >= 2 && m.client_index == b[0] && match spec_find_nul(b, 2) {
        Some(k) => m.text@ == b.subrange(2, k),
        None => false,
    }
}

fn parse_say_text(data: &[u8]) -> (r: Option<SayText>)
    ensures
        r is Some <==> spec_say_text_ok(data@),
        r matches Some(m) ==> spec_say_text_fields(data@, m),
{
    if data.len() < 2 {
        return None;
    }
    match find_nul(data, 2) {
        None => None,
        Some(k) => {
            proof {
                lemma_find_nul(data@, 2);
            }
            if k != data.len() - 1 {
                return None;
            }
            let text = slice_to_vec(slice_subrange(data, 2, k));
            Some(SayText { client_index: data[0], text })
        },
    }
}

/// A ServerName payload is the whole payload taken as the name.
pub open spec fn spec_server_name_fields(b: Seq<u8>, m: ServerName) -> bool {
    m.0@ == b
}

fn parse_server_name(data: &[u8]) -> (r: ServerName)
    ensures
        spec_server_name_fields(data@, r),
{
    ServerName(slice_to_vec(data))
}

// ---------------------------------------------------------------------------
// InitObj
// ---------------------------------------------------------------------------

/// One objective record inside an InitObj payload, twelve bytes at `off`.
pub open spec fn spec_objective_ok(b: Seq<u8>, off: int) -> bool {
    0 <= off && off + 12 <= b.len() && spec_team_opt_from_tag(b[off + 3]) is Some
}

pub open spec fn spec_objective(b: Seq<u8>, off: int) -> Objective {
    Objective {
        entity_index: spec_u16_le(b[off], b[off + 1]),
        area_index: b[off + 2],
        team: spec_team_opt_from_tag(b[off + 3]).unwrap(),
        _unk1: b[off + 4],
        neutral_icon_index: b[off + 5],
        allies_icon_index: b[off + 6],
        axis_icon_index: b[off + 7],
        origin_x: spec_i16_le(b[off + 8], b[off + 9]),
        origin_y: spec_i16_le(b[off + 10], b[off + 11]),
    }
}

/// An InitObj payload is a count byte followed by exactly that many
/// twelve-byte objective records.
pub open spec fn spec_init_obj_ok(b: Seq<u8>) -> bool {
    b.len() >= 1 && b.len() == 1 + 12 * (b[0] as int) && forall|i: int|
        0 <= i < b[0] as int ==> #[trigger] spec_objective_ok(b, 1 + 12 * i)
}

pub open spec fn spec_init_obj_fields(b: Seq<u8>, m: InitObj) -> bool {
    b.len() >= 1 && m.objectives@.len() == b[0] as int && forall|i: int|
        0 <= i < b[0] as int ==> m.objectives@[i] == #[trigger] spec_objective(b, 1 + 12 * i)
}

fn parse_init_obj(data: &[u8]) -> (r: Option<InitObj>)
    ensures
        r is Some <==> spec_init_obj_ok(data@),
        r matches Some(m) ==> spec_init_obj_fields(data@, m),
{
    if data.len() < 1 {
        return None;
    }
    let count = data[0] as usize;
    if data.len() != 1 + 12 * count {
        return None;
    }
    let mut objectives: Vec<Objective> = Vec::new();
    let mut i: usize = 0;
    while i < count
        invariant
            0 <= i <= count,
            count == data@[0] as int,
            data@.len() == 1 + 12 * count,
            objectives@.len() == i,
            forall|j: int| 0 <= j < i ==> #[trigger] spec_objective_ok(data@, 1 + 12 * j),
            forall|j: int| 0 <= j < i ==> objectives@[j] == #[trigger] spec_objective(
                data@,
                1 + 12 * j,
            ),
        decreases count - i,
    {
        let off: usize = 1 + 12 * i;
        match team_opt_from_tag(data[off + 3]) {
            None => {
                proof {
                    assert(!spec_objective_ok(data@, 1 + 12 * (i as int)));
                }
                return None;
            },
            Some(team) => {
                objectives.push(
                    Objective {
                        entity_index: u16_le(data[off], data[off + 1]),
                        area_index: data[off + 2],
                        team,
                        _unk1: data[off + 4],
                        neutral_icon_index: data[off + 5],
                        allies_icon_index: data[off + 6],
                        axis_icon_index: data[off + 7],
                        origin_x: i16_le(data[off + 8], data[off + 9]),
                        origin_y: i16_le(data[off + 10], data[off + 11]),
                    },
                );
            },
        }
        i = i + 1;
    }
    Some(InitObj { objectives })
}

// ---------------------------------------------------------------------------
// TextMsg
// ---------------------------------------------------------------------------

/// A TextMsg payload is a destination byte followed by one mandatory and up to
/// four optional NUL-terminated strings that together end the payload.
pub open spec fn spec_text_msg_ok(b: Seq<u8>) -> bool {
    b.len() >= 1 && match spec_find_nul(b, 1) {
        Some(k1) => spec_text_args_ok(b, k1 + 1, 4),
        None => false,
    }
}

/// Up to `left` further NUL-terminated strings starting at `pos` must cover
/// the rest of the payload exactly.
pub open spec fn spec_text_args_ok(b: Seq<u8>, pos: int, left: int) -> bool
    decreases left when left >= 0
{
    if pos == b.len() {
        true
    } else if left == 0 {
        false
    } else {
        match spec_find_nul(b, pos) {
            Some(k) => spec_text_args_ok(b, k + 1, left - 1),
            None => false,
        }
    }
}

pub open spec fn spec_text_msg_fields(b: Seq<u8>, m: TextMsg) -> bool {
    b.len() >= 1 && m.destination == b[0] && match spec_find_nul(b, 1) {
        Some(k1) => {
            m.text@ == b.subrange(1, k1) && spec_text_arg_fields(b, k1 + 1, m.arg1)
                && match spec_find_nul(b, k1 + 1) {
                Some(k2) => spec_text_arg_fields(b, k2 + 1, m.arg2) && match spec_find_nul(
                    b,
                    k2 + 1,
                ) {
                    Some(k3) => spec_text_arg_fields(b, k3 + 1, m.arg3) && match spec_find_nul(
                        b,
                        k3 + 1,
                    ) {
                        Some(k4) => spec_text_arg_fields(b, k4 + 1, m.arg4),
                        None => m.arg4 is None,
                    },
                    None => m.arg3 is None && m.arg4 is None,
                },
                None => m.arg2 is None && m.arg3 is None && m.arg4 is None,
            }
        },
        None => false,
    }
}

/// The optional string starting at `pos`: present when a NUL-terminated
/// segment begins there, absent when `pos` is the end of the payload.
pub open spec fn spec_text_arg_fields(b: Seq<u8>, pos: int, arg: Option<Vec<u8>>) -> bool {
    if pos == b.len() {
        arg is None
    } else {
        match spec_find_nul(b, pos) {
            Some(k) => arg matches Some(v) && v@ == b.subrange(pos, k),
            None => true,
        }
    }
}

/// Consuming one optional string advances the all-consuming check by one step.
proof fn lemma_text_args_step(b: Seq<u8>, pos: int, left: int, arg: Option<Vec<u8>>, next: int)
    requires
        0 <= pos <= b.len(),
        left >= 1,
        arg is Some ==> spec_find_nul(b, pos) == Some(next - 1) && pos <= next <= b.len(),
        arg is None ==> pos == b.len(),
    ensures
        spec_text_args_ok(b, pos, left) == if arg is Some {
            spec_text_args_ok(b, next, left - 1)
        } else {
            true
        },
{
    if arg is Some && pos == b.len() {
        assert(spec_find_nul(b, pos) is None);
    }
}

/// One optional argument: `Ok(Some)` when a segment was consumed, `Ok(None)`
/// when the payload ended, `Err` when bytes remain without a NUL.
fn parse_text_arg(data: &[u8], pos: usize) -> (r: Result<(Option<Vec<u8>>, usize), ()>)
    requires
        pos <= data@.len(),
    ensures
        match r {
            Ok((arg, next)) => pos <= next <= data@.len() && spec_text_arg_fields(
                data@,
                pos as int,
                arg,
            ) && (arg is Some ==> spec_find_nul(data@, pos as int) == Some(next - 1)) && (
            arg is None ==> pos == data@.len() && next == pos),
            Err(()) => pos < data@.len() && spec_find_nul(data@, pos as int) is None,
        },
{
    if pos == data.len() {
        return Ok((None, pos));
    }
    match find_nul(data, pos) {
        None => Err(()),
        Some(k) => {
            proof {
                lemma_find_nul(data@, pos as int);
            }
            let arg = slice_to_vec(slice_subrange(data, pos, k));
            Ok((Some(arg), k + 1))
        },
    }
}

fn parse_text_msg(data: &[u8]) -> (r: Option<TextMsg>)
    ensures
        r is Some <==> spec_text_msg_ok(data@),
        r matches Some(m) ==> spec_text_msg_fields(data@, m),
{
    if data.len() < 1 {
        return None;
    }
    let k1 = match find_nul(data, 1) {
        None => {
            return None;
        },
        Some(k1) => k1,
    };
    proof {
        lemma_find_nul(data@, 1);
    }
    let text = slice_to_vec(slice_subrange(data, 1, k1));
    let (arg1, p2) = match parse_text_arg(data, k1 + 1) {
        Ok(x) => x,
        Err(()) => {
            return None;
        },
    };
    proof {
        lemma_text_args_step(data@, k1 + 1 as int, 4, arg1, p2 as int);
    }
    let (arg2, p3) = match parse_text_arg(data, p2) {
        Ok(x) => x,
        Err(()) => {
            return None;
        },
    };
    proof {
        lemma_text_args_step(data@, p2 as int, 3, arg2, p3 as int);
    }
    let (arg3, p4) = match parse_text_arg(data, p3) {
        Ok(x) => x,
        Err(()) => {
            return None;
        },
    };
    proof {
        lemma_text_args_step(data@, p3 as int, 2, arg3, p4 as int);
    }
    let (arg4, p5) = match parse_text_arg(data, p4) {
        Ok(x) => x,
        Err(()) => {
            return None;
        },
    };
    proof {
        lemma_text_args_step(data@, p4 as int, 1, arg4, p5 as int);
    }
    if p5 != data.len() {
        return None;
    }
    Some(TextMsg { destination: data[0], text, arg1, arg2, arg3, arg4 })
}

// ---------------------------------------------------------------------------
// Message dispatch
// ---------------------------------------------------------------------------

/// A message name on the wire, with its trailing NUL padding dropped.
pub open spec fn spec_trim_nuls(b: Seq<u8>) -> Seq<u8>
    decreases b.len(),
{
    if b.len() > 0 && b[b.len() - 1] == 0 {
        spec_trim_nuls(b.drop_last())
    } else {
        b
    }
}

proof fn lemma_trim_nuls(b: Seq<u8>, end: int)
    requires
        0 <= end <= b.len(),
        forall|j: int| end <= j < b.len() ==> b[j] == 0,
        end > 0 ==> b[end - 1] != 0,
    ensures
        spec_trim_nuls(b) == b.subrange(0, end),
    decreases b.len(),
{
    if b.len() > end {
        assert(b[b.len() - 1] == 0);
        assert(forall|j: int| end <= j < b.drop_last().len() ==> b.drop_last()[j] == 0);
        lemma_trim_nuls(b.drop_last(), end);
        assert(b.drop_last().subrange(0, end) =~= b.subrange(0, end));
    } else {
        assert(b =~= b.subrange(0, end));
    }
}

/// True when the trimmed name is recognized and the payload parses under that
/// message's grammar.
pub open spec fn spec_message_ok(name: Seq<u8>, data: Seq<u8>) -> bool {
    if name == "AmmoShort".spec_bytes() {
        spec_ammo_short(data) is Some
    } else if name == "AmmoX".spec_bytes() {
        spec_ammox(data) is Some
    } else if name == "BloodPuff".spec_bytes() {
        spec_blood_puff(data) is Some
    } else if name == "CancelProg".spec_bytes() {
        spec_cancel_prog(data) is Some
    } else if name == "CapMsg".spec_bytes() {
        spec_cap_msg_ok(data)
    } else if name == "ClCorpse".spec_bytes() {
        spec_cl_corpse_ok(data)
    } else if name == "ClanTimer".spec_bytes() {
        spec_clan_timer(data) is Some
    } else if name == "ClientAreas".spec_bytes() {
        spec_client_areas_ok(data)
    } else if name == "CurWeapon".spec_bytes() {
        spec_cur_weapon(data) is Some
    } else if name == "DeathMsg".spec_bytes() {
        spec_death_msg(data) is Some
    } else if name == "Frags".spec_bytes() {
        spec_frags(data) is Some
    } else if name == "GameRules".spec_bytes() {
        spec_game_rules(data) is Some
    } else if name == "Health".spec_bytes() {
        spec_health(data) is Some
    } else if name == "HideWeapon".spec_bytes() {
        spec_hide_weapon(data) is Some
    } else if name == "HudText".spec_bytes() {
        spec_hud_text_ok(data)
    } else if name == "InitHUD".spec_bytes() {
        spec_empty_ok(data)
    } else if name == "InitObj".spec_bytes() {
        spec_init_obj_ok(data)
    } else if name == "MOTD".spec_bytes() {
        spec_motd_ok(data)
    } else if name == "ObjScore".spec_bytes() {
        spec_obj_score(data) is Some
    } else if name == "PClass".spec_bytes() {
        spec_p_class(data) is Some
    } else if name == "PStatus".spec_bytes() {
        spec_p_status(data) is Some
    } else if name == "PTeam".spec_bytes() {
        spec_p_team(data) is Some
    } else if name == "PlayersIn".spec_bytes() {
        spec_players_in(data) is Some
    } else if name == "ReloadDone".spec_bytes() {
        spec_empty_ok(data)
    } else if name == "ReqState".spec_bytes() {
        spec_empty_ok(data)
    } else if name == "ResetHUD".spec_bytes() {
        spec_empty_ok(data)
    } else if name == "ResetSens".spec_bytes() {
        spec_empty_ok(data)
    } else if name == "RoundState".spec_bytes() {
        spec_round_state(data) is Some
    } else if name == "SayText".spec_bytes() {
        spec_say_text_ok(data)
    } else if name == "Scope".spec_bytes() {
        spec_scope(data) is Some
    } else if name == "ScoreShort".spec_bytes() {
        spec_score_short(data) is Some
    } else if name == "ServerName".spec_bytes() {
        true
    } else if name == "SetFOV".spec_bytes() {
        spec_set_fov(data) is Some
    } else if name == "SetObj".spec_bytes() {
        spec_set_obj(data) is Some
    } else if name == "Spectator".spec_bytes() {
        spec_spectator(data) is Some
    } else if name == "StartProg".spec_bytes() {
        spec_start_prog(data) is Some
    } else if name == "StatusValue".spec_bytes() {
        spec_status_value(data) is Some
    } else if name == "TeamScore".spec_bytes() {
        spec_team_score(data) is Some
    } else if name == "TextMsg".spec_bytes() {
        spec_text_msg_ok(data)
    } else if name == "TimeLeft".spec_bytes() {
        spec_time_left(data) is Some
    } else if name == "UseSound".spec_bytes() {
        spec_use_sound(data) is Some
    } else if name == "VoiceMask".spec_bytes() {
        spec_voice_mask(data) is Some
    } else if name == "WaveStatus".spec_bytes() {
        spec_wave_status(data) is Some
    } else if name == "WaveTime".spec_bytes() {
        spec_wave_time(data) is Some
    } else if name == "WeaponList".spec_bytes() {
        spec_weapon_list(data) is Some
    } else if name == "YouDied".spec_bytes() {
        spec_you_died(data) is Some
    } else {
        // ScreenFade, ScreenShake and VGUIMenu are registered by the mod, but
        // their payload grammars are not understood: decoding them always
        // fails, as it does for unknown names.
        false
    }
}

/// The decoded message that a trimmed name and payload stand for.
pub open spec fn spec_message_matches(name: Seq<u8>, data: Seq<u8>, m: UserMessage) -> bool {
    match m {
        UserMessage::AmmoShort(x) => name == "AmmoShort".spec_bytes() && spec_ammo_short(data)
            == Some(x),
        UserMessage::AmmoX(x) => name == "AmmoX".spec_bytes() && spec_ammox(data) == Some(x),
        UserMessage::BloodPuff(x) => name == "BloodPuff".spec_bytes() && spec_blood_puff(data)
            == Some(x),
        UserMessage::CancelProg(x) => name == "CancelProg".spec_bytes() && spec_cancel_prog(data)
            == Some(x),
        UserMessage::CapMsg(x) => name == "CapMsg".spec_bytes() && spec_cap_msg_fields(data, x),
        UserMessage::ClCorpse(x) => name == "ClCorpse".spec_bytes() && spec_cl_corpse_fields(
            data,
            x,
        ),
        UserMessage::ClanTimer(x) => name == "ClanTimer".spec_bytes() && spec_clan_timer(data)
            == Some(x),
        UserMessage::ClientAreas(x) => name == "ClientAreas".spec_bytes()
            && spec_client_areas_fields(data, x),
        UserMessage::CurWeapon(x) => name == "CurWeapon".spec_bytes() && spec_cur_weapon(data)
            == Some(x),
        UserMessage::DeathMsg(x) => name == "DeathMsg".spec_bytes() && spec_death_msg(data)
            == Some(x),
        UserMessage::Frags(x) => name == "Frags".spec_bytes() && spec_frags(data) == Some(x),
        UserMessage::GameRules(x) => name == "GameRules".spec_bytes() && spec_game_rules(data)
            == Some(x),
        UserMessage::Health(x) => name == "Health".spec_bytes() && spec_health(data) == Some(x),
        UserMessage::HideWeapon(x) => name == "HideWeapon".spec_bytes() && spec_hide_weapon(data)
            == Some(x),
        UserMessage::HudText(x) => name == "HudText".spec_bytes() && spec_hud_text_fields(data, x),
        UserMessage::InitHUD(_) => name == "InitHUD".spec_bytes() && spec_empty_ok(data),
        UserMessage::InitObj(x) => name == "InitObj".spec_bytes() && spec_init_obj_fields(data, x),
        UserMessage::Motd(x) => name == "MOTD".spec_bytes() && spec_motd_fields(data, x),
        UserMessage::ObjScore(x) => name == "ObjScore".spec_bytes() && spec_obj_score(data)
            == Some(x),
        UserMessage::PClass(x) => name == "PClass".spec_bytes() && spec_p_class(data) == Some(x),
        UserMessage::PStatus(x) => name == "PStatus".spec_bytes() && spec_p_status(data)
            == Some(x),
        UserMessage::PTeam(x) => name == "PTeam".spec_bytes() && spec_p_team(data) == Some(x),
        UserMessage::PlayersIn(x) => name == "PlayersIn".spec_bytes() && spec_players_in(data)
            == Some(x),
        UserMessage::ReloadDone(_) => name == "ReloadDone".spec_bytes() && spec_empty_ok(data),
        UserMessage::ReqState(_) => name == "ReqState".spec_bytes() && spec_empty_ok(data),
        UserMessage::ResetHUD(_) => name == "ResetHUD".spec_bytes() && spec_empty_ok(data),
        UserMessage::ResetSens(_) => name == "ResetSens".spec_bytes() && spec_empty_ok(data),
        UserMessage::RoundState(x) => name == "RoundState".spec_bytes() && spec_round_state(data)
            == Some(x),
        UserMessage::SayText(x) => name == "SayText".spec_bytes() && spec_say_text_fields(data, x),
        UserMessage::Scope(_) => name == "Scope".spec_bytes() && spec_scope(data) is Some,
        UserMessage::ScoreShort(x) => name == "ScoreShort".spec_bytes() && spec_score_short(data)
            == Some(x),
        UserMessage::ServerName(x) => name == "ServerName".spec_bytes()
            && spec_server_name_fields(data, x),
        UserMessage::SetFOV(x) => name == "SetFOV".spec_bytes() && spec_set_fov(data) == Some(x),
        UserMessage::SetObj(x) => name == "SetObj".spec_bytes() && spec_set_obj(data) == Some(x),
        UserMessage::Spectator(x) => name == "Spectator".spec_bytes() && spec_spectator(data)
            == Some(x),
        UserMessage::StartProg(x) => name == "StartProg".spec_bytes() && spec_start_prog(data)
            == Some(x),
        UserMessage::StatusValue(x) => name == "StatusValue".spec_bytes() && spec_status_value(
            data,
        ) == Some(x),
        UserMessage::TeamScore(x) => name == "TeamScore".spec_bytes() && spec_team_score(data)
            == Some(x),
        UserMessage::TextMsg(x) => name == "TextMsg".spec_bytes() && spec_text_msg_fields(data, x),
        UserMessage::TimeLeft(x) => name == "TimeLeft".spec_bytes() && spec_time_left(data)
            == Some(x),
        UserMessage::UseSound(x) => name == "UseSound".spec_bytes() && spec_use_sound(data)
            == Some(x),
        UserMessage::VoiceMask(x) => name == "VoiceMask".spec_bytes() && spec_voice_mask(data)
            == Some(x),
        UserMessage::WaveStatus(x) => name == "WaveStatus".spec_bytes() && spec_wave_status(data)
            == Some(x),
        UserMessage::WaveTime(x) => name == "WaveTime".spec_bytes() && spec_wave_time(data)
            == Some(x),
        UserMessage::WeaponList(x) => name == "WeaponList".spec_bytes() && spec_weapon_list(data)
            == Some(x),
        UserMessage::YouDied(_) => name == "YouDied".spec_bytes() && spec_you_died(data) is Some,
        _ => false,
    }
}

impl UserMessage {
    /// Decodes one user message from its NUL-padded name and payload bytes.
    ///
    /// Unknown names fail, and recognized names whose payloads do not match
    /// the message's grammar fail.
    #[verifier::rlimit(100)]
    pub fn new(msg_name: &[u8], msg_data: &[u8]) -> (r: Result<UserMessage, Error>)
        ensures
            r is Ok <==> spec_message_ok(spec_trim_nuls(msg_name@), msg_data@),
            r matches Ok(m) ==> spec_message_matches(spec_trim_nuls(msg_name@), msg_data@, m),
            r is Err ==> r == Err::<UserMessage, Error>(Error::ParserError),
    {
        let mut end: usize = msg_name.len();
        while end > 0 && msg_name[end - 1] == 0
            invariant
                0 <= end <= msg_name@.len(),
                forall|j: int| end <= j < msg_name@.len() ==> msg_name@[j] == 0,
            decreases end,
        {
            end = end - 1;
        }
        proof {
            lemma_trim_nuls(msg_name@, end as int);
        }
        let name = slice_subrange(msg_name, 0, end);
        if bytes_eq_str(name, "AmmoShort") {
            match parse_ammo_short(msg_data) {
                Some(m) => Ok(UserMessage::AmmoShort(m)),
                None => Err(Error::ParserError),
            }
        } else if bytes_eq_str(name, "AmmoX") {
            match parse_ammox(msg_data) {
                Some(m) => Ok(UserMessage::AmmoX(m)),
                None => Err(Error::ParserError),
            }
        } else if bytes_eq_str(name, "BloodPuff") {
            match parse_blood_puff(msg_data) {
                Some(m) => Ok(UserMessage::BloodPuff(m)),
                None => Err(Error::ParserError),
            }
        } else if bytes_eq_str(name, "CancelProg") {
            match parse_cancel_prog(msg_data) {
                Some(m) => Ok(UserMessage::CancelProg(m)),
                None => Err(Error::ParserError),
            }
        } else if bytes_eq_str(name, "CapMsg") {
            match parse_cap_msg(msg_data) {
                Some(m) => Ok(UserMessage::CapMsg(m)),
                None => Err(Error::ParserError),
            }
        } else if bytes_eq_str(name, "ClCorpse") {
            match parse_cl_corpse(msg_data) {
                Some(m) => Ok(UserMessage::ClCorpse(m)),
                None => Err(Error::ParserError),
            }
        } else if bytes_eq_str(name, "ClanTimer") {
            match parse_clan_timer(msg_data) {
                Some(m) => Ok(UserMessage::ClanTimer(m)),
                None => Err(Error::ParserError),
            }
        } else if bytes_eq_str(name, "ClientAreas") {
            match parse_client_areas(msg_data) {
                Some(m) => Ok(UserMessage::ClientAreas(m)),
                None => Err(Error::ParserError),
            }
        } else if bytes_eq_str(name, "CurWeapon") {
            match parse_cur_weapon(msg_data) {
                Some(m) => Ok(UserMessage::CurWeapon(m)),
                None => Err(Error::ParserError),
            }
        } else if bytes_eq_str(name, "DeathMsg") {
            match parse_death_msg(msg_data) {
                Some(m) => Ok(UserMessage::DeathMsg(m)),
                None => Err(Error::ParserError),
            }
        } else if bytes_eq_str(name, "Frags") {
            match parse_frags(msg_data) {
                Some(m) => Ok(UserMessage::Frags(m)),
                None => Err(Error::ParserError),
            }
        } else if bytes_eq_str(name, "GameRules") {
            match parse_game_rules(msg_data) {
                Some(m) => Ok(UserMessage::GameRules(m)),
                None => Err(Error::ParserError),
            }
        } else if bytes_eq_str(name, "Health") {
            match parse_health(msg_data) {
                Some(m) => Ok(UserMessage::Health(m)),
                None => Err(Error::ParserError),
            }
        } else if bytes_eq_str(name, "HideWeapon") {
            match parse_hide_weapon(msg_data) {
                Some(m) => Ok(UserMessage::HideWeapon(m)),
                None => Err(Error::ParserError),
            }
        } else if bytes_eq_str(name, "HudText") {
            match parse_hud_text(msg_data) {
                Some(m) => Ok(UserMessage::HudText(m)),
                None => Err(Error::ParserError),
            }
        } else if bytes_eq_str(name, "InitHUD") {
            match parse_init_hud(msg_data) {
                Some(m) => Ok(UserMessage::InitHUD(m)),
                None => Err(Error::ParserError),
            }
        } else if bytes_eq_str(name, "InitObj") {
            match parse_init_obj(msg_data) {
                Some(m) => Ok(UserMessage::InitObj(m)),
                None => Err(Error::ParserError),
            }
        } else if bytes_eq_str(name, "MOTD") {
            match parse_motd(msg_data) {
                Some(m) => Ok(UserMessage::Motd(m)),
                None => Err(Error::ParserError),
            }
        } else if bytes_eq_str(name, "ObjScore") {
            match parse_obj_score(msg_data) {
                Some(m) => Ok(UserMessage::ObjScore(m)),
                None => Err(Error::ParserError),
            }
        } else if bytes_eq_str(name, "PClass") {
            match parse_p_class(msg_data) {
                Some(m) => Ok(UserMessage::PClass(m)),
                None => Err(Error::ParserError),
            }
        } else if bytes_eq_str(name, "PStatus") {
            match parse_p_status(msg_data) {
                Some(m) => Ok(UserMessage::PStatus(m)),
                None => Err(Error::ParserError),
            }
        } else if bytes_eq_str(name, "PTeam") {
            match parse_p_team(msg_data) {
                Some(m) => Ok(UserMessage::PTeam(m)),
                None => Err(Error::ParserError),
            }
        } else if bytes_eq_str(name, "PlayersIn") {
            match parse_players_in(msg_data) {
                Some(m) => Ok(UserMessage::PlayersIn(m)),
                None => Err(Error::ParserError),
            }
        } else if bytes_eq_str(name, "ReloadDone") {
            if msg_data.len() == 0 {
                Ok(UserMessage::ReloadDone(ReloadDone {}))
            } else {
                Err(Error::ParserError)
            }
        } else if bytes_eq_str(name, "ReqState") {
            if msg_data.len() == 0 {
                Ok(UserMessage::ReqState(ReqState {}))
            } else {
                Err(Error::ParserError)
            }
        } else if bytes_eq_str(name, "ResetHUD") {
            if msg_data.len() == 0 {
                Ok(UserMessage::ResetHUD(ResetHUD {}))
            } else {
                Err(Error::ParserError)
            }
        } else if bytes_eq_str(name, "ResetSens") {
            if msg_data.len() == 0 {
                Ok(UserMessage::ResetSens(ResetSens {}))
            } else {
                Err(Error::ParserError)
            }
        } else if bytes_eq_str(name, "RoundState") {
            match parse_round_state(msg_data) {
                Some(m) => Ok(UserMessage::RoundState(m)),
                None => Err(Error::ParserError),
            }
        } else if bytes_eq_str(name, "SayText") {
            match parse_say_text(msg_data) {
                Some(m) => Ok(UserMessage::SayText(m)),
                None => Err(Error::ParserError),
            }
        } else if bytes_eq_str(name, "Scope") {
            match parse_scope(msg_data) {
                Some(m) => Ok(UserMessage::Scope(m)),
                None => Err(Error::ParserError),
            }
        } else if bytes_eq_str(name, "ScoreShort") {
            match parse_score_short(msg_data) {
                Some(m) => Ok(UserMessage::ScoreShort(m)),
                None => Err(Error::ParserError),
            }
        } else if bytes_eq_str(name, "ServerName") {
            Ok(UserMessage::ServerName(parse_server_name(msg_data)))
        } else if bytes_eq_str(name, "SetFOV") {
            match parse_set_fov(msg_data) {
                Some(m) => Ok(UserMessage::SetFOV(m)),
                None => Err(Error::ParserError),
            }
        } else if bytes_eq_str(name, "SetObj") {
            match parse_set_obj(msg_data) {
                Some(m) => Ok(UserMessage::SetObj(m)),
                None => Err(Error::ParserError),
            }
        } else if bytes_eq_str(name, "Spectator") {
            match parse_spectator(msg_data) {
                Some(m) => Ok(UserMessage::Spectator(m)),
                None => Err(Error::ParserError),
            }
        } else if bytes_eq_str(name, "StartProg") {
            match parse_start_prog(msg_data) {
                Some(m) => Ok(UserMessage::StartProg(m)),
                None => Err(Error::ParserError),
            }
        } else if bytes_eq_str(name, "StatusValue") {
            match parse_status_value(msg_data) {
                Some(m) => Ok(UserMessage::StatusValue(m)),
                None => Err(Error::ParserError),
            }
        } else if bytes_eq_str(name, "TeamScore") {
            match parse_team_score(msg_data) {
                Some(m) => Ok(UserMessage::TeamScore(m)),
                None => Err(Error::ParserError),
            }
        } else if bytes_eq_str(name, "TextMsg") {
            match parse_text_msg(msg_data) {
                Some(m) => Ok(UserMessage::TextMsg(m)),
                None => Err(Error::ParserError),
            }
        } else if bytes_eq_str(name, "TimeLeft") {
            match parse_time_left(msg_data) {
                Some(m) => Ok(UserMessage::TimeLeft(m)),
                None => Err(Error::ParserError),
            }
        } else if bytes_eq_str(name, "UseSound") {
            match parse_use_sound(msg_data) {
                Some(m) => Ok(UserMessage::UseSound(m)),
                None => Err(Error::ParserError),
            }
        } else if bytes_eq_str(name, "VoiceMask") {
            match parse_voice_mask(msg_data) {
                Some(m) => Ok(UserMessage::VoiceMask(m)),
                None => Err(Error::ParserError),
            }
        } else if bytes_eq_str(name, "WaveStatus") {
            match parse_wave_status(msg_data) {
                Some(m) => Ok(UserMessage::WaveStatus(m)),
                None => Err(Error::ParserError),
            }
        } else if bytes_eq_str(name, "WaveTime") {
            match parse_wave_time(msg_data) {
                Some(m) => Ok(UserMessage::WaveTime(m)),
                None => Err(Error::ParserError),
            }
        } else if bytes_eq_str(name, "WeaponList") {
            match parse_weapon_list(msg_data) {
                Some(m) => Ok(UserMessage::WeaponList(m)),
                None => Err(Error::ParserError),
            }
        } else if bytes_eq_str(name, "YouDied") {
            match parse_you_died(msg_data) {
                Some(m) => Ok(UserMessage::YouDied(m)),
                None => Err(Error::ParserError),
            }
        } else {
            Err(Error::ParserError)
        }
    }
}

} // verus!
