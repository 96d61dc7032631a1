//! Byte-level decoder tests: one per message family, plus failure cases.

use dod_analysis::dod::{
    Ammo, Class, Error, RoundState, Team, UserMessage, Weapon,
};

fn decode(name: &[u8], data: &[u8]) -> Result<UserMessage, Error> {
    UserMessage::new(name, data)
}

#[test]
fn death_msg_decodes() {
    match decode(b"DeathMsg", &[1, 2, 5]) {
        Ok(UserMessage::DeathMsg(m)) => {
            assert_eq!(m.killer_client_index, 1);
            assert_eq!(m.victim_client_index, 2);
            assert_eq!(m.weapon, Weapon::Garand);
        }
        other => panic!("unexpected: {other:?}"),
    }
}

#[test]
fn death_msg_rejects_unknown_weapon() {
    assert!(decode(b"DeathMsg", &[1, 2, 15]).is_err());
    assert!(decode(b"DeathMsg", &[1, 2, 33]).is_err());
}

#[test]
fn death_msg_rejects_leftover_bytes() {
    assert!(decode(b"DeathMsg", &[1, 2, 5, 0]).is_err());
    assert!(decode(b"DeathMsg", &[1, 2]).is_err());
}

#[test]
fn unknown_name_fails() {
    assert!(decode(b"NotAMessage", &[1, 2, 3]).is_err());
    assert!(decode(b"", &[]).is_err());
}

#[test]
fn nul_padded_name_is_trimmed() {
    match decode(b"PTeam\0\0\0", &[4, 2]) {
        Ok(UserMessage::PTeam(m)) => {
            assert_eq!(m.client_index, 4);
            assert_eq!(m.team, Team::Axis);
        }
        other => panic!("unexpected: {other:?}"),
    }
}

#[test]
fn round_state_tags() {
    for (tag, expected) in [
        (0u8, RoundState::Reset),
        (1, RoundState::Normal),
        (3, RoundState::AlliesWin),
        (4, RoundState::AxisWin),
        (5, RoundState::Draw),
    ] {
        match decode(b"RoundState", &[tag]) {
            Ok(UserMessage::RoundState(rs)) => assert_eq!(rs, expected),
            other => panic!("tag {tag}: unexpected {other:?}"),
        }
    }
    assert!(decode(b"RoundState", &[2]).is_err());
    assert!(decode(b"RoundState", &[6]).is_err());
    assert!(decode(b"RoundState", &[0, 0]).is_err());
}

#[test]
fn team_score_little_endian() {
    match decode(b"TeamScore", &[2, 44, 1]) {
        Ok(UserMessage::TeamScore(m)) => {
            assert_eq!(m.team, Team::Axis);
            assert_eq!(m.score, 300);
        }
        other => panic!("unexpected: {other:?}"),
    }
    assert!(decode(b"TeamScore", &[4, 0, 0]).is_err());
}

#[test]
fn clan_timer_carries_nanoseconds() {
    match decode(b"ClanTimer", &[30]) {
        Ok(UserMessage::ClanTimer(m)) => assert_eq!(m.0, 30_000_000_000),
        other => panic!("unexpected: {other:?}"),
    }
    assert!(decode(b"ClanTimer", &[30, 0]).is_err());
}

#[test]
fn cap_msg_carries_point_name() {
    match decode(b"CapMsg", &[3, b'f', b'l', b'a', b'g', 0, 1]) {
        Ok(UserMessage::CapMsg(m)) => {
            assert_eq!(m.client_index, 3);
            assert_eq!(m.point_name, b"flag".to_vec());
            assert_eq!(m.team, Team::Allies);
        }
        other => panic!("unexpected: {other:?}"),
    }
    // missing the team byte after the NUL
    assert!(decode(b"CapMsg", &[3, b'f', 0]).is_err());
    // no NUL at all
    assert!(decode(b"CapMsg", &[3, b'f', b'l']).is_err());
}

#[test]
fn say_text_consumes_everything() {
    match decode(b"SayText", &[2, 9, b'h', b'i', 0]) {
        Ok(UserMessage::SayText(m)) => {
            assert_eq!(m.client_index, 2);
            assert_eq!(m.text, b"hi".to_vec());
        }
        other => panic!("unexpected: {other:?}"),
    }
    assert!(decode(b"SayText", &[2, 9, b'h', b'i', 0, 7]).is_err());
}

#[test]
fn motd_takes_trailing_text() {
    match decode(b"MOTD", &[1, b'h', b'i']) {
        Ok(UserMessage::Motd(m)) => {
            assert!(m.is_terminal);
            assert_eq!(m.text, b"hi".to_vec());
        }
        other => panic!("unexpected: {other:?}"),
    }
    match decode(b"MOTD", &[0]) {
        Ok(UserMessage::Motd(m)) => {
            assert!(!m.is_terminal);
            assert!(m.text.is_empty());
        }
        other => panic!("unexpected: {other:?}"),
    }
    assert!(decode(b"MOTD", &[]).is_err());
}

#[test]
fn server_name_takes_whole_payload() {
    match decode(b"ServerName", b"a server\0with bytes") {
        Ok(UserMessage::ServerName(m)) => assert_eq!(m.0, b"a server\0with bytes".to_vec()),
        other => panic!("unexpected: {other:?}"),
    }
}

#[test]
fn text_msg_optional_arguments() {
    match decode(b"TextMsg", &[1, b'a', 0, b'b', 0]) {
        Ok(UserMessage::TextMsg(m)) => {
            assert_eq!(m.destination, 1);
            assert_eq!(m.text, b"a".to_vec());
            assert_eq!(m.arg1, Some(b"b".to_vec()));
            assert_eq!(m.arg2, None);
            assert_eq!(m.arg3, None);
            assert_eq!(m.arg4, None);
        }
        other => panic!("unexpected: {other:?}"),
    }
    // five strings fill every argument
    match decode(b"TextMsg", &[9, b'a', 0, b'b', 0, b'c', 0, b'd', 0, b'e', 0]) {
        Ok(UserMessage::TextMsg(m)) => {
            assert_eq!(m.arg4, Some(b"e".to_vec()));
        }
        other => panic!("unexpected: {other:?}"),
    }
    // a sixth string cannot be consumed
    assert!(decode(
        b"TextMsg",
        &[9, b'a', 0, b'b', 0, b'c', 0, b'd', 0, b'e', 0, b'f', 0],
    )
    .is_err());
    // trailing bytes without a NUL
    assert!(decode(b"TextMsg", &[1, b'a', 0, b'b']).is_err());
    // no mandatory string
    assert!(decode(b"TextMsg", &[1]).is_err());
}

#[test]
fn client_areas_flag_controlled_string() {
    match decode(b"ClientAreas", &[7, 3]) {
        Ok(UserMessage::ClientAreas(m)) => {
            assert_eq!(m.icon_index, 7);
            assert_eq!(m.hud_icon, None);
        }
        other => panic!("unexpected: {other:?}"),
    }
    match decode(b"ClientAreas", &[7, 255, b'x', 0]) {
        Ok(UserMessage::ClientAreas(m)) => {
            assert_eq!(m.hud_icon, Some(b"x".to_vec()));
        }
        other => panic!("unexpected: {other:?}"),
    }
    assert!(decode(b"ClientAreas", &[7, 255, b'x']).is_err());
    assert!(decode(b"ClientAreas", &[7, 3, 1]).is_err());
}

#[test]
fn init_obj_length_prefixed() {
    let one = [7u8, 0, 4, 1, 9, 10, 11, 12, 1, 0, 2, 0];
    let two = [8u8, 0, 5, 0, 9, 10, 11, 12, 255, 255, 3, 0];
    let mut data = vec![2u8];
    data.extend_from_slice(&one);
    data.extend_from_slice(&two);
    match decode(b"InitObj", &data) {
        Ok(UserMessage::InitObj(m)) => {
            assert_eq!(m.objectives.len(), 2);
            assert_eq!(m.objectives[0].entity_index, 7);
            assert_eq!(m.objectives[0].area_index, 4);
            assert_eq!(m.objectives[0].team, Some(Team::Allies));
            assert_eq!(m.objectives[0].origin_x, 1);
            assert_eq!(m.objectives[0].origin_y, 2);
            assert_eq!(m.objectives[1].entity_index, 8);
            assert_eq!(m.objectives[1].team, None);
            assert_eq!(m.objectives[1].origin_x, -1);
        }
        other => panic!("unexpected: {other:?}"),
    }
    // count does not match the payload length
    assert!(decode(b"InitObj", &data[..data.len() - 1]).is_err());
    // invalid team byte inside an objective
    let mut bad = vec![1u8];
    let mut obj = one;
    obj[3] = 5;
    bad.extend_from_slice(&obj);
    assert!(decode(b"InitObj", &bad).is_err());
}

#[test]
fn score_short_layout() {
    match decode(b"ScoreShort", &[3, 10, 0, 5, 0, 254, 255, 0]) {
        Ok(UserMessage::ScoreShort(m)) => {
            assert_eq!(m.client_index, 3);
            assert_eq!(m.score, 10);
            assert_eq!(m.kills, 5);
            assert_eq!(m.deaths, -2);
        }
        other => panic!("unexpected: {other:?}"),
    }
    assert!(decode(b"ScoreShort", &[3, 10, 0, 5, 0, 254, 255]).is_err());
}

#[test]
fn ammo_short_layout() {
    match decode(b"AmmoShort", &[3, 16, 39]) {
        Ok(UserMessage::AmmoShort(m)) => {
            assert_eq!(m.ammo, Ammo::Rifle);
            assert_eq!(m.amount, 10000);
        }
        other => panic!("unexpected: {other:?}"),
    }
    assert!(decode(b"AmmoShort", &[10, 16, 39]).is_err());
}

#[test]
fn ammox_layout() {
    match decode(b"AmmoX", &[9, 4]) {
        Ok(UserMessage::AmmoX(m)) => {
            assert_eq!(m.ammo, Ammo::Rocket);
            assert_eq!(m.amount, 4);
        }
        other => panic!("unexpected: {other:?}"),
    }
}

#[test]
fn weapon_list_layout() {
    match decode(b"WeaponList", &[1, 100, 4, 30, 2, 1, 7, 0, 0, 20]) {
        Ok(UserMessage::WeaponList(m)) => {
            assert_eq!(m.primary_ammo, Ammo::Smg);
            assert_eq!(m.secondary_ammo, Ammo::Pistol);
            assert_eq!(m.weapon, Weapon::Thompson);
            assert_eq!(m.clip_size, 20);
        }
        other => panic!("unexpected: {other:?}"),
    }
}

#[test]
fn frags_is_signed() {
    match decode(b"Frags", &[1, 255, 255]) {
        Ok(UserMessage::Frags(m)) => assert_eq!(m.frags, -1),
        other => panic!("unexpected: {other:?}"),
    }
}

#[test]
fn p_class_tags() {
    match decode(b"PClass", &[2, 27]) {
        Ok(UserMessage::PClass(m)) => assert_eq!(m.class, Class::Random),
        other => panic!("unexpected: {other:?}"),
    }
    match decode(b"PClass", &[2, 1]) {
        Ok(UserMessage::PClass(m)) => assert_eq!(m.class, Class::Rifleman),
        other => panic!("unexpected: {other:?}"),
    }
    assert!(decode(b"PClass", &[2, 28]).is_err());
    assert!(decode(b"PClass", &[2, 0]).is_err());
}

#[test]
fn cur_weapon_layout() {
    match decode(b"CurWeapon", &[1, 12, 30]) {
        Ok(UserMessage::CurWeapon(m)) => {
            assert!(m.is_active);
            assert_eq!(m.weapon, Weapon::Mp40);
            assert_eq!(m.clip_ammo, 30);
        }
        other => panic!("unexpected: {other:?}"),
    }
}

#[test]
fn set_obj_team_or_none() {
    match decode(b"SetObj", &[4, 0, 0]) {
        Ok(UserMessage::SetObj(m)) => assert_eq!(m.team, None),
        other => panic!("unexpected: {other:?}"),
    }
    match decode(b"SetObj", &[4, 2, 0]) {
        Ok(UserMessage::SetObj(m)) => assert_eq!(m.team, Some(Team::Axis)),
        other => panic!("unexpected: {other:?}"),
    }
    assert!(decode(b"SetObj", &[4, 9, 0]).is_err());
}

#[test]
fn voice_mask_signed() {
    match decode(b"VoiceMask", &[255, 255, 255, 255, 0, 0, 0, 0]) {
        Ok(UserMessage::VoiceMask(m)) => {
            assert_eq!(m.audible_players, -1);
            assert_eq!(m.banned_players, 0);
        }
        other => panic!("unexpected: {other:?}"),
    }
}

#[test]
fn cl_corpse_layout() {
    let data = [
        b'm', b'd', b'l', 0, // model name
        10, 0, 20, 0, 30, 0, // origin
        1, 2, 3, // angle
        9,    // animation
        7, 0, // body
        2,    // team
    ];
    match decode(b"ClCorpse", &data) {
        Ok(UserMessage::ClCorpse(m)) => {
            assert_eq!(m.model_name, b"mdl".to_vec());
            assert_eq!(m.origin_x, 10);
            assert_eq!(m.origin_z, 30);
            assert_eq!(m.animation_sequence, 9);
            assert_eq!(m.body, 7);
            assert_eq!(m.team, Team::Axis);
        }
        other => panic!("unexpected: {other:?}"),
    }
}

#[test]
fn small_fixed_messages() {
    assert!(matches!(decode(b"Health", &[50]), Ok(UserMessage::Health(h)) if h.0 == 50));
    assert!(decode(b"Health", &[]).is_err());
    assert!(matches!(decode(b"SetFOV", &[90]), Ok(UserMessage::SetFOV(_))));
    assert!(matches!(decode(b"Scope", &[4]), Ok(UserMessage::Scope(_))));
    assert!(matches!(decode(b"YouDied", &[9]), Ok(UserMessage::YouDied(_))));
    assert!(decode(b"YouDied", &[]).is_err());
    assert!(matches!(decode(b"WaveStatus", &[1]), Ok(UserMessage::WaveStatus(_))));
    assert!(
        matches!(decode(b"WaveTime", &[7]), Ok(UserMessage::WaveTime(w)) if w.0 == 7_000_000_000)
    );
    assert!(
        matches!(decode(b"TimeLeft", &[60, 0]), Ok(UserMessage::TimeLeft(t)) if t.0 == 60_000_000_000)
    );
    assert!(matches!(decode(b"UseSound", &[1]), Ok(UserMessage::UseSound(u)) if u.is_entity_in_sphere));
    assert!(matches!(decode(b"Spectator", &[3, 0]), Ok(UserMessage::Spectator(s)) if !s.is_spectator));
    assert!(matches!(decode(b"PStatus", &[1, 2]), Ok(UserMessage::PStatus(_))));
    assert!(matches!(decode(b"CancelProg", &[5, 0]), Ok(UserMessage::CancelProg(c)) if c.area_index == 5));
    assert!(matches!(decode(b"GameRules", &[0, 2]), Ok(UserMessage::GameRules(_))));
    assert!(matches!(decode(b"BloodPuff", &[246, 255, 0, 0, 0, 0]), Ok(UserMessage::BloodPuff(b)) if b.0 == -10));
    assert!(matches!(
        decode(b"PlayersIn", &[2, 1, 3, 4]),
        Ok(UserMessage::PlayersIn(p)) if p.players_inside_area == 3
    ));
    assert!(matches!(
        decode(b"StartProg", &[2, 1, 5, 0]),
        Ok(UserMessage::StartProg(s)) if s.cap_duration == 5_000_000_000
    ));
    assert!(matches!(decode(b"StatusValue", &[77]), Ok(UserMessage::StatusValue(_))));
    assert!(matches!(
        decode(b"HudText", &[b'o', b'k', 0, 1]),
        Ok(UserMessage::HudText(h)) if h.text == b"ok".to_vec() && h.init_hud_style == 1
    ));
    assert!(matches!(
        decode(b"ObjScore", &[1, 5, 0]),
        Ok(UserMessage::ObjScore(o)) if o.score == 5
    ));
}

#[test]
fn empty_payload_messages() {
    assert!(matches!(decode(b"InitHUD", &[]), Ok(UserMessage::InitHUD(_))));
    assert!(matches!(decode(b"ReloadDone", &[]), Ok(UserMessage::ReloadDone(_))));
    assert!(matches!(decode(b"ReqState", &[]), Ok(UserMessage::ReqState(_))));
    assert!(matches!(decode(b"ResetHUD", &[]), Ok(UserMessage::ResetHUD(_))));
    assert!(matches!(decode(b"ResetSens", &[]), Ok(UserMessage::ResetSens(_))));
    assert!(decode(b"ResetHUD", &[0]).is_err());
}

#[test]
fn unsupported_grammars_always_fail() {
    assert!(decode(b"ScreenFade", &[0, 0, 0, 0, 0, 0, 0, 0, 0, 0]).is_err());
    assert!(decode(b"ScreenShake", &[0, 0, 0, 0, 0, 0]).is_err());
    assert!(decode(b"VGUIMenu", &[0, 0, 0, 0, 0]).is_err());
}
