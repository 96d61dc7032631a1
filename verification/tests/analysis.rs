//! End-to-end scenarios for the event-sourced analysis.

use dod_analysis::clan_match::ClanMatchDetection;
use dod_analysis::dod::{DeathMsg, PTeam, RoundState, Team, TeamScore, UserMessage, Weapon};
use dod_analysis::kill::WeaponStat;
use dod_analysis::mortality::{Mortality, MortalityChange, MortalityState};
use dod_analysis::player::{ConnectionStatus, Player, PlayerGlobalId, SteamId};
use dod_analysis::round::Round;
use dod_analysis::time::GameTime;
use dod_analysis::{
    analyze, apply_event, AnalysisError, AnalyzerEvent, AnalyzerState,
    DEFAULT_MAX_NORMAL_DURATION_NANOS,
};

const SID_A: &str = "76561197960269086";
const SID_B: &str = "76561197960269088";
const SID_C: &str = "76561197960269100";

fn userinfo(index: u8, id: u32, blob: &str) -> AnalyzerEvent {
    AnalyzerEvent::SvcUpdateUserInfo { index, id, user_info: blob.as_bytes().to_vec() }
}

fn svc_time(seconds: f64) -> AnalyzerEvent {
    AnalyzerEvent::SvcTime { nanos: (seconds * 1_000_000_000.0) as u64 }
}

fn msg(m: UserMessage) -> AnalyzerEvent {
    AnalyzerEvent::UserMessage(m)
}

fn p_team(client_index: u8, team: Team) -> AnalyzerEvent {
    msg(UserMessage::PTeam(PTeam { client_index, team }))
}

fn death(killer: u8, victim: u8, weapon: Weapon) -> AnalyzerEvent {
    msg(UserMessage::DeathMsg(DeathMsg {
        killer_client_index: killer,
        victim_client_index: victim,
        weapon,
    }))
}

fn round_state(rs: RoundState) -> AnalyzerEvent {
    msg(UserMessage::RoundState(rs))
}

fn apply(state: &mut AnalyzerState, event: &AnalyzerEvent) {
    apply_event(state, event, DEFAULT_MAX_NORMAL_DURATION_NANOS).expect("event applied");
}

fn basic_setup(state: &mut AnalyzerState) {
    apply(state, &AnalyzerEvent::Initialization);
    apply(state, &userinfo(0, 11, &format!("\\*sid\\{SID_A}\\name\\A")));
    apply(state, &p_team(1, Team::Allies));
    apply(state, &userinfo(1, 22, &format!("\\*sid\\{SID_B}\\name\\B")));
    apply(state, &p_team(2, Team::Axis));
}

#[test]
fn basic_round() {
    let mut state = AnalyzerState::new();
    basic_setup(&mut state);
    apply(&mut state, &svc_time(1.0));
    apply(&mut state, &death(1, 2, Weapon::Garand));
    apply(&mut state, &svc_time(2.0));
    apply(&mut state, &round_state(RoundState::AlliesWin));
    apply(&mut state, &AnalyzerEvent::Finalization);

    assert_eq!(state.rounds.len(), 1);
    match &state.rounds[0] {
        Round::Completed { start_time, end_time, winner_stats } => {
            assert_eq!(start_time.viewdemo_nanos, 0);
            assert_eq!(end_time.viewdemo_nanos, 2_000_000_000);
            assert_eq!(*winner_stats, Some((Team::Allies, 1)));
        }
        Round::Active { .. } => panic!("round still active"),
    }
    let a = &state.players[0];
    assert_eq!(a.name, b"A".to_vec());
    assert_eq!(
        a.weapon_breakdown,
        vec![WeaponStat { weapon: Weapon::Garand, kills: 1, teamkills: 0 }]
    );
    // the kill landed on A's active streak at one second
    assert_eq!(a.kill_streaks.len(), 1);
    assert_eq!(a.kill_streaks[0].kills.len(), 1);
    assert_eq!(a.kill_streaks[0].kills[0].0.viewdemo_nanos, 1_000_000_000);
    assert_eq!(a.kill_streaks[0].kills[0].1, Weapon::Garand);
    // B's streak was terminated by the death
    assert_eq!(state.players[1].kill_streaks.len(), 1);
    assert!(state.players[1].kill_streaks[0].kills.is_empty());
    // no Reset was ever seen
    assert_eq!(state.clan_match_detection, ClanMatchDetection::WaitingForReset);
}

#[test]
fn teamkill_counts_against_teamkills() {
    let mut state = AnalyzerState::new();
    basic_setup(&mut state);
    apply(&mut state, &userinfo(2, 33, &format!("\\*sid\\{SID_C}\\name\\C")));
    apply(&mut state, &p_team(3, Team::Allies));
    apply(&mut state, &svc_time(1.0));
    apply(&mut state, &death(1, 3, Weapon::Garand));

    let a = &state.players[0];
    assert_eq!(
        a.weapon_breakdown,
        vec![WeaponStat { weapon: Weapon::Garand, kills: 0, teamkills: 1 }]
    );
    match state.rounds.last().expect("active round") {
        Round::Active { allies_kills, axis_kills, .. } => {
            assert_eq!(*allies_kills, 0);
            assert_eq!(*axis_kills, 0);
        }
        Round::Completed { .. } => panic!("round completed early"),
    }
    // the victim's streak ended, the killer's streak was not extended
    assert!(state.players[2].kill_streaks.len() == 1);
    assert!(state.players[0].kill_streaks.is_empty());
}

#[test]
fn slot_reuse_disconnects_previous_holder() {
    let mut state = AnalyzerState::new();
    apply(&mut state, &AnalyzerEvent::Initialization);
    apply(&mut state, &userinfo(0, 11, &format!("\\*sid\\{SID_A}\\name\\A")));
    apply(&mut state, &userinfo(0, 22, &format!("\\*sid\\{SID_B}\\name\\B")));

    assert_eq!(state.players.len(), 2);
    assert_eq!(state.players[0].name, b"A".to_vec());
    assert_eq!(state.players[0].connection_status, ConnectionStatus::Disconnected);
    assert_eq!(state.players[1].name, b"B".to_vec());
    assert_eq!(
        state.players[1].connection_status,
        ConnectionStatus::Connected { client_id: 0 }
    );
}

#[test]
fn hltv_client_is_ignored() {
    let mut state = AnalyzerState::new();
    apply(&mut state, &AnalyzerEvent::Initialization);
    apply(
        &mut state,
        &userinfo(5, 99, &format!("\\*sid\\{SID_C}\\name\\HLTV\\*hltv\\1")),
    );
    assert!(state.players.is_empty());
}

#[test]
fn empty_userinfo_disconnects_the_slot() {
    let mut state = AnalyzerState::new();
    apply(&mut state, &AnalyzerEvent::Initialization);
    apply(&mut state, &userinfo(0, 11, &format!("\\*sid\\{SID_A}\\name\\A")));
    apply(&mut state, &userinfo(0, 11, ""));
    assert_eq!(state.players.len(), 1);
    assert_eq!(state.players[0].connection_status, ConnectionStatus::Disconnected);
}

#[test]
fn reconnect_keeps_one_player_per_identity() {
    let mut state = AnalyzerState::new();
    apply(&mut state, &AnalyzerEvent::Initialization);
    apply(&mut state, &userinfo(0, 11, &format!("\\*sid\\{SID_A}\\name\\A")));
    apply(&mut state, &userinfo(0, 11, ""));
    apply(&mut state, &userinfo(3, 11, &format!("\\*sid\\{SID_A}\\name\\A2")));

    assert_eq!(state.players.len(), 1);
    assert_eq!(state.players[0].name, b"A2".to_vec());
    assert_eq!(
        state.players[0].connection_status,
        ConnectionStatus::Connected { client_id: 3 }
    );
}

#[test]
fn userinfo_without_sid_derives_deterministic_identity() {
    let mut state = AnalyzerState::new();
    apply(&mut state, &AnalyzerEvent::Initialization);
    apply(&mut state, &userinfo(0, 0x0403_0201, "\\name\\A"));
    // little-endian connection id bytes, repeated four times, in lowercase hex
    assert_eq!(
        state.players[0].id,
        PlayerGlobalId(b"01020304010203040102030401020304".to_vec())
    );
    // and the same blob again maps to the same player
    apply(&mut state, &userinfo(0, 0x0403_0201, "\\name\\A"));
    assert_eq!(state.players.len(), 1);
}

#[test]
fn userinfo_without_name_uses_default_name() {
    let mut state = AnalyzerState::new();
    apply(&mut state, &AnalyzerEvent::Initialization);
    apply(&mut state, &userinfo(0, 123, &format!("\\*sid\\{SID_A}")));
    assert_eq!(state.players[0].name, b"Player 123".to_vec());
}

#[test]
fn userinfo_team_field_sets_team() {
    let mut state = AnalyzerState::new();
    apply(&mut state, &AnalyzerEvent::Initialization);
    apply(
        &mut state,
        &userinfo(0, 11, &format!("\\*sid\\{SID_A}\\name\\A\\team\\allies")),
    );
    assert_eq!(state.players[0].team, Some(Team::Allies));
    // an unrecognizable team leaves the previous team in place
    apply(
        &mut state,
        &userinfo(0, 11, &format!("\\*sid\\{SID_A}\\name\\A\\team\\blue")),
    );
    assert_eq!(state.players[0].team, Some(Team::Allies));
}

#[test]
fn suicide_killer_index_resolves_nowhere() {
    let mut state = AnalyzerState::new();
    basic_setup(&mut state);
    apply(&mut state, &svc_time(1.0));
    apply(&mut state, &death(0, 1, Weapon::Mortar));
    // the victim's streak ends, no kill is recorded anywhere
    assert_eq!(state.players[0].kill_streaks.len(), 1);
    assert!(state.players[0].kill_streaks[0].kills.is_empty());
    assert!(state.players[0].weapon_breakdown.is_empty());
    assert!(state.players[1].weapon_breakdown.is_empty());
    match state.rounds.last().expect("active round") {
        Round::Active { allies_kills, axis_kills, .. } => {
            assert_eq!((*allies_kills, *axis_kills), (0, 0));
        }
        Round::Completed { .. } => panic!("round completed early"),
    }
}

#[test]
fn clan_match_goes_live_on_scoreless_normal() {
    let mut state = AnalyzerState::new();
    basic_setup(&mut state);
    apply(&mut state, &userinfo(2, 33, &format!("\\*sid\\{SID_C}\\name\\C")));
    apply(&mut state, &p_team(3, Team::Allies));
    apply(&mut state, &svc_time(10.0));
    apply(&mut state, &round_state(RoundState::Reset));
    assert_eq!(
        state.clan_match_detection,
        ClanMatchDetection::WaitingForNormal {
            reset_time: GameTime { real_nanos: 0, viewdemo_nanos: 10_000_000_000 }
        }
    );
    // a teamkill half a second later does not disturb the detector
    apply(&mut state, &svc_time(10.5));
    apply(&mut state, &death(1, 3, Weapon::Garand));
    assert!(matches!(
        state.clan_match_detection,
        ClanMatchDetection::WaitingForNormal { .. }
    ));
    apply(&mut state, &svc_time(12.0));
    apply(&mut state, &round_state(RoundState::Normal));

    assert_eq!(state.clan_match_detection, ClanMatchDetection::MatchIsLive);
    assert_eq!(state.rounds.len(), 1);
    match &state.rounds[0] {
        Round::Active { allies_kills, axis_kills, start_time } => {
            assert_eq!((*allies_kills, *axis_kills), (0, 0));
            assert_eq!(start_time.viewdemo_nanos, 10_000_000_000);
        }
        Round::Completed { .. } => panic!("fresh round must be active"),
    }
    assert!(state.team_scores.iter().is_empty());
    for p in &state.players {
        assert!(p.kill_streaks.is_empty());
        assert!(p.weapon_breakdown.is_empty());
    }
}

#[test]
fn clan_match_times_out() {
    let mut state = AnalyzerState::new();
    basic_setup(&mut state);
    apply(&mut state, &svc_time(10.0));
    apply(&mut state, &round_state(RoundState::Reset));
    apply(&mut state, &svc_time(21.0));
    assert_eq!(state.clan_match_detection, ClanMatchDetection::WaitingForReset);
    apply(&mut state, &svc_time(22.0));
    apply(&mut state, &round_state(RoundState::Normal));
    assert_eq!(state.clan_match_detection, ClanMatchDetection::WaitingForReset);
}

#[test]
fn clan_timer_rearms_a_live_match() {
    let mut state = AnalyzerState::new();
    basic_setup(&mut state);
    apply(&mut state, &svc_time(10.0));
    apply(&mut state, &round_state(RoundState::Reset));
    apply(&mut state, &svc_time(12.0));
    apply(&mut state, &round_state(RoundState::Normal));
    assert_eq!(state.clan_match_detection, ClanMatchDetection::MatchIsLive);
    apply(&mut state, &svc_time(30.0));
    apply(&mut state, &death(1, 2, Weapon::Kabar));
    let kills_before = state.players[0].kill_streaks.len();
    apply(
        &mut state,
        &msg(UserMessage::ClanTimer(dod_analysis::dod::ClanTimer(30_000_000_000))),
    );
    assert_eq!(state.clan_match_detection, ClanMatchDetection::WaitingForReset);
    // accumulated state is preserved until a later reset re-arms the match
    assert_eq!(state.players[0].kill_streaks.len(), kills_before);
    assert!(!state.rounds.is_empty());
}

#[test]
fn win_without_active_round_is_fatal() {
    let events = vec![
        round_state(RoundState::AlliesWin),
        round_state(RoundState::AlliesWin),
    ];
    let r = analyze(&events, DEFAULT_MAX_NORMAL_DURATION_NANOS);
    assert!(matches!(r, Err(AnalysisError::RoundEndWithoutActiveRound)));
}

#[test]
fn analyze_wraps_with_sentinels() {
    let events = vec![
        svc_time(3.0),
        round_state(RoundState::AlliesWin),
    ];
    let state = analyze(&events, DEFAULT_MAX_NORMAL_DURATION_NANOS).expect("analysis");
    // Initialization opened a round, the win completed it
    assert_eq!(state.rounds.len(), 1);
    assert!(matches!(state.rounds[0], Round::Completed { .. }));
}

#[test]
fn team_scores_read_latest_entry() {
    let mut state = AnalyzerState::new();
    apply(&mut state, &AnalyzerEvent::Initialization);
    assert_eq!(state.team_scores.get_team_score(Team::Allies), 0);
    apply(&mut state, &svc_time(5.0));
    apply(&mut state, &msg(UserMessage::TeamScore(TeamScore { team: Team::Allies, score: 1 })));
    apply(&mut state, &msg(UserMessage::TeamScore(TeamScore { team: Team::Axis, score: 2 })));
    apply(&mut state, &msg(UserMessage::TeamScore(TeamScore { team: Team::Allies, score: 3 })));
    assert_eq!(state.team_scores.get_team_score(Team::Allies), 3);
    assert_eq!(state.team_scores.get_team_score(Team::Axis), 2);
    assert_eq!(state.team_scores.iter().len(), 3);
    assert_eq!(state.team_scores.iter()[0].0.viewdemo_nanos, 5_000_000_000);
}

#[test]
fn team_scores_observed_monotone() {
    // the game never subtracts: feeding non-decreasing scores, the reads
    // observed after each entry never decrease either
    let mut state = AnalyzerState::new();
    apply(&mut state, &AnalyzerEvent::Initialization);
    let mut last = state.team_scores.get_team_score(Team::Allies);
    for score in [0u16, 1, 1, 2, 5] {
        apply(&mut state, &msg(UserMessage::TeamScore(TeamScore { team: Team::Allies, score })));
        let now = state.team_scores.get_team_score(Team::Allies);
        assert!(now >= last);
        last = now;
    }
}

#[test]
fn kill_accounting_matches_death_count() {
    let mut state = AnalyzerState::new();
    basic_setup(&mut state);
    apply(&mut state, &userinfo(2, 33, &format!("\\*sid\\{SID_C}\\name\\C")));
    apply(&mut state, &p_team(3, Team::Allies));
    // three deaths where A is the killer: two kills, one teamkill
    apply(&mut state, &death(1, 2, Weapon::Garand));
    apply(&mut state, &death(1, 3, Weapon::Garand));
    apply(&mut state, &death(1, 2, Weapon::Kabar));
    let total: u32 = state.players[0]
        .weapon_breakdown
        .iter()
        .map(|s| s.kills + s.teamkills)
        .sum();
    assert_eq!(total, 3);
    assert_eq!(
        state.players[0].weapon_breakdown,
        vec![
            WeaponStat { weapon: Weapon::Garand, kills: 1, teamkills: 1 },
            WeaponStat { weapon: Weapon::Kabar, kills: 1, teamkills: 0 },
        ]
    );
}

#[test]
fn kill_streak_times_never_decrease() {
    let mut state = AnalyzerState::new();
    basic_setup(&mut state);
    apply(&mut state, &svc_time(1.0));
    apply(&mut state, &death(1, 2, Weapon::Garand));
    apply(&mut state, &svc_time(4.0));
    apply(&mut state, &death(1, 2, Weapon::Kabar));
    let streak = &state.players[0].kill_streaks[0];
    assert_eq!(streak.kills.len(), 2);
    assert!(streak.kills[0].0.viewdemo_nanos <= streak.kills[1].0.viewdemo_nanos);
}

#[test]
fn round_reset_terminates_every_streak() {
    let mut state = AnalyzerState::new();
    basic_setup(&mut state);
    apply(&mut state, &death(1, 2, Weapon::Garand));
    apply(&mut state, &round_state(RoundState::Reset));
    // A had one streak with one kill; the reset appended an empty streak
    assert_eq!(state.players[0].kill_streaks.len(), 2);
    assert!(state.players[0].kill_streaks[1].kills.is_empty());
}

#[test]
fn rounds_have_at_most_one_active_tail() {
    let mut state = AnalyzerState::new();
    apply(&mut state, &AnalyzerEvent::Initialization);
    apply(&mut state, &round_state(RoundState::AlliesWin));
    apply(&mut state, &round_state(RoundState::Reset));
    apply(&mut state, &round_state(RoundState::Normal));
    apply(&mut state, &round_state(RoundState::AxisWin));
    apply(&mut state, &round_state(RoundState::Reset));
    let n = state.rounds.len();
    for (i, round) in state.rounds.iter().enumerate() {
        if i + 1 < n {
            assert!(matches!(round, Round::Completed { .. }));
        }
    }
}

#[test]
fn viewdemo_clock_clamps_monotonically() {
    let mut state = AnalyzerState::new();
    apply(&mut state, &AnalyzerEvent::Initialization);
    apply(&mut state, &svc_time(5.0));
    assert_eq!(state.current_time.viewdemo_nanos, 5_000_000_000);
    // the engine may rewind during freezes; the clock does not follow
    apply(&mut state, &svc_time(3.0));
    assert_eq!(state.current_time.viewdemo_nanos, 5_000_000_000);
    apply(&mut state, &svc_time(6.0));
    assert_eq!(state.current_time.viewdemo_nanos, 6_000_000_000);
    // the real offset follows container timestamps independently
    apply(&mut state, &AnalyzerEvent::RealTimeChange { nanos: 2_000_000_000 });
    assert_eq!(state.current_time.real_nanos, 2_000_000_000);
    assert_eq!(state.current_time.viewdemo_nanos, 6_000_000_000);
}

#[test]
fn steam_id_projection() {
    let id = PlayerGlobalId(SID_A.as_bytes().to_vec());
    let steam = SteamId::try_from_global_id(&id).expect("valid id64");
    assert_eq!(steam.0, b"STEAM_0:0:1679".to_vec());

    let odd = PlayerGlobalId(b"76561197960366973".to_vec());
    let steam = SteamId::try_from_global_id(&odd).expect("valid id64");
    assert_eq!(steam.0, b"STEAM_0:1:50622".to_vec());

    assert!(SteamId::try_from_global_id(&PlayerGlobalId(b"not-a-number".to_vec())).is_none());
    assert!(SteamId::try_from_global_id(&PlayerGlobalId(b"123".to_vec())).is_none());
    assert!(SteamId::try_from_global_id(&PlayerGlobalId(b"".to_vec())).is_none());
}

#[test]
fn scoreboard_messages_overwrite_fields() {
    let mut state = AnalyzerState::new();
    basic_setup(&mut state);
    apply(
        &mut state,
        &msg(UserMessage::ScoreShort(dod_analysis::dod::ScoreShort {
            client_index: 1,
            score: 10,
            kills: 5,
            deaths: 2,
        })),
    );
    assert_eq!(state.players[0].stats, (10, 5, 2));
    apply(
        &mut state,
        &msg(UserMessage::ObjScore(dod_analysis::dod::ObjScore { client_index: 1, score: 12 })),
    );
    assert_eq!(state.players[0].stats, (12, 5, 2));
    apply(
        &mut state,
        &msg(UserMessage::Frags(dod_analysis::dod::Frags { client_index: 1, frags: 7 })),
    );
    assert_eq!(state.players[0].stats, (12, 7, 2));
    apply(
        &mut state,
        &msg(UserMessage::PClass(dod_analysis::dod::PClass {
            client_index: 1,
            class: dod_analysis::dod::Class::Sniper,
        })),
    );
    assert_eq!(state.players[0].class, Some(dod_analysis::dod::Class::Sniper));
    // a message naming a vacant slot does nothing
    apply(
        &mut state,
        &msg(UserMessage::Frags(dod_analysis::dod::Frags { client_index: 9, frags: 7 })),
    );
}

#[test]
fn compare_players_orders_teams_then_stats() {
    fn named(team: Option<Team>, stats: (i32, i32, i32)) -> Player {
        Player {
            id: PlayerGlobalId(vec![]),
            connection_status: ConnectionStatus::Disconnected,
            name: vec![],
            team,
            class: None,
            stats,
            kill_streaks: vec![],
            weapon_breakdown: vec![],
            mortality: vec![],
        }
    }
    let allies_strong = named(Some(Team::Allies), (10, 3, 1));
    let allies_weak = named(Some(Team::Allies), (4, 9, 0));
    let axis = named(Some(Team::Axis), (20, 9, 0));
    let spectator = named(Some(Team::Spectators), (0, 0, 0));
    let teamless = named(None, (0, 0, 0));
    assert_eq!(dod_analysis::scoreboard::compare_players(&allies_strong, &allies_weak), -1);
    assert_eq!(dod_analysis::scoreboard::compare_players(&allies_weak, &allies_strong), 1);
    assert_eq!(dod_analysis::scoreboard::compare_players(&allies_weak, &axis), -1);
    assert_eq!(dod_analysis::scoreboard::compare_players(&axis, &spectator), -1);
    assert_eq!(dod_analysis::scoreboard::compare_players(&spectator, &axis), 1);
    assert_eq!(dod_analysis::scoreboard::compare_players(&teamless, &axis), 1);
    assert_eq!(dod_analysis::scoreboard::compare_players(&allies_strong, &allies_strong), 0);
}

#[test]
fn mortality_detection_tracks_lifespans() {
    let mut state = AnalyzerState::new();
    basic_setup(&mut state);
    apply(&mut state, &svc_time(10.0));
    let spawn = msg(UserMessage::PStatus(dod_analysis::dod::PStatus {
        client_index: 1,
        status: 1,
    }));
    dod_analysis::mortality::with_mortality_detection(&mut state, &spawn);
    assert!(state.players[0].is_alive());
    apply(&mut state, &svc_time(25.0));
    let died = death(2, 1, Weapon::Kabar);
    dod_analysis::mortality::with_mortality_detection(&mut state, &died);
    assert!(state.players[0].is_dead());
    assert_eq!(state.players[0].lifespans(), vec![15_000_000_000]);
}

#[test]
fn mortality_finalization_closes_living_spans() {
    let mut state = AnalyzerState::new();
    basic_setup(&mut state);
    apply(&mut state, &svc_time(10.0));
    let spawn = msg(UserMessage::PStatus(dod_analysis::dod::PStatus {
        client_index: 1,
        status: 1,
    }));
    dod_analysis::mortality::with_mortality_detection(&mut state, &spawn);
    apply(&mut state, &svc_time(40.0));
    dod_analysis::mortality::with_mortality_detection(&mut state, &AnalyzerEvent::Finalization);
    assert_eq!(state.players[0].lifespans(), vec![30_000_000_000]);
}

#[test]
fn lifespan_statistics() {
    fn t(seconds: u64) -> GameTime {
        GameTime { real_nanos: 0, viewdemo_nanos: seconds * 1_000_000_000 }
    }
    let player = Player {
        id: PlayerGlobalId(vec![]),
        connection_status: ConnectionStatus::Disconnected,
        name: vec![],
        team: None,
        class: None,
        stats: (0, 0, 0),
        kill_streaks: vec![],
        weapon_breakdown: vec![],
        mortality: vec![
            MortalityChange::new(t(10), Mortality::Alive),
            MortalityChange::new(t(25), Mortality::Dead),
            MortalityChange::new(t(30), Mortality::Alive),
            MortalityChange::new(t(35), Mortality::Dead),
        ],
    };
    assert_eq!(player.lifespans(), vec![15_000_000_000, 5_000_000_000]);
    assert_eq!(player.min_lifespan(), 5_000_000_000);
    assert_eq!(player.max_lifespan(), 15_000_000_000);
    assert_eq!(player.avg_lifespan(), 10_000_000_000);
    assert_eq!(player.mortality_changes().len(), 4);
    assert_eq!(*player.mortality_changes()[0].time(), t(10));
    assert_eq!(*player.mortality_changes()[0].mortality(), Mortality::Alive);
}
