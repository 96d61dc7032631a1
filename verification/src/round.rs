//! Rounds: a sequence of completed rounds with at most one active round at
//! the tail, driven by round-state messages and the two sentinels.

use vstd::prelude::*;
use crate::{AnalysisError, AnalyzerEvent, AnalyzerState};
use crate::dod::{RoundState, Team, UserMessage};
use crate::time::GameTime;

verus! {

/// One round of the match, either still running or finished.
pub enum Round {
    Active { allies_kills: u32, axis_kills: u32, start_time: GameTime },
    Completed { start_time: GameTime, end_time: GameTime, winner_stats: Option<(Team, u32)> },
}

/// Every round before the last one is completed: an active round can stand
/// only at the tail.
pub open spec fn spec_rounds_tail_ok(rounds: Seq<Round>) -> bool {
    forall|i: int| 0 <= i < rounds.len() - 1 ==> rounds[i] is Completed
}

/// What the rounds update does to the rounds list for one event.
pub open spec fn spec_rounds_step(pre: AnalyzerState, post: Seq<Round>, event: AnalyzerEvent) -> bool {
    let rounds = pre.rounds@;
    let t = pre.current_time;
    match event {
        AnalyzerEvent::Initialization => {
            if rounds.len() == 0 {
                post == rounds.push(
                    Round::Active { allies_kills: 0, axis_kills: 0, start_time: t },
                )
            } else {
                post == rounds
            }
        },
        AnalyzerEvent::Finalization => {
            if rounds.len() > 0 && rounds.last() is Active {
                post == rounds.update(
                    rounds.len() - 1,
                    Round::Completed {
                        start_time: rounds.last()->Active_start_time,
                        end_time: t,
                        winner_stats: None,
                    },
                )
            } else {
                post == rounds
            }
        },
        AnalyzerEvent::UserMessage(UserMessage::RoundState(RoundState::Reset)) => {
            post == rounds.push(Round::Active { allies_kills: 0, axis_kills: 0, start_time: t })
        },
        AnalyzerEvent::UserMessage(UserMessage::RoundState(RoundState::AlliesWin)) => {
            &&& rounds.len() > 0
            &&& rounds.last() matches Round::Active { allies_kills, axis_kills, start_time }
            &&& post == rounds.update(
                rounds.len() - 1,
                Round::Completed {
                    start_time,
                    end_time: t,
                    winner_stats: Some((Team::Allies, allies_kills)),
                },
            )
        },
        AnalyzerEvent::UserMessage(UserMessage::RoundState(RoundState::AxisWin)) => {
            &&& rounds.len() > 0
            &&& rounds.last() matches Round::Active { allies_kills, axis_kills, start_time }
            &&& post == rounds.update(
                rounds.len() - 1,
                Round::Completed {
                    start_time,
                    end_time: t,
                    winner_stats: Some((Team::Axis, axis_kills)),
                },
            )
        },
        AnalyzerEvent::UserMessage(UserMessage::DeathMsg(dm)) => {
            let players = pre.players@;
            let ck = crate::spec_find_connected(players, crate::spec_sub1(dm.killer_client_index));
            let cv = crate::spec_find_connected(players, crate::spec_sub1(dm.victim_client_index));
            let tk = crate::kill::spec_is_teamkill(players, ck, cv);
            if rounds.len() > 0 && rounds.last() is Active && ck is Some && cv is Some && !tk {
                let allies_kills = rounds.last()->Active_allies_kills;
                let axis_kills = rounds.last()->Active_axis_kills;
                let start_time = rounds.last()->Active_start_time;
                if players[ck.unwrap()].team == Some(Team::Allies) {
                    post == rounds.update(
                        rounds.len() - 1,
                        Round::Active {
                            allies_kills: (allies_kills + 1) as u32,
                            axis_kills,
                            start_time,
                        },
                    )
                } else {
                    post == rounds.update(
                        rounds.len() - 1,
                        Round::Active {
                            allies_kills,
                            axis_kills: (axis_kills + 1) as u32,
                            start_time,
                        },
                    )
                }
            } else {
                post == rounds
            }
        },
        _ => post == rounds,
    }
}

/// Round tail: one rounds step keeps every non-tail round completed, as long
/// as no Reset arrives while a round is already active — the one input on
/// which a second active round is pushed behind the first.
pub proof fn lemma_round_tail(pre: AnalyzerState, post: Seq<Round>, event: AnalyzerEvent)
    requires
        spec_rounds_step(pre, post, event),
        spec_rounds_tail_ok(pre.rounds@),
        !(crate::clan_match::spec_is_reset_msg(event) && pre.rounds@.len() > 0
            && pre.rounds@.last() is Active),
    ensures
        spec_rounds_tail_ok(post),
{
}

/// Reacts to the sentinels, round-state messages and deaths.
///
/// Initialization opens an active round when none exists; Finalization closes
/// a trailing active round with no winner; a Reset opens a new active round; a
/// win closes the trailing active round with the winner and its kill count — a
/// win with no trailing active round is a fatal desynchronization. A death
/// between two found players on different or unknown teams counts toward the
/// killer's side.
#[verifier::rlimit(100)]
pub fn use_rounds_updates(state: &mut AnalyzerState, event: &AnalyzerEvent) -> (r: Result<
    (),
    AnalysisError,
>)
    requires
        old(state).wf(),
        crate::spec_round_counters_bounded(*old(state), u32::MAX - 1),
    ensures
        final(state).wf(),
        final(state).current_time == old(state).current_time,
        final(state).players == old(state).players,
        final(state).team_scores == old(state).team_scores,
        final(state).clan_match_detection == old(state).clan_match_detection,
        forall|n: int|
            0 <= n < u32::MAX && #[trigger] crate::spec_round_counters_bounded(*old(state), n)
                ==> crate::spec_round_counters_bounded(*final(state), n + 1),
        (match r {
            Ok(()) => spec_rounds_step(*old(state), final(state).rounds@, *event),
            Err(e) => e == AnalysisError::RoundEndWithoutActiveRound && final(state).rounds
                == old(state).rounds,
        }),
        r is Err <==> (match event {
            AnalyzerEvent::UserMessage(UserMessage::RoundState(rs)) => (rs == RoundState::AlliesWin
                || rs == RoundState::AxisWin) && !(old(state).rounds@.len() > 0 && old(
                state,
            ).rounds@.last() is Active),
            _ => false,
        }),
{
    match event {
        AnalyzerEvent::Initialization => {
            if state.rounds.len() == 0 {
                state.rounds.push(
                    Round::Active { allies_kills: 0, axis_kills: 0, start_time: state.current_time },
                );
            }
            Ok(())
        },
        AnalyzerEvent::Finalization => {
            let n = state.rounds.len();
            if n > 0 {
                let (is_active, start_time) = match &state.rounds[n - 1] {
                    Round::Active { start_time, .. } => (true, *start_time),
                    Round::Completed { .. } => (false, GameTime { real_nanos: 0, viewdemo_nanos: 0 }),
                };
                if is_active {
                    let end_time = state.current_time;
                    let slot = &mut state.rounds[n - 1];
                    *slot = Round::Completed { start_time, end_time, winner_stats: None };
                }
            }
            Ok(())
        },
        AnalyzerEvent::UserMessage(UserMessage::RoundState(rs)) => {
            match rs {
                RoundState::Reset => {
                    state.rounds.push(
                        Round::Active {
                            allies_kills: 0,
                            axis_kills: 0,
                            start_time: state.current_time,
                        },
                    );
                    Ok(())
                },
                RoundState::AlliesWin | RoundState::AxisWin => {
                    let n = state.rounds.len();
                    if n == 0 {
                        return Err(AnalysisError::RoundEndWithoutActiveRound);
                    }
                    let (is_active, allies_kills, axis_kills, start_time) = match &state.rounds[n
                        - 1] {
                        Round::Active { allies_kills, axis_kills, start_time } => (
                            true,
                            *allies_kills,
                            *axis_kills,
                            *start_time,
                        ),
                        Round::Completed { .. } => (
                            false,
                            0u32,
                            0u32,
                            GameTime { real_nanos: 0, viewdemo_nanos: 0 },
                        ),
                    };
                    if !is_active {
                        return Err(AnalysisError::RoundEndWithoutActiveRound);
                    }
                    let winner_stats = if matches!(rs, RoundState::AlliesWin) {
                        Some((Team::Allies, allies_kills))
                    } else {
                        Some((Team::Axis, axis_kills))
                    };
                    let end_time = state.current_time;
                    let slot = &mut state.rounds[n - 1];
                    *slot = Round::Completed { start_time, end_time, winner_stats };
                    Ok(())
                },
                _ => Ok(()),
            }
        },
        AnalyzerEvent::UserMessage(UserMessage::DeathMsg(dm)) => {
            let ck = state.find_player_index_by_client(crate::sub1(dm.killer_client_index));
            let cv = state.find_player_index_by_client(crate::sub1(dm.victim_client_index));
            let is_teamkill = match (ck, cv) {
                (Some(k), Some(v)) => {
                    let kt = state.players[k].team;
                    let vt = state.players[v].team;
                    match (kt, vt) {
                        (Some(a), Some(b)) => a == b,
                        _ => false,
                    }
                },
                _ => false,
            };
            let n = state.rounds.len();
            if n > 0 {
                if let (Some(k), Some(_v)) = (ck, cv) {
                    if !is_teamkill {
                        let killer_is_allies = match state.players[k].team {
                            Some(team) => team == Team::Allies,
                            None => false,
                        };
                        let (is_active, allies_kills, axis_kills, start_time) = match &state
                            .rounds[n - 1] {
                            Round::Active { allies_kills, axis_kills, start_time } => (
                                true,
                                *allies_kills,
                                *axis_kills,
                                *start_time,
                            ),
                            Round::Completed { .. } => (
                                false,
                                0u32,
                                0u32,
                                GameTime { real_nanos: 0, viewdemo_nanos: 0 },
                            ),
                        };
                        if is_active {
                            let slot = &mut state.rounds[n - 1];
                            if killer_is_allies {
                                *slot = Round::Active {
                                    allies_kills: allies_kills + 1,
                                    axis_kills,
                                    start_time,
                                };
                            } else {
                                *slot = Round::Active {
                                    allies_kills,
                                    axis_kills: axis_kills + 1,
                                    start_time,
                                };
                            }
                        }
                    }
                }
            }
            Ok(())
        },
        _ => Ok(()),
    }
}

} // verus!
