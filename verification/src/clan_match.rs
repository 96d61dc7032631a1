//! The clan-match detector: a competitive match begins with a scripted
//! restart, visible as a round Reset followed shortly by a Normal while the
//! world is scoreless.

use vstd::prelude::*;
use crate::{AnalyzerEvent, AnalyzerState};
use crate::dod::{RoundState, Team, UserMessage};
use crate::player::Player;
use crate::round::Round;
use crate::scoreboard::spec_team_score_at;

verus! {

/// The detector's state: waiting for a Reset, waiting for the Normal that
/// follows it, or live.
#[derive(Clone, Copy, Debug, PartialEq, Eq, Structural)]
pub enum ClanMatchDetection {
    WaitingForReset,
    WaitingForNormal { reset_time: crate::time::GameTime },
    MatchIsLive,
}

pub open spec fn spec_is_reset_msg(e: AnalyzerEvent) -> bool {
    e matches AnalyzerEvent::UserMessage(UserMessage::RoundState(RoundState::Reset))
}

pub open spec fn spec_is_normal_msg(e: AnalyzerEvent) -> bool {
    e matches AnalyzerEvent::UserMessage(UserMessage::RoundState(RoundState::Normal))
}

pub open spec fn spec_is_clan_timer_msg(e: AnalyzerEvent) -> bool {
    e matches AnalyzerEvent::UserMessage(UserMessage::ClanTimer(_))
}

/// The go-live guard: every player's score is zero and both team scores are
/// zero.
pub open spec fn spec_scoreless(s: AnalyzerState) -> bool {
    &&& forall|i: int| 0 <= i < s.players@.len() ==> #[trigger] s.players@[i].stats.0 == 0
    &&& spec_team_score_at(s.team_scores.timeline@, Team::Allies) == 0
    &&& spec_team_score_at(s.team_scores.timeline@, Team::Axis) == 0
}

/// The detector's transition for one event, evaluated on the state the
/// earlier update functions left behind.
pub open spec fn spec_clan_step(s: AnalyzerState, e: AnalyzerEvent, max_nanos: u64) -> ClanMatchDetection {
    match s.clan_match_detection {
        ClanMatchDetection::WaitingForReset => {
            if spec_is_reset_msg(e) {
                ClanMatchDetection::WaitingForNormal { reset_time: s.current_time }
            } else {
                ClanMatchDetection::WaitingForReset
            }
        },
        ClanMatchDetection::WaitingForNormal { reset_time } => {
            if spec_is_normal_msg(e) && spec_scoreless(s) {
                ClanMatchDetection::MatchIsLive
            } else if s.current_time.viewdemo_nanos - reset_time.viewdemo_nanos > max_nanos {
                ClanMatchDetection::WaitingForReset
            } else {
                ClanMatchDetection::WaitingForNormal { reset_time }
            }
        },
        ClanMatchDetection::MatchIsLive => {
            if spec_is_clan_timer_msg(e) {
                ClanMatchDetection::WaitingForReset
            } else {
                ClanMatchDetection::MatchIsLive
            }
        },
    }
}

/// Whether this event takes the detector live.
pub open spec fn spec_goes_live(s: AnalyzerState, e: AnalyzerEvent) -> bool {
    s.clan_match_detection is WaitingForNormal && spec_is_normal_msg(e) && spec_scoreless(s)
}

/// `q` is `p` with its accumulated history discarded for the freshly live
/// match.
pub open spec fn spec_player_cleared(p: Player, q: Player) -> bool {
    &&& q.id == p.id
    &&& q.connection_status == p.connection_status
    &&& q.name == p.name
    &&& q.team == p.team
    &&& q.class == p.class
    &&& q.stats == p.stats
    &&& q.kill_streaks@.len() == 0
    &&& q.weapon_breakdown@.len() == 0
    &&& q.mortality@.len() == 0
}

/// Advances the clan-match detector and, on the go-live transition, discards
/// all prior history: rounds restart at the reset time, the team score
/// timeline empties, and every player's kill streaks, weapon breakdown and
/// mortality history are cleared.
#[verifier::rlimit(100)]
pub fn use_clan_match_detection_updates(
    max_normal_duration: u64,
    state: &mut AnalyzerState,
    event: &AnalyzerEvent,
)
    requires
        old(state).wf(),
    ensures
        final(state).wf(),
        final(state).current_time == old(state).current_time,
        final(state).clan_match_detection == spec_clan_step(*old(state), *event, max_normal_duration),
        forall|n: int|
            0 <= n && #[trigger] crate::spec_round_counters_bounded(*old(state), n)
                ==> crate::spec_round_counters_bounded(*final(state), n),
        forall|n: int|
            0 <= n && #[trigger] crate::spec_breakdown_counters_bounded(*old(state), n)
                ==> crate::spec_breakdown_counters_bounded(*final(state), n),

        (if spec_goes_live(*old(state), *event) {
            &&& final(state).rounds@ == seq![
                Round::Active {
                    allies_kills: 0u32,
                    axis_kills: 0u32,
                    start_time: old(state).clan_match_detection->WaitingForNormal_reset_time,
                },
            ]
            &&& final(state).team_scores.timeline@.len() == 0
            &&& final(state).players@.len() == old(state).players@.len()
            &&& forall|i: int|
                0 <= i < old(state).players@.len() ==> spec_player_cleared(
                    old(state).players@[i],
                    final(state).players@[i],
                )
        } else {
            &&& final(state).players == old(state).players
            &&& final(state).rounds == old(state).rounds
            &&& final(state).team_scores == old(state).team_scores
        }),
{
    let detection = state.clan_match_detection;
    match detection {
        ClanMatchDetection::WaitingForReset => {
            if let AnalyzerEvent::UserMessage(UserMessage::RoundState(RoundState::Reset)) = event {
                state.clan_match_detection = ClanMatchDetection::WaitingForNormal {
                    reset_time: state.current_time,
                };
            }
        },
        ClanMatchDetection::WaitingForNormal { reset_time } => {
            let is_normal = matches!(
                event,
                AnalyzerEvent::UserMessage(UserMessage::RoundState(RoundState::Normal))
            );
            if is_normal && scoreless(state) {
                state.rounds.clear();
                state.rounds.push(
                    Round::Active { allies_kills: 0, axis_kills: 0, start_time: reset_time },
                );
                state.team_scores.reset();
                let n = state.players.len();
                let mut i: usize = 0;
                while i < n
                    invariant
                        0 <= i <= n,
                        n == state.players@.len(),
                        old(state).wf(),
                        state.players@.len() == old(state).players@.len(),
                        state.current_time == old(state).current_time,
                        state.clan_match_detection == old(state).clan_match_detection,
                        state.rounds@ =~= seq![
                            Round::Active {
                                allies_kills: 0u32,
                                axis_kills: 0u32,
                                start_time: reset_time,
                            },
                        ],
                        state.team_scores.timeline@.len() == 0,
                        forall|j: int|
                            0 <= j < i ==> spec_player_cleared(
                                old(state).players@[j],
                                state.players@[j],
                            ),
                        forall|j: int| i <= j < n ==> state.players@[j] == old(state).players@[j],
                    decreases n - i,
                {
                    let player = &mut state.players[i];
                    player.kill_streaks.clear();
                    player.weapon_breakdown.clear();
                    player.mortality.clear();
                    i = i + 1;
                }
                state.clan_match_detection = ClanMatchDetection::MatchIsLive;
                proof {
                    assert(state.rounds@ =~= seq![
                        Round::Active {
                            allies_kills: 0u32,
                            axis_kills: 0u32,
                            start_time: reset_time,
                        },
                    ]);
                    assert forall|a: int|
                        0 <= a < state.players@.len() implies crate::spec_player_wf(
                        state.players@[a],
                        state.current_time,
                    ) by {
                        assert(spec_player_cleared(old(state).players@[a], state.players@[a]));
                    }
                    assert forall|a: int, b: int|
                        0 <= a < b < state.players@.len() implies (state.players@[a]).id.0@ != (
                        state.players@[b]).id.0@ by {
                        assert(spec_player_cleared(old(state).players@[a], state.players@[a]));
                        assert(spec_player_cleared(old(state).players@[b], state.players@[b]));
                    }
                    assert forall|a: int, b: int|
                        0 <= a < b < state.players@.len() && crate::spec_client_of(
                            state.players@[a],
                        ) is Some implies crate::spec_client_of(state.players@[a])
                        != crate::spec_client_of(state.players@[b]) by {
                        assert(spec_player_cleared(old(state).players@[a], state.players@[a]));
                        assert(spec_player_cleared(old(state).players@[b], state.players@[b]));
                    }
                }
            } else {
                let elapsed = state.current_time.sub(&reset_time);
                if elapsed > max_normal_duration {
                    state.clan_match_detection = ClanMatchDetection::WaitingForReset;
                }
            }
        },
        ClanMatchDetection::MatchIsLive => {
            if let AnalyzerEvent::UserMessage(UserMessage::ClanTimer(_)) = event {
                state.clan_match_detection = ClanMatchDetection::WaitingForReset;
            }
        },
    }
}

/// Clan-match idempotence: while the detector waits for a Reset, any other
/// event leaves it waiting — a demo containing no Reset can never arm or
/// fire the detector, so no accumulated state is ever discarded.
pub proof fn lemma_clan_match_idempotence(s: AnalyzerState, e: AnalyzerEvent, max_nanos: u64)
    requires
        s.clan_match_detection == ClanMatchDetection::WaitingForReset,
        !spec_is_reset_msg(e),
    ensures
        spec_clan_step(s, e, max_nanos) == ClanMatchDetection::WaitingForReset,
{
}

/// Clan-match timeout: once more than the threshold has passed since the
/// Reset, any event that is not a qualifying Normal returns the detector to
/// waiting for a Reset.
pub proof fn lemma_clan_match_timeout(s: AnalyzerState, e: AnalyzerEvent, max_nanos: u64)
    requires
        s.clan_match_detection is WaitingForNormal,
        s.current_time.viewdemo_nanos
            - s.clan_match_detection->WaitingForNormal_reset_time.viewdemo_nanos > max_nanos,
        !(spec_is_normal_msg(e) && spec_scoreless(s)),
    ensures
        spec_clan_step(s, e, max_nanos) == ClanMatchDetection::WaitingForReset,
{
}

/// Checks the go-live guard on the live state.
fn scoreless(state: &AnalyzerState) -> (r: bool)
    ensures
        r == spec_scoreless(*state),
{
    let mut i: usize = 0;
    let n = state.players.len();
    while i < n
        invariant
            0 <= i <= n,
            n == state.players@.len(),
            forall|j: int| 0 <= j < i ==> #[trigger] state.players@[j].stats.0 == 0,
        decreases n - i,
    {
        if state.players[i].stats.0 != 0 {
            return false;
        }
        i = i + 1;
    }
    state.team_scores.get_team_score(Team::Allies) == 0 && state.team_scores.get_team_score(
        Team::Axis,
    ) == 0
}

} // verus!
