//! The scoreboard: per-player score lines and the append-only team score
//! timeline.

use vstd::prelude::*;
use crate::{AnalyzerEvent, AnalyzerState};
use crate::dod::{Team, UserMessage};
use crate::player::Player;
use crate::time::GameTime;

verus! {

/// An append-only timeline of `(time, team, points)` entries. The current
/// score of a team is the latest entry for that team, or zero.
pub struct TeamScores {
    pub timeline: Vec<(GameTime, Team, i32)>,
}

/// The score that the timeline reports for a team: the points of its latest
/// entry, or zero when it has none.
pub open spec fn spec_team_score_at(tl: Seq<(GameTime, Team, i32)>, team: Team) -> i32
    decreases tl.len(),
{
    if tl.len() == 0 {
        0
    } else if tl.last().1 == team {
        tl.last().2
    } else {
        spec_team_score_at(tl.drop_last(), team)
    }
}

impl TeamScores {
    pub fn new() -> (r: TeamScores)
        ensures
            r.timeline@.len() == 0,
    {
        TeamScores { timeline: Vec::new() }
    }

    pub fn get_team_score(&self, team: Team) -> (r: i32)
        ensures
            r == spec_team_score_at(self.timeline@, team),
    {
        let n = self.timeline.len();
        let mut i: usize = n;
        proof {
            assert(self.timeline@.subrange(0, n as int) =~= self.timeline@);
        }
        while i > 0
            invariant
                0 <= i <= self.timeline@.len(),
                spec_team_score_at(self.timeline@, team) == spec_team_score_at(
                    self.timeline@.subrange(0, i as int),
                    team,
                ),
            decreases i,
        {
            let entry = &self.timeline[i - 1];
            proof {
                assert(self.timeline@.subrange(0, i as int).last() == self.timeline@[i - 1]);
                assert(self.timeline@.subrange(0, i as int).drop_last() =~= self
                    .timeline@.subrange(0, i - 1));
            }
            if entry.1 == team {
                return entry.2;
            }
            i = i - 1;
        }
        proof {
            assert(self.timeline@.subrange(0, 0) =~= Seq::<(GameTime, Team, i32)>::empty());
        }
        0
    }

    pub fn add_team_score(&mut self, game_time: GameTime, team: Team, points: i32)
        ensures
            final(self).timeline@ == old(self).timeline@.push((game_time, team, points)),
    {
        self.timeline.push((game_time, team, points));
    }

    /// The whole timeline, oldest entry first.
    pub fn iter(&self) -> (r: &Vec<(GameTime, Team, i32)>)
        ensures
            r@ == self.timeline@,
    {
        &self.timeline
    }

    pub fn reset(&mut self)
        ensures
            final(self).timeline@.len() == 0,
    {
        self.timeline.clear();
    }
}

impl Default for TeamScores {
    fn default() -> (r: TeamScores)
        ensures
            r.timeline@.len() == 0,
    {
        TeamScores { timeline: Vec::new() }
    }
}

/// Appending an entry makes it the team's current score and leaves every
/// other team's score alone.
pub proof fn lemma_team_score_append(tl: Seq<(GameTime, Team, i32)>, t: GameTime, team: Team, points: i32, other: Team)
    ensures
        spec_team_score_at(tl.push((t, team, points)), team) == points,
        other != team ==> spec_team_score_at(tl.push((t, team, points)), other)
            == spec_team_score_at(tl, other),
{
    assert(tl.push((t, team, points)).drop_last() =~= tl);
}

/// Team score monotonicity: the timeline is append-only between resets, so
/// as long as the game never subtracts — each appended score is at least the
/// team's current one — the score the timeline reports never decreases, for
/// the scored team and for every other team alike.
pub proof fn lemma_team_score_monotone(
    tl: Seq<(GameTime, Team, i32)>,
    t: GameTime,
    team: Team,
    points: i32,
    observed: Team,
)
    requires
        points >= spec_team_score_at(tl, team),
    ensures
        spec_team_score_at(tl.push((t, team, points)), observed) >= spec_team_score_at(
            tl,
            observed,
        ),
{
    lemma_team_score_append(tl, t, team, points, observed);
}

/// Routes score-line messages to the player occupying the slot they name.
///
/// PClass sets the class, PTeam the team; ScoreShort overwrites the whole
/// `(score, kills, deaths)` triple; ObjScore overwrites the score alone and
/// Frags the kill count alone. A message naming a vacant slot does nothing.
#[verifier::rlimit(100)]
pub fn use_scoreboard_updates(state: &mut AnalyzerState, event: &AnalyzerEvent)
    requires
        old(state).wf(),
    ensures
        final(state).wf(),
        final(state).current_time == old(state).current_time,
        final(state).rounds == old(state).rounds,
        final(state).team_scores == old(state).team_scores,
        final(state).clan_match_detection == old(state).clan_match_detection,
        forall|n: int|
            #[trigger] crate::spec_breakdown_counters_bounded(*old(state), n)
                ==> crate::spec_breakdown_counters_bounded(*final(state), n),
        (match event {
            AnalyzerEvent::UserMessage(UserMessage::PClass(m)) => spec_slot_updated(
                old(state).players@,
                final(state).players@,
                m.client_index,
                |p: Player, q: Player| q == (Player { class: Some(m.class), ..p }),
            ),
            AnalyzerEvent::UserMessage(UserMessage::PTeam(m)) => spec_slot_updated(
                old(state).players@,
                final(state).players@,
                m.client_index,
                |p: Player, q: Player| q == (Player { team: Some(m.team), ..p }),
            ),
            AnalyzerEvent::UserMessage(UserMessage::ScoreShort(m)) => spec_slot_updated(
                old(state).players@,
                final(state).players@,
                m.client_index,
                |p: Player, q: Player| q == (Player {
                    stats: (m.score as i32, m.kills as i32, m.deaths as i32),
                    ..p
                }),
            ),
            AnalyzerEvent::UserMessage(UserMessage::ObjScore(m)) => spec_slot_updated(
                old(state).players@,
                final(state).players@,
                m.client_index,
                |p: Player, q: Player| q == (Player {
                    stats: (m.score as i32, p.stats.1, p.stats.2),
                    ..p
                }),
            ),
            AnalyzerEvent::UserMessage(UserMessage::Frags(m)) => spec_slot_updated(
                old(state).players@,
                final(state).players@,
                m.client_index,
                |p: Player, q: Player| q == (Player {
                    stats: (p.stats.0, m.frags as i32, p.stats.2),
                    ..p
                }),
            ),
            _ => final(state).players == old(state).players,
        }),
{
    match event {
        AnalyzerEvent::UserMessage(UserMessage::PClass(m)) => {
            if let Some(i) = state.find_player_index_by_client(crate::sub1(m.client_index)) {
                let player = &mut state.players[i];
                player.class = Some(m.class);
            }
        },
        AnalyzerEvent::UserMessage(UserMessage::PTeam(m)) => {
            if let Some(i) = state.find_player_index_by_client(crate::sub1(m.client_index)) {
                let player = &mut state.players[i];
                player.team = Some(m.team);
            }
        },
        AnalyzerEvent::UserMessage(UserMessage::ScoreShort(m)) => {
            if let Some(i) = state.find_player_index_by_client(crate::sub1(m.client_index)) {
                let player = &mut state.players[i];
                player.stats = (m.score as i32, m.kills as i32, m.deaths as i32);
            }
        },
        AnalyzerEvent::UserMessage(UserMessage::ObjScore(m)) => {
            if let Some(i) = state.find_player_index_by_client(crate::sub1(m.client_index)) {
                let player = &mut state.players[i];
                player.stats.0 = m.score as i32;
            }
        },
        AnalyzerEvent::UserMessage(UserMessage::Frags(m)) => {
            if let Some(i) = state.find_player_index_by_client(crate::sub1(m.client_index)) {
                let player = &mut state.players[i];
                player.stats.1 = m.frags as i32;
            }
        },
        _ => {},
    }
}

/// The player occupying the 1-based slot `client_index` was rewritten by `f`;
/// everyone else, or everyone when the slot is vacant, is unchanged.
pub open spec fn spec_slot_updated(
    pre: Seq<Player>,
    post: Seq<Player>,
    client_index: u8,
    f: spec_fn(Player, Player) -> bool,
) -> bool {
    match crate::spec_find_connected(pre, crate::spec_sub1(client_index)) {
        Some(i) => post.len() == pre.len() && f(pre[i], post[i]) && (forall|j: int|
            0 <= j < pre.len() && j != i ==> post[j] == pre[j]),
        None => post == pre,
    }
}

/// Appends the score a TeamScore message carries to the timeline at the
/// current time.
pub fn use_team_score_updates(state: &mut AnalyzerState, event: &AnalyzerEvent)
    requires
        old(state).wf(),
    ensures
        final(state).wf(),
        final(state).current_time == old(state).current_time,
        final(state).players == old(state).players,
        final(state).rounds == old(state).rounds,
        final(state).clan_match_detection == old(state).clan_match_detection,
        (match event {
            AnalyzerEvent::UserMessage(UserMessage::TeamScore(m)) => final(state)
                .team_scores.timeline@ == old(state).team_scores.timeline@.push(
                (old(state).current_time, m.team, m.score as i32),
            ),
            _ => final(state).team_scores == old(state).team_scores,
        }),
{
    if let AnalyzerEvent::UserMessage(UserMessage::TeamScore(m)) = event {
        let t = state.current_time;
        state.team_scores.add_team_score(t, m.team, m.score as i32);
    }
}

/// How two teammates stand on the final scoreboard: by score, then kills,
/// both descending, then deaths ascending. A negative value orders `left`
/// first, a positive one orders `right` first.
pub open spec fn spec_stats_order(left: Player, right: Player) -> i8 {
    if left.stats.0 != right.stats.0 {
        if left.stats.0 > right.stats.0 {
            -1i8
        } else {
            1i8
        }
    } else if left.stats.1 != right.stats.1 {
        if left.stats.1 > right.stats.1 {
            -1i8
        } else {
            1i8
        }
    } else if left.stats.2 != right.stats.2 {
        if left.stats.2 < right.stats.2 {
            -1i8
        } else {
            1i8
        }
    } else {
        0i8
    }
}

/// How two players stand on the final scoreboard: a negative value orders
/// `left` first, a positive one orders `right` first, zero leaves them as
/// they are.
///
/// Teammates order by their score lines; Allies come first, Axis before
/// spectators, and spectators and the teamless sink to the bottom.
pub open spec fn spec_scoreboard_order(left: Player, right: Player) -> i8 {
    if left.team is Some && right.team is Some && left.team == right.team {
        spec_stats_order(left, right)
    } else if left.team == Some(Team::Allies) {
        -1i8
    } else if left.team == Some(Team::Axis) && right.team == Some(Team::Spectators) {
        -1i8
    } else if left.team == Some(Team::Spectators) || left.team is None {
        1i8
    } else {
        0i8
    }
}

/// Compares two players for scoreboard order; see [spec_scoreboard_order].
pub fn compare_players(left: &Player, right: &Player) -> (r: i8)
    ensures
        r == spec_scoreboard_order(*left, *right),
{
    let same_team = match (left.team, right.team) {
        (Some(lt), Some(rt)) => lt == rt,
        _ => false,
    };
    if same_team {
        if left.stats.0 != right.stats.0 {
            if left.stats.0 > right.stats.0 {
                -1
            } else {
                1
            }
        } else if left.stats.1 != right.stats.1 {
            if left.stats.1 > right.stats.1 {
                -1
            } else {
                1
            }
        } else if left.stats.2 != right.stats.2 {
            if left.stats.2 < right.stats.2 {
                -1
            } else {
                1
            }
        } else {
            0
        }
    } else {
        match (left.team, right.team) {
            (Some(Team::Allies), _) => -1,
            (Some(Team::Axis), Some(Team::Spectators)) => -1,
            (Some(Team::Spectators), _) => 1,
            (None, _) => 1,
            _ => 0,
        }
    }
}

} // verus!
