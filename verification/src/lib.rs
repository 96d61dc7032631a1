//! Event-sourced analysis of recorded Day of Defeat demos.
//!
//! The library consumes an ordered stream of decoded demo events and derives a
//! match analysis: the roster of players with identities, teams, classes and
//! statistics; per-round outcomes; per-player weapon usage and kill streaks;
//! team score timelines; and a clan-match heuristic that detects when a
//! competitive match truly begins inside a longer recording.
//!
//! The container parser stays outside: callers decode the demo file, turn its
//! frames into [AnalyzerEvent] values in wire order, and fold them through
//! [apply_event] — or hand the whole stream to [analyze].

pub mod clan_match;
pub mod decode;
pub mod dod;
pub mod kill;
pub mod mortality;
pub mod player;
pub mod round;
pub mod scoreboard;
pub mod time;

use vstd::prelude::*;

use crate::clan_match::ClanMatchDetection;
use crate::dod::UserMessage;
use crate::kill::WeaponStat;
use crate::player::{ConnectionStatus, Player, PlayerGlobalId};
use crate::round::Round;
use crate::scoreboard::TeamScores;
use crate::time::GameTime;

verus! {

/// A fatal desynchronization: the demo reports something the analysis cannot
/// reconcile, and fabricating state would taint every downstream statistic.
#[derive(Clone, Copy, Debug, PartialEq, Eq, Structural)]
pub enum AnalysisError {
    /// A round ended with a winner while no round was active.
    RoundEndWithoutActiveRound,
}

/// One event of the analysis stream, in wire order: a sentinel, a timing
/// update, an engine user-info update, or a decoded user message.
pub enum AnalyzerEvent {
    /// Precedes every demo event.
    Initialization,
    /// Follows every demo event.
    Finalization,
    /// A container frame timestamp, in nanoseconds.
    RealTimeChange { nanos: u64 },
    /// The engine clock, in nanoseconds.
    SvcTime { nanos: u64 },
    /// An engine user-info update: the 0-based slot, the server's connection
    /// id, and the backslash-delimited userinfo blob.
    SvcUpdateUserInfo { index: u8, id: u32, user_info: Vec<u8> },
    /// A decoded user message.
    UserMessage(UserMessage),
}

/// The 0-based slot that a 1-based wire index names; a wire index of zero
/// wraps to slot 255, which a suicide's killer index produces.
pub open spec fn spec_sub1(client_index: u8) -> u8 {
    if client_index == 0 {
        255
    } else {
        (client_index - 1) as u8
    }
}

pub fn sub1(client_index: u8) -> (r: u8)
    ensures
        r == spec_sub1(client_index),
{
    if client_index == 0 {
        255
    } else {
        client_index - 1
    }
}

/// The slot a player holds, if connected.
pub open spec fn spec_client_of(p: Player) -> Option<u8> {
    match p.connection_status {
        ConnectionStatus::Connected { client_id } => Some(client_id),
        ConnectionStatus::Disconnected => None,
    }
}

/// The first index at or after `i` of a player connected to slot `cid`.
pub open spec fn spec_find_connected_from(players: Seq<Player>, cid: u8, i: int) -> Option<int>
    decreases players.len() - i when 0 <= i <= players.len()
{
    if i >= players.len() {
        None
    } else if spec_client_of(players[i]) == Some(cid) {
        Some(i)
    } else {
        spec_find_connected_from(players, cid, i + 1)
    }
}

/// The index of the player connected to slot `cid`, if any.
pub open spec fn spec_find_connected(players: Seq<Player>, cid: u8) -> Option<int> {
    spec_find_connected_from(players, cid, 0)
}

pub proof fn lemma_find_connected(players: Seq<Player>, cid: u8, i: int)
    requires
        0 <= i <= players.len(),
    ensures
        match spec_find_connected_from(players, cid, i) {
            Some(k) => i <= k < players.len() && spec_client_of(players[k]) == Some(cid) && (
            forall|j: int| i <= j < k ==> spec_client_of(players[j]) != Some(cid)),
            None => forall|j: int| i <= j < players.len() ==> spec_client_of(players[j]) != Some(
                cid,
            ),
        },
    decreases players.len() - i,
{
    if i < players.len() && spec_client_of(players[i]) != Some(cid) {
        lemma_find_connected(players, cid, i + 1);
    }
}

/// The first index at or after `i` of the player with global id `id`.
pub open spec fn spec_find_by_id_from(players: Seq<Player>, id: Seq<u8>, i: int) -> Option<int>
    decreases players.len() - i when 0 <= i <= players.len()
{
    if i >= players.len() {
        None
    } else if players[i].id.0@ == id {
        Some(i)
    } else {
        spec_find_by_id_from(players, id, i + 1)
    }
}

/// The index of the player with global id `id`, if any.
pub open spec fn spec_find_by_id(players: Seq<Player>, id: Seq<u8>) -> Option<int> {
    spec_find_by_id_from(players, id, 0)
}

pub proof fn lemma_find_by_id(players: Seq<Player>, id: Seq<u8>, i: int)
    requires
        0 <= i <= players.len(),
    ensures
        match spec_find_by_id_from(players, id, i) {
            Some(k) => i <= k < players.len() && players[k].id.0@ == id && (forall|j: int|
                i <= j < k ==> players[j].id.0@ != id),
            None => forall|j: int| i <= j < players.len() ==> players[j].id.0@ != id,
        },
    decreases players.len() - i,
{
    if i < players.len() && players[i].id.0@ != id {
        lemma_find_by_id(players, id, i + 1);
    }
}

/// One kill streak is well-formed under clock `now`: its kill times are in
/// non-decreasing order and none lies in the future.
pub open spec fn spec_streak_wf(k: crate::kill::KillStreak, now: GameTime) -> bool {
    &&& forall|a: int|
        0 <= a < k.kills@.len() ==> (#[trigger] k.kills@[a]).0.viewdemo_nanos
            <= now.viewdemo_nanos
    &&& forall|a: int, b: int|
        0 <= a <= b < k.kills@.len() ==> (#[trigger] k.kills@[a]).0.viewdemo_nanos <= (
        #[trigger] k.kills@[b]).0.viewdemo_nanos
}

/// One player's histories are well-formed under clock `now`: every streak is
/// well-formed, the mortality history is in time order with no entry in the
/// future, and the weapon breakdown holds at most one entry per weapon.
pub open spec fn spec_player_wf(p: Player, now: GameTime) -> bool {
    &&& forall|s: int|
        0 <= s < p.kill_streaks@.len() ==> spec_streak_wf(#[trigger] p.kill_streaks@[s], now)
    &&& forall|a: int|
        0 <= a < p.mortality@.len() ==> (#[trigger] p.mortality@[a]).0.viewdemo_nanos
            <= now.viewdemo_nanos
    &&& forall|a: int, b: int|
        0 <= a <= b < p.mortality@.len() ==> (#[trigger] p.mortality@[a]).0.viewdemo_nanos <= (
        #[trigger] p.mortality@[b]).0.viewdemo_nanos
    &&& forall|a: int, b: int|
        0 <= a < b < p.weapon_breakdown@.len() ==> (#[trigger] p.weapon_breakdown@[a]).weapon != (
        #[trigger] p.weapon_breakdown@[b]).weapon
}

/// The shared mutable state that the update functions fold events into.
pub struct AnalyzerState {
    pub clan_match_detection: ClanMatchDetection,
    pub current_time: GameTime,
    pub players: Vec<Player>,
    pub rounds: Vec<Round>,
    pub team_scores: TeamScores,
}

impl AnalyzerState {
    /// The state invariant every update function preserves: global ids are
    /// unique, no slot holds two connected players, every player's histories
    /// respect the clock, and a pending reset time never lies in the future.
    pub open spec fn wf(self) -> bool {
        &&& forall|i: int, j: int|
            0 <= i < j < self.players@.len() ==> (#[trigger] self.players@[i]).id.0@ != (
            #[trigger] self.players@[j]).id.0@
        &&& forall|i: int, j: int|
            0 <= i < j < self.players@.len() && spec_client_of(#[trigger] self.players@[i])
                is Some ==> spec_client_of(self.players@[i]) != spec_client_of(
                #[trigger] self.players@[j],
            )
        &&& forall|i: int|
            0 <= i < self.players@.len() ==> spec_player_wf(
                #[trigger] self.players@[i],
                self.current_time,
            )
        &&& (self.clan_match_detection matches ClanMatchDetection::WaitingForNormal {
            reset_time,
        } ==> reset_time.viewdemo_nanos <= self.current_time.viewdemo_nanos)
    }

    pub fn new() -> (r: AnalyzerState)
        ensures
            r.wf(),
            r.clan_match_detection == ClanMatchDetection::WaitingForReset,
            r.current_time == (GameTime { real_nanos: 0, viewdemo_nanos: 0 }),
            r.players@.len() == 0,
            r.rounds@.len() == 0,
            r.team_scores.timeline@.len() == 0,
    {
        AnalyzerState {
            clan_match_detection: ClanMatchDetection::WaitingForReset,
            current_time: GameTime { real_nanos: 0, viewdemo_nanos: 0 },
            players: Vec::new(),
            rounds: Vec::new(),
            team_scores: TeamScores::new(),
        }
    }

    /// The unique connected player in slot `client_index`, if any.
    pub fn find_player_index_by_client(&self, client_index: u8) -> (r: Option<usize>)
        ensures
            match r {
                Some(i) => spec_find_connected(self.players@, client_index) == Some(i as int) && i
                    < self.players@.len(),
                None => spec_find_connected(self.players@, client_index) is None,
            },
    {
        let mut i: usize = 0;
        let n = self.players.len();
        while i < n
            invariant
                0 <= i <= n,
                n == self.players@.len(),
                spec_find_connected(self.players@, client_index) == spec_find_connected_from(
                    self.players@,
                    client_index,
                    i as int,
                ),
            decreases n - i,
        {
            let connected = match self.players[i].connection_status {
                ConnectionStatus::Connected { client_id } => client_id == client_index,
                ConnectionStatus::Disconnected => false,
            };
            if connected {
                return Some(i);
            }
            i = i + 1;
        }
        None
    }

    pub fn find_player_by_client_index(&self, client_index: u8) -> (r: Option<&Player>)
        ensures
            match r {
                Some(p) => spec_find_connected(self.players@, client_index) matches Some(i)
                    && *p == self.players@[i],
                None => spec_find_connected(self.players@, client_index) is None,
            },
    {
        match self.find_player_index_by_client(client_index) {
            Some(i) => Some(&self.players[i]),
            None => None,
        }
    }

    /// The first player carrying global id `id`, if any.
    pub fn find_player_index_by_id(&self, id: &PlayerGlobalId) -> (r: Option<usize>)
        ensures
            match r {
                Some(i) => spec_find_by_id(self.players@, id.0@) == Some(i as int) && i
                    < self.players@.len(),
                None => spec_find_by_id(self.players@, id.0@) is None,
            },
    {
        let mut i: usize = 0;
        let n = self.players.len();
        while i < n
            invariant
                0 <= i <= n,
                n == self.players@.len(),
                spec_find_by_id(self.players@, id.0@) == spec_find_by_id_from(
                    self.players@,
                    id.0@,
                    i as int,
                ),
            decreases n - i,
        {
            if crate::decode::bytes_eq(self.players[i].id.0.as_slice(), id.0.as_slice()) {
                return Some(i);
            }
            i = i + 1;
        }
        None
    }

    pub fn find_player_by_id(&self, id: &PlayerGlobalId) -> (r: Option<&Player>)
        ensures
            match r {
                Some(p) => spec_find_by_id(self.players@, id.0@) matches Some(i) && *p
                    == self.players@[i],
                None => spec_find_by_id(self.players@, id.0@) is None,
            },
    {
        match self.find_player_index_by_id(id) {
            Some(i) => Some(&self.players[i]),
            None => None,
        }
    }
}

impl Default for AnalyzerState {
    fn default() -> (r: AnalyzerState)
        ensures
            r.wf(),
            r.clan_match_detection == ClanMatchDetection::WaitingForReset,
            r.current_time == (GameTime { real_nanos: 0, viewdemo_nanos: 0 }),
            r.players@.len() == 0,
            r.rounds@.len() == 0,
            r.team_scores.timeline@.len() == 0,
    {
        AnalyzerState::new()
    }
}

/// Every active round's side count is at most `n`.
pub open spec fn spec_round_counters_bounded(s: AnalyzerState, n: int) -> bool {
    forall|i: int|
        0 <= i < s.rounds@.len() ==> ((#[trigger] s.rounds@[i]) matches Round::Active {
            allies_kills,
            axis_kills,
            ..
        } ==> allies_kills <= n && axis_kills <= n)
}

/// Every weapon-breakdown count is at most `n`.
pub open spec fn spec_breakdown_counters_bounded(s: AnalyzerState, n: int) -> bool {
    forall|i: int, w: int|
        0 <= i < s.players@.len() && 0 <= w < s.players@[i].weapon_breakdown@.len() ==> (
        #[trigger] s.players@[i].weapon_breakdown@[w]).kills <= n
            && s.players@[i].weapon_breakdown@[w].teamkills <= n
}

/// Every kill counter in the state is at most `n`: the active rounds' side
/// counts and the weapon breakdown counts. The driver keeps them bounded by
/// the number of events folded so far.
pub open spec fn spec_counters_bounded(s: AnalyzerState, n: int) -> bool {
    &&& spec_round_counters_bounded(s, n)
    &&& spec_breakdown_counters_bounded(s, n)
}

/// The default clan-match timeout: a qualifying Normal must follow a Reset
/// within ten seconds.
pub const DEFAULT_MAX_NORMAL_DURATION_NANOS: u64 = 10_000_000_000;

/// A smaller bound on every counter still holds under a larger one.
pub proof fn lemma_counters_mono(s: AnalyzerState, m: int, n: int)
    requires
        spec_counters_bounded(s, m),
        m <= n,
    ensures
        spec_counters_bounded(s, n),
{
}

// ---------------------------------------------------------------------------
// The step relations: what each update function in the driver's chain does,
// stated over a pre- and post-state
// ---------------------------------------------------------------------------

/// The timing step: the clock moves under the monotonic clamp, nothing else
/// changes.
pub open spec fn spec_timing_rel(pre: AnalyzerState, post: AnalyzerState, e: AnalyzerEvent) -> bool {
    &&& post.current_time == (match e {
        AnalyzerEvent::SvcTime { nanos } => GameTime {
            real_nanos: pre.current_time.real_nanos,
            viewdemo_nanos: crate::time::spec_clamped(pre.current_time.viewdemo_nanos, nanos),
        },
        AnalyzerEvent::RealTimeChange { nanos } => GameTime {
            real_nanos: crate::time::spec_clamped(pre.current_time.real_nanos, nanos),
            viewdemo_nanos: pre.current_time.viewdemo_nanos,
        },
        _ => pre.current_time,
    })
    &&& post.players == pre.players
    &&& post.rounds == pre.rounds
    &&& post.team_scores == pre.team_scores
    &&& post.clan_match_detection == pre.clan_match_detection
}

/// The identity step: a user-info message reshapes the roster, anything else
/// leaves it alone.
pub open spec fn spec_player_rel(pre: AnalyzerState, post: AnalyzerState, e: AnalyzerEvent) -> bool {
    &&& (match e {
        AnalyzerEvent::SvcUpdateUserInfo { index, id, user_info } => crate::player::spec_player_update(
            pre,
            post,
            index,
            id,
            user_info@,
        ),
        _ => post.players == pre.players,
    })
    &&& post.current_time == pre.current_time
    &&& post.rounds == pre.rounds
    &&& post.team_scores == pre.team_scores
    &&& post.clan_match_detection == pre.clan_match_detection
}

/// The scoreboard step: score-line messages rewrite one slot's player.
pub open spec fn spec_scoreboard_rel(pre: AnalyzerState, post: AnalyzerState, e: AnalyzerEvent) -> bool {
    &&& (match e {
        AnalyzerEvent::UserMessage(UserMessage::PClass(m)) => crate::scoreboard::spec_slot_updated(
            pre.players@,
            post.players@,
            m.client_index,
            |p: Player, q: Player| q == (Player { class: Some(m.class), ..p }),
        ),
        AnalyzerEvent::UserMessage(UserMessage::PTeam(m)) => crate::scoreboard::spec_slot_updated(
            pre.players@,
            post.players@,
            m.client_index,
            |p: Player, q: Player| q == (Player { team: Some(m.team), ..p }),
        ),
        AnalyzerEvent::UserMessage(UserMessage::ScoreShort(m)) => crate::scoreboard::spec_slot_updated(
            pre.players@,
            post.players@,
            m.client_index,
            |p: Player, q: Player| q == (Player {
                stats: (m.score as i32, m.kills as i32, m.deaths as i32),
                ..p
            }),
        ),
        AnalyzerEvent::UserMessage(UserMessage::ObjScore(m)) => crate::scoreboard::spec_slot_updated(
            pre.players@,
            post.players@,
            m.client_index,
            |p: Player, q: Player| q == (Player { stats: (m.score as i32, p.stats.1, p.stats.2), ..p }),
        ),
        AnalyzerEvent::UserMessage(UserMessage::Frags(m)) => crate::scoreboard::spec_slot_updated(
            pre.players@,
            post.players@,
            m.client_index,
            |p: Player, q: Player| q == (Player { stats: (p.stats.0, m.frags as i32, p.stats.2), ..p }),
        ),
        _ => post.players == pre.players,
    })
    &&& post.current_time == pre.current_time
    &&& post.rounds == pre.rounds
    &&& post.team_scores == pre.team_scores
    &&& post.clan_match_detection == pre.clan_match_detection
}

/// The kill-streak step: deaths end the victim's streak and extend the
/// killer's, a reset ends everyone's.
pub open spec fn spec_kill_streak_rel(pre: AnalyzerState, post: AnalyzerState, e: AnalyzerEvent) -> bool {
    &&& (match e {
        AnalyzerEvent::UserMessage(UserMessage::DeathMsg(dm)) => crate::kill::spec_kill_streak_death(
            pre,
            post,
            dm,
        ),
        AnalyzerEvent::UserMessage(UserMessage::RoundState(dod::RoundState::Reset)) => {
            &&& post.players@.len() == pre.players@.len()
            &&& forall|i: int|
                0 <= i < pre.players@.len() ==> crate::kill::spec_streak_terminated(
                    pre.players@[i],
                    post.players@[i],
                )
        },
        _ => post.players == pre.players,
    })
    &&& post.current_time == pre.current_time
    &&& post.rounds == pre.rounds
    &&& post.team_scores == pre.team_scores
    &&& post.clan_match_detection == pre.clan_match_detection
}

/// The weapon-breakdown step: a death bumps the killer's count for the
/// weapon.
pub open spec fn spec_weapon_breakdown_rel(pre: AnalyzerState, post: AnalyzerState, e: AnalyzerEvent) -> bool {
    &&& (match e {
        AnalyzerEvent::UserMessage(UserMessage::DeathMsg(dm)) => {
            let players = pre.players@;
            let ck = spec_find_connected(players, spec_sub1(dm.killer_client_index));
            let cv = spec_find_connected(players, spec_sub1(dm.victim_client_index));
            let tk = crate::kill::spec_is_teamkill(players, ck, cv);
            match ck {
                Some(k) => {
                    &&& post.players@.len() == players.len()
                    &&& forall|i: int|
                        0 <= i < players.len() && i != k ==> post.players@[i] == players[i]
                    &&& crate::kill::spec_breakdown_updated(players[k], post.players@[k], dm.weapon, tk)
                },
                None => post.players == pre.players,
            }
        },
        _ => post.players == pre.players,
    })
    &&& post.current_time == pre.current_time
    &&& post.rounds == pre.rounds
    &&& post.team_scores == pre.team_scores
    &&& post.clan_match_detection == pre.clan_match_detection
}

/// The team-score step: a team score appends to the timeline at the current
/// time.
pub open spec fn spec_team_score_rel(pre: AnalyzerState, post: AnalyzerState, e: AnalyzerEvent) -> bool {
    &&& (match e {
        AnalyzerEvent::UserMessage(UserMessage::TeamScore(m)) => post.team_scores.timeline@
            == pre.team_scores.timeline@.push((pre.current_time, m.team, m.score as i32)),
        _ => post.team_scores == pre.team_scores,
    })
    &&& post.current_time == pre.current_time
    &&& post.players == pre.players
    &&& post.rounds == pre.rounds
    &&& post.clan_match_detection == pre.clan_match_detection
}

/// A round-ending win with no trailing active round: the fatal
/// desynchronization that aborts an analysis.
pub open spec fn spec_rounds_fatal(s: AnalyzerState, e: AnalyzerEvent) -> bool {
    match e {
        AnalyzerEvent::UserMessage(UserMessage::RoundState(rs)) => (rs == dod::RoundState::AlliesWin
            || rs == dod::RoundState::AxisWin) && !(s.rounds@.len() > 0
            && s.rounds@.last() is Active),
        _ => false,
    }
}

/// The rounds step, on the events it does not abort on.
pub open spec fn spec_rounds_rel(pre: AnalyzerState, post: AnalyzerState, e: AnalyzerEvent) -> bool {
    &&& crate::round::spec_rounds_step(pre, post.rounds@, e)
    &&& post.current_time == pre.current_time
    &&& post.players == pre.players
    &&& post.team_scores == pre.team_scores
    &&& post.clan_match_detection == pre.clan_match_detection
}

/// The clan-match step: the detector advances, and going live discards the
/// accumulated history.
pub open spec fn spec_clan_rel(pre: AnalyzerState, post: AnalyzerState, e: AnalyzerEvent, max: u64) -> bool {
    &&& post.clan_match_detection == crate::clan_match::spec_clan_step(pre, e, max)
    &&& post.current_time == pre.current_time
    &&& (if crate::clan_match::spec_goes_live(pre, e) {
        &&& post.rounds@ == seq![
            Round::Active {
                allies_kills: 0u32,
                axis_kills: 0u32,
                start_time: pre.clan_match_detection->WaitingForNormal_reset_time,
            },
        ]
        &&& post.team_scores.timeline@.len() == 0
        &&& post.players@.len() == pre.players@.len()
        &&& forall|i: int|
            0 <= i < pre.players@.len() ==> crate::clan_match::spec_player_cleared(
                pre.players@[i],
                post.players@[i],
            )
    } else {
        &&& post.players == pre.players
        &&& post.rounds == pre.rounds
        &&& post.team_scores == pre.team_scores
    })
}

/// One full driver step: the eight update functions in order, each related to
/// the state the previous one left behind, with the rounds update not
/// aborting.
pub open spec fn spec_apply_rel(pre: AnalyzerState, post: AnalyzerState, e: AnalyzerEvent, max: u64) -> bool {
    exists|m1: AnalyzerState|
        #[trigger] spec_timing_rel(pre, m1, e) && spec_apply_rel_tail1(m1, post, e, max)
}

/// Folds one event through every update function, in the order that the
/// scoreboard semantics require: timing, player identity, scoreboard, kill
/// streaks, weapon breakdown, team scores, rounds, clan-match detection.
///
/// The order is load-bearing: the scoreboard runs before kill streaks and
/// rounds so that team membership seen by a death reflects any team change
/// that arrived earlier in the same frame, and the clan-match detector runs
/// last so that it observes the post-event scoreboard when it evaluates its
/// zero-score guard.
#[verifier::rlimit(100)]
pub fn apply_event(
    state: &mut AnalyzerState,
    event: &AnalyzerEvent,
    max_normal_duration: u64,
) -> (r: Result<(), AnalysisError>)
    requires
        old(state).wf(),
        spec_counters_bounded(*old(state), u32::MAX - 1),
    ensures
        final(state).wf(),
        r is Ok ==> spec_apply_rel(*old(state), *final(state), *event, max_normal_duration),
        final(state).current_time == (match event {
            AnalyzerEvent::SvcTime { nanos } => GameTime {
                real_nanos: old(state).current_time.real_nanos,
                viewdemo_nanos: crate::time::spec_clamped(
                    old(state).current_time.viewdemo_nanos,
                    *nanos,
                ),
            },
            AnalyzerEvent::RealTimeChange { nanos } => GameTime {
                real_nanos: crate::time::spec_clamped(old(state).current_time.real_nanos, *nanos),
                viewdemo_nanos: old(state).current_time.viewdemo_nanos,
            },
            _ => old(state).current_time,
        }),
        final(state).current_time.viewdemo_nanos >= old(state).current_time.viewdemo_nanos,
        forall|n: int|
            0 <= n < u32::MAX && #[trigger] spec_counters_bounded(*old(state), n)
                ==> spec_counters_bounded(*final(state), n + 1),
        r is Err <==> spec_rounds_fatal(*old(state), *event),
        r is Err ==> r == Err::<(), AnalysisError>(AnalysisError::RoundEndWithoutActiveRound),
        // A demo with no Reset leaves the detector waiting for one.
        old(state).clan_match_detection == ClanMatchDetection::WaitingForReset
            && !crate::clan_match::spec_is_reset_msg(*event) ==> final(state).clan_match_detection
            == ClanMatchDetection::WaitingForReset,
        // Once the timeout passes, the detector never stays waiting for a
        // Normal: it either went live on this event or rearmed.
        r is Ok && old(state).clan_match_detection is WaitingForNormal
            && final(state).current_time.viewdemo_nanos
            - old(state).clan_match_detection->WaitingForNormal_reset_time.viewdemo_nanos
            > max_normal_duration
            ==> final(state).clan_match_detection == ClanMatchDetection::MatchIsLive
            || final(state).clan_match_detection == ClanMatchDetection::WaitingForReset,
        // Active rounds stand only at the tail, as long as no Reset arrives
        // while a round is already active.
        crate::round::spec_rounds_tail_ok(old(state).rounds@) && !(
        crate::clan_match::spec_is_reset_msg(*event) && old(state).rounds@.len() > 0 && old(state).rounds@.last() is Active) ==> crate::round::spec_rounds_tail_ok(final(state).rounds@),
        // The go-live transition leaves exactly one fresh active round, an
        // empty team-score timeline, and scoreless players with cleared
        // histories.
        r is Ok && old(state).clan_match_detection is WaitingForNormal && final(state).clan_match_detection is MatchIsLive ==> {
            &&& final(state).rounds@.len() == 1
            &&& final(state).rounds@[0] matches Round::Active { allies_kills, axis_kills, .. }
                && allies_kills == 0 && axis_kills == 0
            &&& final(state).team_scores.timeline@.len() == 0
            &&& forall|i: int|
                0 <= i < final(state).players@.len() ==> (#[trigger] final(state).players@[i]).stats.0 == 0 && final(state).players@[i].kill_streaks@.len() == 0
                    && final(state).players@[i].weapon_breakdown@.len() == 0
        },
{
    crate::time::use_timing_updates(state, event);
    let ghost m1 = *state;
    crate::player::use_player_updates(state, event);
    let ghost m2 = *state;
    crate::scoreboard::use_scoreboard_updates(state, event);
    let ghost m3 = *state;
    crate::kill::use_kill_streak_updates(state, event);
    let ghost m4 = *state;
    crate::kill::use_weapon_breakdown_updates(state, event);
    let ghost m5 = *state;
    crate::scoreboard::use_team_score_updates(state, event);
    let ghost m6 = *state;
    match crate::round::use_rounds_updates(state, event) {
        Err(e) => {
            return Err(e);
        },
        Ok(()) => {},
    }
    let ghost m7 = *state;
    crate::clan_match::use_clan_match_detection_updates(max_normal_duration, state, event);
    proof {
        assert(spec_timing_rel(*old(state), m1, *event));
        assert(spec_player_rel(m1, m2, *event));
        assert(spec_scoreboard_rel(m2, m3, *event));
        assert(spec_kill_streak_rel(m3, m4, *event));
        assert(spec_weapon_breakdown_rel(m4, m5, *event));
        assert(spec_team_score_rel(m5, m6, *event));
        assert(!spec_rounds_fatal(m6, *event));
        assert(spec_rounds_rel(m6, m7, *event));
        assert(spec_clan_rel(m7, *state, *event, max_normal_duration));
    }
    Ok(())
}

/// The state an analysis starts from: nothing seen yet.
pub open spec fn spec_initial_state(s: AnalyzerState) -> bool {
    &&& s.clan_match_detection == ClanMatchDetection::WaitingForReset
    &&& s.current_time == (GameTime { real_nanos: 0, viewdemo_nanos: 0 })
    &&& s.players@.len() == 0
    &&& s.rounds@.len() == 0
    &&& s.team_scores.timeline@.len() == 0
}

/// A run of the analysis: the initial state, one driver step for the
/// Initialization sentinel, one step per demo event in wire order, and one
/// step for the Finalization sentinel.
pub open spec fn spec_valid_trace(
    trace: Seq<AnalyzerState>,
    events: Seq<AnalyzerEvent>,
    max: u64,
) -> bool {
    &&& trace.len() == events.len() + 3
    &&& spec_initial_state(trace[0])
    &&& spec_apply_rel(trace[0], trace[1], AnalyzerEvent::Initialization, max)
    &&& forall|i: int|
        0 <= i < events.len() ==> #[trigger] spec_apply_rel(
            trace[i + 1],
            trace[i + 2],
            events[i],
            max,
        )
    &&& spec_apply_rel(
        trace[events.len() as int + 1],
        trace[events.len() as int + 2],
        AnalyzerEvent::Finalization,
        max,
    )
}

/// An aborted run of the analysis: the initial state, the Initialization
/// step, some prefix of the demo events each folded by one driver step — and
/// then an event that is fatal in the state the prefix reached. An analysis
/// returns an error only by exhibiting such a run.
pub open spec fn spec_aborting_trace(
    trace: Seq<AnalyzerState>,
    events: Seq<AnalyzerEvent>,
    max: u64,
) -> bool {
    &&& 2 <= trace.len() <= events.len() + 1
    &&& spec_initial_state(trace[0])
    &&& spec_apply_rel(trace[0], trace[1], AnalyzerEvent::Initialization, max)
    &&& forall|i: int|
        0 <= i < trace.len() - 2 ==> #[trigger] spec_apply_rel(
            trace[i + 1],
            trace[i + 2],
            events[i],
            max,
        )
    &&& spec_rounds_fatal(trace.last(), events[trace.len() - 2])
}

// ---------------------------------------------------------------------------
// Determinism of the driver, up to the fields its decisions read
// ---------------------------------------------------------------------------

/// Two players agree on everything the driver's control decisions read:
/// identity, connection, team and score line. Names, classes and the
/// accumulated histories steer no decision.
pub open spec fn spec_obs_player_eq(p: Player, q: Player) -> bool {
    &&& q.id.0@ == p.id.0@
    &&& q.connection_status == p.connection_status
    &&& q.team == p.team
    &&& q.stats == p.stats
}

/// Two states agree on everything the driver's control decisions read.
pub open spec fn spec_obs_eq(a: AnalyzerState, b: AnalyzerState) -> bool {
    &&& b.clan_match_detection == a.clan_match_detection
    &&& b.current_time == a.current_time
    &&& b.rounds@ == a.rounds@
    &&& b.team_scores.timeline@ == a.team_scores.timeline@
    &&& b.players@.len() == a.players@.len()
    &&& forall|i: int|
        0 <= i < a.players@.len() ==> spec_obs_player_eq(
            #[trigger] a.players@[i],
            #[trigger] b.players@[i],
        )
}

/// The slot search reads only connection status, so it agrees on
/// observably equal rosters.
proof fn lemma_find_connected_obs(a: Seq<Player>, b: Seq<Player>, cid: u8, i: int)
    requires
        a.len() == b.len(),
        forall|j: int|
            0 <= j < a.len() ==> spec_obs_player_eq(#[trigger] a[j], #[trigger] b[j]),
        0 <= i <= a.len(),
    ensures
        spec_find_connected_from(a, cid, i) == spec_find_connected_from(b, cid, i),
    decreases a.len() - i,
{
    if i < a.len() {
        assert(spec_obs_player_eq(a[i], b[i]));
        lemma_find_connected_obs(a, b, cid, i + 1);
    }
}

/// The identity search reads only the id bytes, so it agrees on observably
/// equal rosters.
proof fn lemma_find_by_id_obs(a: Seq<Player>, b: Seq<Player>, id: Seq<u8>, i: int)
    requires
        a.len() == b.len(),
        forall|j: int|
            0 <= j < a.len() ==> spec_obs_player_eq(#[trigger] a[j], #[trigger] b[j]),
        0 <= i <= a.len(),
    ensures
        spec_find_by_id_from(a, id, i) == spec_find_by_id_from(b, id, i),
    decreases a.len() - i,
{
    if i < a.len() {
        assert(spec_obs_player_eq(a[i], b[i]));
        lemma_find_by_id_obs(a, b, id, i + 1);
    }
}

/// The identity update's observable outcome is a function of the observable
/// pre-state and the message.
proof fn lemma_player_update_obs(
    pre1: AnalyzerState,
    post1: AnalyzerState,
    pre2: AnalyzerState,
    post2: AnalyzerState,
    index: u8,
    conn_id: u32,
    info: Seq<u8>,
)
    requires
        crate::player::spec_player_update(pre1, post1, index, conn_id, info),
        crate::player::spec_player_update(pre2, post2, index, conn_id, info),
        spec_obs_eq(pre1, pre2),
    ensures
        post1.players@.len() == post2.players@.len(),
        forall|i: int|
            0 <= i < post1.players@.len() ==> spec_obs_player_eq(
                #[trigger] post1.players@[i],
                #[trigger] post2.players@[i],
            ),
{
    lemma_find_connected_obs(pre1.players@, pre2.players@, index, 0);
    let parts = crate::player::spec_split_fields(crate::player::spec_trim_info(info));
    if parts.len() / 2 == 0 || crate::player::spec_is_hltv(parts) {
        assert forall|i: int|
            0 <= i < post1.players@.len() implies spec_obs_player_eq(
            #[trigger] post1.players@[i],
            #[trigger] post2.players@[i],
        ) by {
            assert(spec_obs_player_eq(pre1.players@[i], pre2.players@[i]));
        }
    } else {
        let gid = crate::player::spec_global_id_bytes(parts, conn_id);
        lemma_find_by_id_obs(pre1.players@, pre2.players@, gid, 0);
        assert forall|i: int|
            0 <= i < post1.players@.len() implies spec_obs_player_eq(
            #[trigger] post1.players@[i],
            #[trigger] post2.players@[i],
        ) by {
            if i < pre1.players@.len() {
                assert(spec_obs_player_eq(pre1.players@[i], pre2.players@[i]));
            }
        }
    }
}

/// One driver step preserves observable equality: run the same event from
/// two observably equal states and the results are observably equal.
#[verifier::rlimit(100)]
proof fn lemma_apply_rel_obs(
    pre1: AnalyzerState,
    post1: AnalyzerState,
    pre2: AnalyzerState,
    post2: AnalyzerState,
    e: AnalyzerEvent,
    max: u64,
)
    requires
        spec_apply_rel(pre1, post1, e, max),
        spec_apply_rel(pre2, post2, e, max),
        spec_obs_eq(pre1, pre2),
    ensures
        spec_obs_eq(post1, post2),
{
    let m1a = choose|m: AnalyzerState|
        spec_timing_rel(pre1, m, e) && spec_apply_rel_tail1(m, post1, e, max);
    let m2a = choose|m: AnalyzerState|
        spec_player_rel(m1a, m, e) && spec_apply_rel_tail2(m, post1, e, max);
    let m3a = choose|m: AnalyzerState|
        spec_scoreboard_rel(m2a, m, e) && spec_apply_rel_tail3(m, post1, e, max);
    let m4a = choose|m: AnalyzerState|
        spec_kill_streak_rel(m3a, m, e) && spec_apply_rel_tail4(m, post1, e, max);
    let m5a = choose|m: AnalyzerState|
        spec_weapon_breakdown_rel(m4a, m, e) && spec_apply_rel_tail5(m, post1, e, max);
    let m6a = choose|m: AnalyzerState|
        spec_team_score_rel(m5a, m, e) && !spec_rounds_fatal(m, e) && spec_apply_rel_tail6(
            m,
            post1,
            e,
            max,
        );
    let m7a = choose|m: AnalyzerState| spec_rounds_rel(m6a, m, e) && spec_clan_rel(m, post1, e, max);
    let m1b = choose|m: AnalyzerState|
        spec_timing_rel(pre2, m, e) && spec_apply_rel_tail1(m, post2, e, max);
    let m2b = choose|m: AnalyzerState|
        spec_player_rel(m1b, m, e) && spec_apply_rel_tail2(m, post2, e, max);
    let m3b = choose|m: AnalyzerState|
        spec_scoreboard_rel(m2b, m, e) && spec_apply_rel_tail3(m, post2, e, max);
    let m4b = choose|m: AnalyzerState|
        spec_kill_streak_rel(m3b, m, e) && spec_apply_rel_tail4(m, post2, e, max);
    let m5b = choose|m: AnalyzerState|
        spec_weapon_breakdown_rel(m4b, m, e) && spec_apply_rel_tail5(m, post2, e, max);
    let m6b = choose|m: AnalyzerState|
        spec_team_score_rel(m5b, m, e) && !spec_rounds_fatal(m, e) && spec_apply_rel_tail6(
            m,
            post2,
            e,
            max,
        );
    let m7b = choose|m: AnalyzerState| spec_rounds_rel(m6b, m, e) && spec_clan_rel(m, post2, e, max);
    assert(spec_obs_eq(m1a, m1b));
    if let AnalyzerEvent::SvcUpdateUserInfo { index, id, user_info } = e {
        lemma_player_update_obs(m1a, m2a, m1b, m2b, index, id, user_info@);
    }
    assert(spec_obs_eq(m2a, m2b));
    lemma_scoreboard_obs(m2a, m3a, m2b, m3b, e);
    assert(spec_obs_eq(m3a, m3b));
    assert(spec_obs_eq(m4a, m4b)) by {
        assert forall|i: int|
            0 <= i < m4a.players@.len() implies spec_obs_player_eq(
            #[trigger] m4a.players@[i],
            #[trigger] m4b.players@[i],
        ) by {
            assert(spec_obs_player_eq(m3a.players@[i], m3b.players@[i]));
        }
    }
    assert(spec_obs_eq(m5a, m5b)) by {
        assert forall|i: int|
            0 <= i < m5a.players@.len() implies spec_obs_player_eq(
            #[trigger] m5a.players@[i],
            #[trigger] m5b.players@[i],
        ) by {
            assert(spec_obs_player_eq(m4a.players@[i], m4b.players@[i]));
        }
    }
    assert(spec_obs_eq(m6a, m6b));
    lemma_rounds_obs(m6a, m7a, m6b, m7b, e);
    assert(spec_obs_eq(m7a, m7b));
    lemma_clan_obs(m7a, post1, m7b, post2, e, max);
}

/// The residual chain of [spec_apply_rel] after the timing step; the helpers
/// below peel one step each so the chain's witnesses can be named.
pub open spec fn spec_apply_rel_tail1(m1: AnalyzerState, post: AnalyzerState, e: AnalyzerEvent, max: u64) -> bool {
    exists|m2: AnalyzerState| #[trigger] spec_player_rel(m1, m2, e) && spec_apply_rel_tail2(m2, post, e, max)
}

pub open spec fn spec_apply_rel_tail2(m2: AnalyzerState, post: AnalyzerState, e: AnalyzerEvent, max: u64) -> bool {
    exists|m3: AnalyzerState|
        #[trigger] spec_scoreboard_rel(m2, m3, e) && spec_apply_rel_tail3(m3, post, e, max)
}

pub open spec fn spec_apply_rel_tail3(m3: AnalyzerState, post: AnalyzerState, e: AnalyzerEvent, max: u64) -> bool {
    exists|m4: AnalyzerState|
        #[trigger] spec_kill_streak_rel(m3, m4, e) && spec_apply_rel_tail4(m4, post, e, max)
}

pub open spec fn spec_apply_rel_tail4(m4: AnalyzerState, post: AnalyzerState, e: AnalyzerEvent, max: u64) -> bool {
    exists|m5: AnalyzerState|
        #[trigger] spec_weapon_breakdown_rel(m4, m5, e) && spec_apply_rel_tail5(m5, post, e, max)
}

pub open spec fn spec_apply_rel_tail5(m5: AnalyzerState, post: AnalyzerState, e: AnalyzerEvent, max: u64) -> bool {
    exists|m6: AnalyzerState|
        #[trigger] spec_team_score_rel(m5, m6, e) && !spec_rounds_fatal(m6, e)
            && spec_apply_rel_tail6(m6, post, e, max)
}

pub open spec fn spec_apply_rel_tail6(m6: AnalyzerState, post: AnalyzerState, e: AnalyzerEvent, max: u64) -> bool {
    exists|m7: AnalyzerState| #[trigger] spec_rounds_rel(m6, m7, e) && spec_clan_rel(m7, post, e, max)
}

/// The scoreboard step's observable outcome is a function of the observable
/// pre-state and the message.
proof fn lemma_scoreboard_obs(
    pre1: AnalyzerState,
    post1: AnalyzerState,
    pre2: AnalyzerState,
    post2: AnalyzerState,
    e: AnalyzerEvent,
)
    requires
        spec_scoreboard_rel(pre1, post1, e),
        spec_scoreboard_rel(pre2, post2, e),
        spec_obs_eq(pre1, pre2),
    ensures
        spec_obs_eq(post1, post2),
{
    match e {
        AnalyzerEvent::UserMessage(UserMessage::PClass(m)) => {
            lemma_find_connected_obs(pre1.players@, pre2.players@, spec_sub1(m.client_index), 0);
        },
        AnalyzerEvent::UserMessage(UserMessage::PTeam(m)) => {
            lemma_find_connected_obs(pre1.players@, pre2.players@, spec_sub1(m.client_index), 0);
        },
        AnalyzerEvent::UserMessage(UserMessage::ScoreShort(m)) => {
            lemma_find_connected_obs(pre1.players@, pre2.players@, spec_sub1(m.client_index), 0);
        },
        AnalyzerEvent::UserMessage(UserMessage::ObjScore(m)) => {
            lemma_find_connected_obs(pre1.players@, pre2.players@, spec_sub1(m.client_index), 0);
        },
        AnalyzerEvent::UserMessage(UserMessage::Frags(m)) => {
            lemma_find_connected_obs(pre1.players@, pre2.players@, spec_sub1(m.client_index), 0);
        },
        _ => {},
    }
    assert forall|i: int|
        0 <= i < post1.players@.len() implies spec_obs_player_eq(
        #[trigger] post1.players@[i],
        #[trigger] post2.players@[i],
    ) by {
        assert(spec_obs_player_eq(pre1.players@[i], pre2.players@[i]));
    }
}

/// The rounds step's outcome is a function of the observable pre-state and
/// the message.
proof fn lemma_rounds_obs(
    pre1: AnalyzerState,
    post1: AnalyzerState,
    pre2: AnalyzerState,
    post2: AnalyzerState,
    e: AnalyzerEvent,
)
    requires
        spec_rounds_rel(pre1, post1, e),
        spec_rounds_rel(pre2, post2, e),
        spec_obs_eq(pre1, pre2),
    ensures
        spec_obs_eq(post1, post2),
{
    if let AnalyzerEvent::UserMessage(UserMessage::DeathMsg(dm)) = e {
        lemma_find_connected_obs(
            pre1.players@,
            pre2.players@,
            spec_sub1(dm.killer_client_index),
            0,
        );
        lemma_find_connected_obs(
            pre1.players@,
            pre2.players@,
            spec_sub1(dm.victim_client_index),
            0,
        );
        lemma_find_connected(pre1.players@, spec_sub1(dm.killer_client_index), 0);
        lemma_find_connected(pre1.players@, spec_sub1(dm.victim_client_index), 0);
        let ck = spec_find_connected(pre1.players@, spec_sub1(dm.killer_client_index));
        let cv = spec_find_connected(pre1.players@, spec_sub1(dm.victim_client_index));
        if ck is Some && cv is Some {
            assert(spec_obs_player_eq(pre1.players@[ck.unwrap()], pre2.players@[ck.unwrap()]));
            assert(spec_obs_player_eq(pre1.players@[cv.unwrap()], pre2.players@[cv.unwrap()]));
        }
    }
    assert forall|i: int|
        0 <= i < post1.players@.len() implies spec_obs_player_eq(
        #[trigger] post1.players@[i],
        #[trigger] post2.players@[i],
    ) by {
        assert(spec_obs_player_eq(pre1.players@[i], pre2.players@[i]));
    }
}

/// The clan-match step's observable outcome is a function of the observable
/// pre-state and the message.
proof fn lemma_clan_obs(
    pre1: AnalyzerState,
    post1: AnalyzerState,
    pre2: AnalyzerState,
    post2: AnalyzerState,
    e: AnalyzerEvent,
    max: u64,
)
    requires
        spec_clan_rel(pre1, post1, e, max),
        spec_clan_rel(pre2, post2, e, max),
        spec_obs_eq(pre1, pre2),
    ensures
        spec_obs_eq(post1, post2),
{
    assert(crate::clan_match::spec_scoreless(pre1) == crate::clan_match::spec_scoreless(pre2))
        by {
        if crate::clan_match::spec_scoreless(pre1) {
            assert forall|i: int|
                0 <= i < pre2.players@.len() implies #[trigger] pre2.players@[i].stats.0 == 0 by {
                assert(spec_obs_player_eq(pre1.players@[i], pre2.players@[i]));
                assert(pre1.players@[i].stats.0 == 0);
            }
        }
        if crate::clan_match::spec_scoreless(pre2) {
            assert forall|i: int|
                0 <= i < pre1.players@.len() implies #[trigger] pre1.players@[i].stats.0 == 0 by {
                assert(spec_obs_player_eq(pre1.players@[i], pre2.players@[i]));
                assert(pre2.players@[i].stats.0 == 0);
            }
        }
    }
    if crate::clan_match::spec_goes_live(pre1, e) {
        assert(post1.team_scores.timeline@ =~= post2.team_scores.timeline@);
    }
    assert forall|i: int|
        0 <= i < post1.players@.len() implies spec_obs_player_eq(
        #[trigger] post1.players@[i],
        #[trigger] post2.players@[i],
    ) by {
        assert(spec_obs_player_eq(pre1.players@[i], pre2.players@[i]));
    }
}

/// A driver step exists only when its event is not fatal in the pre-state:
/// the first six update functions leave the rounds untouched, so the fatal
/// check inside the chain reads the pre-state's rounds.
proof fn lemma_apply_rel_not_fatal(pre: AnalyzerState, post: AnalyzerState, e: AnalyzerEvent, max: u64)
    requires
        spec_apply_rel(pre, post, e, max),
    ensures
        !spec_rounds_fatal(pre, e),
{
    let m1 = choose|m: AnalyzerState|
        spec_timing_rel(pre, m, e) && spec_apply_rel_tail1(m, post, e, max);
    let m2 = choose|m: AnalyzerState|
        spec_player_rel(m1, m, e) && spec_apply_rel_tail2(m, post, e, max);
    let m3 = choose|m: AnalyzerState|
        spec_scoreboard_rel(m2, m, e) && spec_apply_rel_tail3(m, post, e, max);
    let m4 = choose|m: AnalyzerState|
        spec_kill_streak_rel(m3, m, e) && spec_apply_rel_tail4(m, post, e, max);
    let m5 = choose|m: AnalyzerState|
        spec_weapon_breakdown_rel(m4, m, e) && spec_apply_rel_tail5(m, post, e, max);
    let m6 = choose|m: AnalyzerState|
        spec_team_score_rel(m5, m, e) && !spec_rounds_fatal(m, e) && spec_apply_rel_tail6(
            m,
            post,
            e,
            max,
        );
    assert(m6.rounds@ == pre.rounds@);
}

/// Runs over the same events from the initial state stay observably equal,
/// step by step.
proof fn lemma_trace_obs_prefix(
    t1: Seq<AnalyzerState>,
    t2: Seq<AnalyzerState>,
    events: Seq<AnalyzerEvent>,
    max: u64,
    upto: int,
)
    requires
        0 <= upto <= events.len(),
        t1.len() >= upto + 2,
        t2.len() >= upto + 2,
        spec_initial_state(t1[0]),
        spec_initial_state(t2[0]),
        spec_apply_rel(t1[0], t1[1], AnalyzerEvent::Initialization, max),
        spec_apply_rel(t2[0], t2[1], AnalyzerEvent::Initialization, max),
        forall|i: int|
            0 <= i < upto ==> #[trigger] spec_apply_rel(t1[i + 1], t1[i + 2], events[i], max),
        forall|i: int|
            0 <= i < upto ==> #[trigger] spec_apply_rel(t2[i + 1], t2[i + 2], events[i], max),
    ensures
        spec_obs_eq(t1[upto + 1], t2[upto + 1]),
    decreases upto,
{
    if upto == 0 {
        assert(t1[0].rounds@ =~= t2[0].rounds@);
        assert(t1[0].team_scores.timeline@ =~= t2[0].team_scores.timeline@);
        assert(spec_obs_eq(t1[0], t2[0]));
        lemma_apply_rel_obs(t1[0], t1[1], t2[0], t2[1], AnalyzerEvent::Initialization, max);
    } else {
        lemma_trace_obs_prefix(t1, t2, events, max, upto - 1);
        assert(spec_apply_rel(t1[(upto - 1) + 1], t1[(upto - 1) + 2], events[upto - 1], max));
        assert(spec_apply_rel(t2[(upto - 1) + 1], t2[(upto - 1) + 2], events[upto - 1], max));
        lemma_apply_rel_obs(
            t1[upto],
            t1[upto + 1],
            t2[upto],
            t2[upto + 1],
            events[upto - 1],
            max,
        );
    }
}

/// An aborted run refutes every full run: a fatal event blocks the step that
/// a full run would have to take from the observably same state.
pub proof fn lemma_abort_excludes_success(
    aborted: Seq<AnalyzerState>,
    events: Seq<AnalyzerEvent>,
    max: u64,
)
    requires
        spec_aborting_trace(aborted, events, max),
    ensures
        forall|t: Seq<AnalyzerState>| !spec_valid_trace(t, events, max),
{
    assert forall|t: Seq<AnalyzerState>| !spec_valid_trace(t, events, max) by {
        if spec_valid_trace(t, events, max) {
            let k = aborted.len() - 2;
            lemma_trace_obs_prefix(t, aborted, events, max, k);
            assert(spec_apply_rel(t[k + 1], t[k + 2], events[k], max));
            lemma_apply_rel_not_fatal(t[k + 1], t[k + 2], events[k], max);
            assert(spec_rounds_fatal(aborted[k + 1], events[k]));
            assert(false);
        }
    }
}

/// The clock that a prefix of `n` events yields: each timing event clamps
/// its offset monotonically, and no other event touches the clock.
pub open spec fn spec_clock_fold(events: Seq<AnalyzerEvent>, n: int) -> GameTime
    decreases n when 0 <= n <= events.len()
{
    if n <= 0 {
        GameTime { real_nanos: 0, viewdemo_nanos: 0 }
    } else {
        let prev = spec_clock_fold(events, n - 1);
        match events[n - 1] {
            AnalyzerEvent::SvcTime { nanos } => GameTime {
                real_nanos: prev.real_nanos,
                viewdemo_nanos: crate::time::spec_clamped(prev.viewdemo_nanos, nanos),
            },
            AnalyzerEvent::RealTimeChange { nanos } => GameTime {
                real_nanos: crate::time::spec_clamped(prev.real_nanos, nanos),
                viewdemo_nanos: prev.viewdemo_nanos,
            },
            _ => prev,
        }
    }
}

/// Folds a whole event stream: one Initialization sentinel, the demo's
/// events in wire order, one Finalization sentinel. A failed analysis
/// returns no partial state.
///
/// Every outcome carries its certificate: a success is the last state of a
/// full run of driver steps, and the only failure is the fatal round
/// desynchronization, witnessed by a run that reaches it.
pub fn analyze(events: &Vec<AnalyzerEvent>, max_normal_duration: u64) -> (r: Result<
    AnalyzerState,
    AnalysisError,
>)
    requires
        events@.len() + 2 < u32::MAX,
    ensures
        r matches Ok(s) ==> s.wf() && s.current_time == spec_clock_fold(
            events@,
            events@.len() as int,
        ) && (exists|trace: Seq<AnalyzerState>|
            #[trigger] spec_valid_trace(trace, events@, max_normal_duration) && s == trace.last()),
        r is Ok <==> exists|trace: Seq<AnalyzerState>|
            #[trigger] spec_valid_trace(trace, events@, max_normal_duration),
        r is Err ==> r == Err::<AnalyzerState, AnalysisError>(
            AnalysisError::RoundEndWithoutActiveRound,
        ),
        r is Err ==> exists|trace: Seq<AnalyzerState>|
            #[trigger] spec_aborting_trace(trace, events@, max_normal_duration),
{
    let mut state = AnalyzerState::new();
    let ghost mut trace: Seq<AnalyzerState> = seq![state];
    proof {
        assert(spec_counters_bounded(state, 0));
        lemma_counters_mono(state, 0, u32::MAX - 1);
    }
    match apply_event(&mut state, &AnalyzerEvent::Initialization, max_normal_duration) {
        Err(e) => {
            // a sentinel is not a round-ending win, so this step cannot fail
            proof {
                assert(false);
            }
            return Err(e);
        },
        Ok(()) => {},
    }
    proof {
        trace = trace.push(state);
    }
    let mut i: usize = 0;
    while i < events.len()
        invariant
            state.wf(),
            events@.len() + 2 < u32::MAX,
            i <= events@.len(),
            spec_counters_bounded(state, i + 1),
            state.current_time == spec_clock_fold(events@, i as int),
            trace.len() == i + 2,
            trace[i as int + 1] == state,
            spec_initial_state(trace[0]),
            spec_apply_rel(trace[0], trace[1], AnalyzerEvent::Initialization, max_normal_duration),
            forall|j: int|
                0 <= j < i ==> #[trigger] spec_apply_rel(
                    trace[j + 1],
                    trace[j + 2],
                    events@[j],
                    max_normal_duration,
                ),
        decreases events@.len() - i,
    {
        proof {
            lemma_counters_mono(state, i + 1, u32::MAX - 1);
        }
        match apply_event(&mut state, &events[i], max_normal_duration) {
            Err(e) => {
                proof {
                    assert(spec_rounds_fatal(trace.last(), events@[i as int]));
                    assert(spec_aborting_trace(trace, events@, max_normal_duration));
                    lemma_abort_excludes_success(trace, events@, max_normal_duration);
                }
                return Err(e);
            },
            Ok(()) => {},
        }
        proof {
            trace = trace.push(state);
        }
        i = i + 1;
    }
    proof {
        lemma_counters_mono(state, i + 1, u32::MAX - 1);
    }
    match apply_event(&mut state, &AnalyzerEvent::Finalization, max_normal_duration) {
        Err(e) => {
            // a sentinel is not a round-ending win, so this step cannot fail
            proof {
                assert(false);
            }
            return Err(e);
        },
        Ok(()) => {},
    }
    proof {
        trace = trace.push(state);
        assert(spec_valid_trace(trace, events@, max_normal_duration));
    }
    Ok(state)
}

// ---------------------------------------------------------------------------
// Laws
// ---------------------------------------------------------------------------

/// Identity stability: in a well-formed state at most one player exists per
/// global id, however much slot churn the identity update has folded in.
/// Every update function preserves well-formedness, so this holds after any
/// event.
pub proof fn lemma_identity_stability(s: AnalyzerState)
    requires
        s.wf(),
    ensures
        forall|i: int, j: int|
            0 <= i < j < s.players@.len() ==> (#[trigger] s.players@[i]).id.0@ != (
            #[trigger] s.players@[j]).id.0@,
{
}

/// Slot uniqueness: in a well-formed state at most one player reports being
/// connected to any client slot. Every update function preserves
/// well-formedness, so this holds after any event.
pub proof fn lemma_slot_uniqueness(s: AnalyzerState)
    requires
        s.wf(),
    ensures
        forall|i: int, j: int|
            0 <= i < j < s.players@.len() && spec_client_of(#[trigger] s.players@[i]) is Some
                ==> spec_client_of(s.players@[i]) != spec_client_of(#[trigger] s.players@[j]),
{
}

/// Kill-streak boundaries: in a well-formed state no streak contains a kill
/// whose time precedes an earlier kill in that streak. Every update function
/// preserves well-formedness, so this holds after any event.
pub proof fn lemma_kill_streak_boundaries(s: AnalyzerState)
    requires
        s.wf(),
    ensures
        forall|i: int, k: int, a: int, b: int|
            0 <= i < s.players@.len() && 0 <= k < s.players@[i].kill_streaks@.len() && 0 <= a <= b
                < s.players@[i].kill_streaks@[k].kills@.len() ==> (
            #[trigger] s.players@[i].kill_streaks@[k].kills@[a]).0.viewdemo_nanos <= (
            #[trigger] s.players@[i].kill_streaks@[k].kills@[b]).0.viewdemo_nanos,
{
    assert forall|i: int, k: int, a: int, b: int|
        0 <= i < s.players@.len() && 0 <= k < s.players@[i].kill_streaks@.len() && 0 <= a <= b
            < s.players@[i].kill_streaks@[k].kills@.len() implies (
    #[trigger] s.players@[i].kill_streaks@[k].kills@[a]).0.viewdemo_nanos <= (
    #[trigger] s.players@[i].kill_streaks@[k].kills@[b]).0.viewdemo_nanos by {
        assert(spec_player_wf(s.players@[i], s.current_time));
        assert(spec_streak_wf(s.players@[i].kill_streaks@[k], s.current_time));
    }
}

/// Header facts of the demo container, passed through untouched.
pub struct DemoInfo {
    /// Version of the demo protocol used to encode the demo.
    pub demo_protocol: i32,

    /// Name of the map the demo was recorded on.
    pub map_name: Vec<u8>,

    /// Version of the network protocol used during the game.
    pub network_protocol: i32,
}

/// A finished analysis: the demo's header facts and the final state.
pub struct Analysis {
    pub demo_info: DemoInfo,
    pub state: AnalyzerState,
}

impl Analysis {
    pub fn new(demo_info: DemoInfo, state: AnalyzerState) -> (r: Analysis)
        ensures
            r.demo_info == demo_info,
            r.state == state,
    {
        Analysis { demo_info, state }
    }
}

} // verus!
