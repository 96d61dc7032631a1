//! Kill streaks and per-weapon kill counts.

use vstd::prelude::*;
use crate::{AnalyzerEvent, AnalyzerState};
use crate::dod::{DeathMsg, RoundState, UserMessage, Weapon};
use crate::player::Player;
use crate::time::GameTime;

verus! {

/// An uninterrupted run of kills by one player: `(time, weapon)` entries in
/// non-decreasing time order. An empty streak separates two finished streaks.
pub struct KillStreak {
    pub kills: Vec<(GameTime, Weapon)>,
}

impl KillStreak {
    pub fn new() -> (r: KillStreak)
        ensures
            r.kills@.len() == 0,
    {
        KillStreak { kills: Vec::new() }
    }
}

impl Default for KillStreak {
    fn default() -> (r: KillStreak)
        ensures
            r.kills@.len() == 0,
    {
        KillStreak { kills: Vec::new() }
    }
}

/// One weapon's kill counts for one player: cross-team kills and teamkills.
#[derive(Clone, Copy, Debug, PartialEq, Eq, Structural)]
pub struct WeaponStat {
    pub weapon: Weapon,
    pub kills: u32,
    pub teamkills: u32,
}

/// A death is a teamkill when both players are found and share the same
/// known team.
pub open spec fn spec_is_teamkill(
    players: Seq<Player>,
    killer: Option<int>,
    victim: Option<int>,
) -> bool {
    &&& killer matches Some(k) && 0 <= k < players.len() && players[k].team is Some
    &&& victim matches Some(v) && 0 <= v < players.len() && players[killer.unwrap()].team
        == players[v].team
}

/// `q` is `p` with everything but its kill streaks unchanged.
pub open spec fn spec_same_but_streaks(p: Player, q: Player) -> bool {
    &&& q.id == p.id
    &&& q.connection_status == p.connection_status
    &&& q.name == p.name
    &&& q.team == p.team
    &&& q.class == p.class
    &&& q.stats == p.stats
    &&& q.weapon_breakdown == p.weapon_breakdown
    &&& q.mortality == p.mortality
}

/// `q` is `p` with one empty streak appended, ending the active streak.
pub open spec fn spec_streak_terminated(p: Player, q: Player) -> bool {
    &&& spec_same_but_streaks(p, q)
    &&& q.kill_streaks@.len() == p.kill_streaks@.len() + 1
    &&& forall|s: int|
        0 <= s < p.kill_streaks@.len() ==> q.kill_streaks@[s] == p.kill_streaks@[s]
    &&& q.kill_streaks@[p.kill_streaks@.len() as int].kills@.len() == 0
}

/// `q` is `p` with `(t, w)` appended to its active streak, an empty streak
/// having been created first when `p` had none.
pub open spec fn spec_kill_appended(p: Player, q: Player, t: GameTime, w: Weapon) -> bool {
    &&& spec_same_but_streaks(p, q)
    &&& if p.kill_streaks@.len() == 0 {
        &&& q.kill_streaks@.len() == 1
        &&& q.kill_streaks@[0].kills@ == seq![(t, w)]
    } else {
        &&& q.kill_streaks@.len() == p.kill_streaks@.len()
        &&& forall|s: int|
            0 <= s < p.kill_streaks@.len() - 1 ==> q.kill_streaks@[s] == p.kill_streaks@[s]
        &&& q.kill_streaks@.last().kills@ == p.kill_streaks@.last().kills@.push((t, w))
    }
}

/// `q` is `p` with its active streak ended and `(t, w)` starting a fresh one:
/// the shape a death message leaves when killer and victim share one slot.
pub open spec fn spec_terminated_then_appended(p: Player, q: Player, t: GameTime, w: Weapon) -> bool {
    &&& spec_same_but_streaks(p, q)
    &&& q.kill_streaks@.len() == p.kill_streaks@.len() + 1
    &&& forall|s: int|
        0 <= s < p.kill_streaks@.len() ==> q.kill_streaks@[s] == p.kill_streaks@[s]
    &&& q.kill_streaks@[p.kill_streaks@.len() as int].kills@ == seq![(t, w)]
}

/// What a death message does to the players' kill streaks: the victim's
/// active streak is ended; on a teamkill the killer's streak is not extended,
/// otherwise the kill is appended to the killer's active streak.
pub open spec fn spec_kill_streak_death(pre: AnalyzerState, post: AnalyzerState, dm: DeathMsg) -> bool {
    let players = pre.players@;
    let t = pre.current_time;
    let w = dm.weapon;
    let ck = crate::spec_find_connected(players, crate::spec_sub1(dm.killer_client_index));
    let cv = crate::spec_find_connected(players, crate::spec_sub1(dm.victim_client_index));
    let tk = spec_is_teamkill(players, ck, cv);
    &&& post.players@.len() == players.len()
    &&& forall|i: int|
        0 <= i < players.len() && cv != Some(i) && (tk || ck != Some(i))
            ==> post.players@[i] == players[i]
    &&& (match cv {
        Some(v) => {
            if !tk && ck == Some(v) {
                spec_terminated_then_appended(players[v], post.players@[v], t, w)
            } else {
                spec_streak_terminated(players[v], post.players@[v])
            }
        },
        None => true,
    })
    &&& (if !tk {
        match ck {
            Some(k) => cv == Some(k) || spec_kill_appended(players[k], post.players@[k], t, w),
            None => true,
        }
    } else {
        true
    })
}

/// Ends the player's active streak by appending an empty one.
fn terminate_streak(p: &mut Player)
    ensures
        spec_streak_terminated(*old(p), *final(p)),
{
    p.kill_streaks.push(KillStreak::new());
}

/// Records a kill on the player's active streak, creating one when none is
/// open.
fn append_kill(p: &mut Player, t: GameTime, w: Weapon)
    ensures
        spec_kill_appended(*old(p), *final(p), t, w),
{
    if p.kill_streaks.len() == 0 {
        p.kill_streaks.push(KillStreak::new());
    }
    let n = p.kill_streaks.len();
    let streak = &mut p.kill_streaks[n - 1];
    streak.kills.push((t, w));
    proof {
        if old(p).kill_streaks@.len() == 0 {
            assert(p.kill_streaks@[0].kills@ =~= seq![(t, w)]);
        }
    }
}

/// Reacts to death messages and round resets.
///
/// On a death the victim's active streak ends; unless the death was a
/// teamkill, the kill is recorded at the current time on the killer's active
/// streak. On a round reset every player's active streak ends: streaks do not
/// carry across rounds.
#[verifier::rlimit(100)]
pub fn use_kill_streak_updates(state: &mut AnalyzerState, event: &AnalyzerEvent)
    requires
        old(state).wf(),
    ensures
        final(state).wf(),
        final(state).current_time == old(state).current_time,
        final(state).rounds == old(state).rounds,
        final(state).team_scores == old(state).team_scores,
        final(state).clan_match_detection == old(state).clan_match_detection,
        forall|n: int|
            #[trigger] crate::spec_breakdown_counters_bounded(*old(state), n)
                ==> crate::spec_breakdown_counters_bounded(*final(state), n),
        (match event {
            AnalyzerEvent::UserMessage(UserMessage::DeathMsg(dm)) => spec_kill_streak_death(
                *old(state),
                *final(state),
                *dm,
            ),
            AnalyzerEvent::UserMessage(UserMessage::RoundState(RoundState::Reset)) => {
                &&& final(state).players@.len() == old(state).players@.len()
                &&& forall|i: int|
                    0 <= i < old(state).players@.len() ==> spec_streak_terminated(
                        old(state).players@[i],
                        final(state).players@[i],
                    )
            },
            _ => final(state).players == old(state).players,
        }),
{
    match event {
        AnalyzerEvent::UserMessage(UserMessage::DeathMsg(dm)) => {
            kill_streak_death(state, dm);
        },
        AnalyzerEvent::UserMessage(UserMessage::RoundState(RoundState::Reset)) => {
            kill_streak_reset(state);
        },
        _ => {},
    }
}

/// A death message leaves every player's histories well-formed: the only new
/// kill carries the current time, which no existing entry exceeds.
#[verifier::rlimit(100)]
proof fn lemma_death_preserves_player_wf(pre: AnalyzerState, post: AnalyzerState, dm: DeathMsg)
    requires
        pre.wf(),
        post.current_time == pre.current_time,
        spec_kill_streak_death(pre, post, dm),
    ensures
        forall|i: int|
            0 <= i < post.players@.len() ==> crate::spec_player_wf(
                #[trigger] post.players@[i],
                post.current_time,
            ),
        forall|i: int|
            0 <= i < post.players@.len() ==> (#[trigger] post.players@[i]).id
                == pre.players@[i].id && post.players@[i].connection_status
                == pre.players@[i].connection_status,
{
    let players = pre.players@;
    let t = pre.current_time;
    let ck = crate::spec_find_connected(players, crate::spec_sub1(dm.killer_client_index));
    let cv = crate::spec_find_connected(players, crate::spec_sub1(dm.victim_client_index));
    let tk = spec_is_teamkill(players, ck, cv);
    assert forall|i: int|
        0 <= i < post.players@.len() implies crate::spec_player_wf(
        #[trigger] post.players@[i],
        post.current_time,
    ) by {
        assert(crate::spec_player_wf(players[i], t));
        if cv == Some(i) || (!tk && ck == Some(i)) {
            let p = players[i];
            let q = post.players@[i];
            assert forall|s: int|
                0 <= s < q.kill_streaks@.len() implies crate::spec_streak_wf(
                #[trigger] q.kill_streaks@[s],
                t,
            ) by {
                if s < p.kill_streaks@.len() - 1 {
                    assert(q.kill_streaks@[s] == p.kill_streaks@[s]);
                    assert(crate::spec_streak_wf(p.kill_streaks@[s], t));
                } else if s < p.kill_streaks@.len() {
                    assert(crate::spec_streak_wf(p.kill_streaks@[s], t));
                }
            }
        }
    }
    assert forall|i: int|
        0 <= i < post.players@.len() implies (#[trigger] post.players@[i]).id == players[i].id
        && post.players@[i].connection_status == players[i].connection_status by {}
}

/// The death-message half of the kill-streak update.
#[verifier::spinoff_prover]
#[verifier::rlimit(100)]
fn kill_streak_death(state: &mut AnalyzerState, dm: &DeathMsg)
    requires
        old(state).wf(),
    ensures
        final(state).wf(),
        final(state).current_time == old(state).current_time,
        final(state).rounds == old(state).rounds,
        final(state).team_scores == old(state).team_scores,
        final(state).clan_match_detection == old(state).clan_match_detection,
        forall|n: int|
            #[trigger] crate::spec_breakdown_counters_bounded(*old(state), n)
                ==> crate::spec_breakdown_counters_bounded(*final(state), n),
        spec_kill_streak_death(*old(state), *final(state), *dm),
{
    let t = state.current_time;
    let ck = state.find_player_index_by_client(crate::sub1(dm.killer_client_index));
    let cv = state.find_player_index_by_client(crate::sub1(dm.victim_client_index));
    let is_teamkill = match (ck, cv) {
        (Some(k), Some(v)) => {
            let kt = state.players[k].team;
            let vt = state.players[v].team;
            match (kt, vt) {
                (Some(a), Some(b)) => a == b,
                _ => false,
            }
        },
        _ => false,
    };
    if let Some(v) = cv {
        let victim = &mut state.players[v];
        terminate_streak(victim);
    }
    if !is_teamkill {
        if let Some(k) = ck {
            let killer = &mut state.players[k];
            append_kill(killer, t, dm.weapon);
        }
    }
    proof {
        let p0 = old(state).players@;
        let pf = state.players@;
        let t0 = old(state).current_time;
        if !is_teamkill && cv is Some && ck == cv {
            let vi = cv.unwrap() as int;
            assert(pf[vi].kill_streaks@[p0[vi].kill_streaks@.len() as int].kills@ =~= seq![
                (t0, dm.weapon),
            ]);
            assert(spec_terminated_then_appended(p0[vi], pf[vi], t0, dm.weapon));
        }
        assert(spec_kill_streak_death(*old(state), *state, *dm));
        lemma_death_preserves_player_wf(*old(state), *state, *dm);
    }
}

/// The round-reset half of the kill-streak update.
#[verifier::rlimit(100)]
fn kill_streak_reset(state: &mut AnalyzerState)
    requires
        old(state).wf(),
    ensures
        final(state).wf(),
        final(state).current_time == old(state).current_time,
        final(state).rounds == old(state).rounds,
        final(state).team_scores == old(state).team_scores,
        final(state).clan_match_detection == old(state).clan_match_detection,
        forall|n: int|
            #[trigger] crate::spec_breakdown_counters_bounded(*old(state), n)
                ==> crate::spec_breakdown_counters_bounded(*final(state), n),
        final(state).players@.len() == old(state).players@.len(),
        forall|i: int|
            0 <= i < old(state).players@.len() ==> spec_streak_terminated(
                old(state).players@[i],
                final(state).players@[i],
            ),
{
    let mut i: usize = 0;
    let n = state.players.len();
    while i < n
        invariant
            0 <= i <= n,
            n == state.players@.len(),
            old(state).wf(),
            state.players@.len() == old(state).players@.len(),
            state.current_time == old(state).current_time,
            state.rounds == old(state).rounds,
            state.team_scores == old(state).team_scores,
            state.clan_match_detection == old(state).clan_match_detection,
            forall|j: int|
                0 <= j < i ==> spec_streak_terminated(old(state).players@[j], state.players@[j]),
            forall|j: int| i <= j < n ==> state.players@[j] == old(state).players@[j],
        decreases n - i,
    {
        let player = &mut state.players[i];
        terminate_streak(player);
        i = i + 1;
    }
    proof {
        assert forall|i: int|
            0 <= i < state.players@.len() implies crate::spec_player_wf(
            state.players@[i],
            state.current_time,
        ) by {
            assert(crate::spec_player_wf(old(state).players@[i], old(state).current_time));
            assert(spec_streak_terminated(old(state).players@[i], state.players@[i]));
        }
    }
}

/// The sum of all kill and teamkill counts across a breakdown.
pub open spec fn spec_breakdown_total(b: Seq<WeaponStat>) -> int
    decreases b.len(),
{
    if b.len() == 0 {
        0
    } else {
        spec_breakdown_total(b.drop_last()) + b.last().kills + b.last().teamkills
    }
}

/// The position of a weapon's entry in a breakdown, if any.
pub open spec fn spec_find_weapon_from(b: Seq<WeaponStat>, w: Weapon, i: int) -> Option<int>
    decreases b.len() - i when 0 <= i <= b.len()
{
    if i >= b.len() {
        None
    } else if b[i].weapon == w {
        Some(i)
    } else {
        spec_find_weapon_from(b, w, i + 1)
    }
}

pub open spec fn spec_find_weapon(b: Seq<WeaponStat>, w: Weapon) -> Option<int> {
    spec_find_weapon_from(b, w, 0)
}

pub proof fn lemma_find_weapon(b: Seq<WeaponStat>, w: Weapon, i: int)
    requires
        0 <= i <= b.len(),
    ensures
        match spec_find_weapon_from(b, w, i) {
            Some(k) => i <= k < b.len() && b[k].weapon == w && (forall|j: int|
                i <= j < k ==> b[j].weapon != w),
            None => forall|j: int| i <= j < b.len() ==> b[j].weapon != w,
        },
    decreases b.len() - i,
{
    if i < b.len() && b[i].weapon != w {
        lemma_find_weapon(b, w, i + 1);
    }
}

fn find_weapon(b: &Vec<WeaponStat>, w: Weapon) -> (r: Option<usize>)
    ensures
        match r {
            Some(k) => spec_find_weapon(b@, w) == Some(k as int) && k < b@.len(),
            None => spec_find_weapon(b@, w) is None,
        },
{
    let mut i: usize = 0;
    while i < b.len()
        invariant
            0 <= i <= b@.len(),
            spec_find_weapon(b@, w) == spec_find_weapon_from(b@, w, i as int),
        decreases b@.len() - i,
    {
        if b[i].weapon == w {
            return Some(i);
        }
        i = i + 1;
    }
    None
}

/// Replacing one entry changes the total by the entry's own change.
proof fn lemma_breakdown_total_update(b: Seq<WeaponStat>, i: int, st: WeaponStat)
    requires
        0 <= i < b.len(),
    ensures
        spec_breakdown_total(b.update(i, st)) == spec_breakdown_total(b) - b[i].kills
            - b[i].teamkills + st.kills + st.teamkills,
    decreases b.len(),
{
    if i == b.len() - 1 {
        assert(b.update(i, st).drop_last() =~= b.drop_last());
    } else {
        assert(b.update(i, st).drop_last() =~= b.drop_last().update(i, st));
        lemma_breakdown_total_update(b.drop_last(), i, st);
    }
}

/// Kill-streak accounting: one death bumps the killer's weapon breakdown by
/// exactly one — a kill or a teamkill — so the per-player sum of kills and
/// teamkills equals the number of deaths counted against that player since
/// the breakdown was last cleared.
pub proof fn lemma_weapon_breakdown_accounting(
    b: Seq<WeaponStat>,
    nb: Seq<WeaponStat>,
    w: Weapon,
    tk: bool,
)
    requires
        spec_breakdown_bumped(b, nb, w, tk),
        spec_find_weapon(b, w) matches Some(i) ==> b[i].kills < u32::MAX && b[i].teamkills
            < u32::MAX,
    ensures
        spec_breakdown_total(nb) == spec_breakdown_total(b) + 1,
{
    match spec_find_weapon(b, w) {
        Some(i) => {
            lemma_find_weapon(b, w, 0);
            if tk {
                lemma_breakdown_total_update(
                    b,
                    i,
                    WeaponStat { weapon: w, kills: b[i].kills, teamkills: (b[i].teamkills + 1) as u32 },
                );
            } else {
                lemma_breakdown_total_update(
                    b,
                    i,
                    WeaponStat { weapon: w, kills: (b[i].kills + 1) as u32, teamkills: b[i].teamkills },
                );
            }
        },
        None => {
            assert(nb.drop_last() =~= b);
        },
    }
}

/// `nb` is `b` with the count for `w` bumped by one: the teamkill count on a
/// teamkill, the kill count otherwise, a fresh entry created when absent.
pub open spec fn spec_breakdown_bumped(
    b: Seq<WeaponStat>,
    nb: Seq<WeaponStat>,
    w: Weapon,
    tk: bool,
) -> bool {
    match spec_find_weapon(b, w) {
        Some(i) => nb == b.update(
            i,
            WeaponStat {
                weapon: w,
                kills: if tk {
                    b[i].kills
                } else {
                    (b[i].kills + 1) as u32
                },
                teamkills: if tk {
                    (b[i].teamkills + 1) as u32
                } else {
                    b[i].teamkills
                },
            },
        ),
        None => nb == b.push(
            WeaponStat {
                weapon: w,
                kills: if tk {
                    0
                } else {
                    1
                },
                teamkills: if tk {
                    1
                } else {
                    0
                },
            },
        ),
    }
}

/// `q` is `p` with its weapon breakdown bumped for `w`.
pub open spec fn spec_breakdown_updated(p: Player, q: Player, w: Weapon, tk: bool) -> bool {
    &&& q.id == p.id
    &&& q.connection_status == p.connection_status
    &&& q.name == p.name
    &&& q.team == p.team
    &&& q.class == p.class
    &&& q.stats == p.stats
    &&& q.kill_streaks == p.kill_streaks
    &&& q.mortality == p.mortality
    &&& spec_breakdown_bumped(p.weapon_breakdown@, q.weapon_breakdown@, w, tk)
}

/// Counts one death against the killer's weapon: the kill count on a
/// cross-team kill, the teamkill count on a teamkill.
#[verifier::rlimit(100)]
pub fn use_weapon_breakdown_updates(state: &mut AnalyzerState, event: &AnalyzerEvent)
    requires
        old(state).wf(),
        crate::spec_breakdown_counters_bounded(*old(state), u32::MAX - 1),
    ensures
        final(state).wf(),
        final(state).current_time == old(state).current_time,
        final(state).rounds == old(state).rounds,
        final(state).team_scores == old(state).team_scores,
        final(state).clan_match_detection == old(state).clan_match_detection,
        forall|n: int|
            0 <= n < u32::MAX && #[trigger] crate::spec_breakdown_counters_bounded(
                *old(state),
                n,
            ) ==> crate::spec_breakdown_counters_bounded(*final(state), n + 1),
        (match event {
            AnalyzerEvent::UserMessage(UserMessage::DeathMsg(dm)) => {
                let players = old(state).players@;
                let ck = crate::spec_find_connected(players, crate::spec_sub1(dm.killer_client_index));
                let cv = crate::spec_find_connected(players, crate::spec_sub1(dm.victim_client_index));
                let tk = spec_is_teamkill(players, ck, cv);
                match ck {
                    Some(k) => {
                        &&& final(state).players@.len() == players.len()
                        &&& forall|i: int|
                            0 <= i < players.len() && i != k ==> final(state).players@[i]
                                == players[i]
                        &&& spec_breakdown_updated(players[k], final(state).players@[k], dm.weapon, tk)
                    },
                    None => final(state).players == old(state).players,
                }
            },
            _ => final(state).players == old(state).players,
        }),
{
    if let AnalyzerEvent::UserMessage(UserMessage::DeathMsg(dm)) = event {
        weapon_breakdown_death(state, dm);
    }
}

/// The death-message body of the weapon-breakdown update.
#[verifier::rlimit(100)]
fn weapon_breakdown_death(state: &mut AnalyzerState, dm: &DeathMsg)
    requires
        old(state).wf(),
        crate::spec_breakdown_counters_bounded(*old(state), u32::MAX - 1),
    ensures
        final(state).wf(),
        final(state).current_time == old(state).current_time,
        final(state).rounds == old(state).rounds,
        final(state).team_scores == old(state).team_scores,
        final(state).clan_match_detection == old(state).clan_match_detection,
        forall|n: int|
            0 <= n < u32::MAX && #[trigger] crate::spec_breakdown_counters_bounded(
                *old(state),
                n,
            ) ==> crate::spec_breakdown_counters_bounded(*final(state), n + 1),
        ({
            let players = old(state).players@;
            let ck = crate::spec_find_connected(players, crate::spec_sub1(dm.killer_client_index));
            let cv = crate::spec_find_connected(players, crate::spec_sub1(dm.victim_client_index));
            let tk = spec_is_teamkill(players, ck, cv);
            match ck {
                Some(k) => {
                    &&& final(state).players@.len() == players.len()
                    &&& forall|i: int|
                        0 <= i < players.len() && i != k ==> final(state).players@[i] == players[i]
                    &&& spec_breakdown_updated(players[k], final(state).players@[k], dm.weapon, tk)
                },
                None => final(state).players == old(state).players,
            }
        }),
{
    {
        let ck = state.find_player_index_by_client(crate::sub1(dm.killer_client_index));
        let cv = state.find_player_index_by_client(crate::sub1(dm.victim_client_index));
        let is_teamkill = match (ck, cv) {
            (Some(k), Some(v)) => {
                let kt = state.players[k].team;
                let vt = state.players[v].team;
                match (kt, vt) {
                    (Some(a), Some(b)) => a == b,
                    _ => false,
                }
            },
            _ => false,
        };
        if let Some(k) = ck {
            let killer = &mut state.players[k];
            let ghost old_b = killer.weapon_breakdown@;
            match find_weapon(&killer.weapon_breakdown, dm.weapon) {
                Some(e) => {
                    proof {
                        lemma_find_weapon(old_b, dm.weapon, 0);
                        assert(old(state).players@[k as int].weapon_breakdown@[e as int].kills
                            <= u32::MAX - 1);
                        assert(old(state).players@[k as int].weapon_breakdown@[e as int].teamkills
                            <= u32::MAX - 1);
                    }
                    let entry = &mut killer.weapon_breakdown[e];
                    if is_teamkill {
                        entry.teamkills = entry.teamkills + 1;
                    } else {
                        entry.kills = entry.kills + 1;
                    }
                },
                None => {
                    proof {
                        lemma_find_weapon(old_b, dm.weapon, 0);
                    }
                    killer.weapon_breakdown.push(
                        WeaponStat {
                            weapon: dm.weapon,
                            kills: if is_teamkill {
                                0
                            } else {
                                1
                            },
                            teamkills: if is_teamkill {
                                1
                            } else {
                                0
                            },
                        },
                    );
                },
            }
        }
    }
}

} // verus!
