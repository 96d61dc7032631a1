//! Mortality: when players spawned and died, and the lifespans in between.

use vstd::prelude::*;
use crate::{AnalyzerEvent, AnalyzerState};
use crate::dod::UserMessage;
use crate::player::Player;
use crate::time::GameTime;

verus! {

/// Represents whether something is alive.
#[derive(Clone, Copy, Debug, PartialEq, Eq, Structural)]
pub enum Mortality {
    Alive,
    Dead,
}

/// Timed event when an object's [Mortality] has changed.
#[derive(Clone, Copy, Debug, PartialEq, Eq, Structural)]
pub struct MortalityChange(pub GameTime, pub Mortality);

impl MortalityChange {
    pub fn new(time: GameTime, mortality: Mortality) -> (r: MortalityChange)
        ensures
            r == MortalityChange(time, mortality),
    {
        MortalityChange(time, mortality)
    }

    pub fn time(&self) -> (r: &GameTime)
        ensures
            r == self.0,
    {
        &self.0
    }

    pub fn mortality(&self) -> (r: &Mortality)
        ensures
            r == self.1,
    {
        &self.1
    }
}

/// The state a history of changes ends in, if any.
pub open spec fn spec_mortality_of(ch: Seq<MortalityChange>) -> Option<Mortality> {
    if ch.len() == 0 {
        None
    } else {
        Some(ch.last().1)
    }
}

/// The history's change times never decrease.
pub open spec fn spec_changes_sorted(ch: Seq<MortalityChange>) -> bool {
    forall|a: int, b: int|
        0 <= a <= b < ch.len() ==> (#[trigger] ch[a]).0.viewdemo_nanos <= (
        #[trigger] ch[b]).0.viewdemo_nanos
}

/// The lifespans that the changes from `i` on yield, given the pending spawn
/// time: each Dead after a spawn closes one lifespan; repeated Alive entries
/// keep the first spawn time.
pub open spec fn spec_lifespans_from(
    ch: Seq<MortalityChange>,
    i: int,
    spawn: Option<GameTime>,
) -> Seq<u64>
    decreases ch.len() - i when 0 <= i <= ch.len()
{
    if i >= ch.len() {
        Seq::empty()
    } else {
        match ch[i].1 {
            Mortality::Alive => spec_lifespans_from(
                ch,
                i + 1,
                if spawn is None {
                    Some(ch[i].0)
                } else {
                    spawn
                },
            ),
            Mortality::Dead => match spawn {
                Some(st) => seq![(ch[i].0.viewdemo_nanos - st.viewdemo_nanos) as u64]
                    + spec_lifespans_from(ch, i + 1, None),
                None => spec_lifespans_from(ch, i + 1, None),
            },
        }
    }
}

/// The lifespans a history of changes yields, in order, in nanoseconds.
pub open spec fn spec_lifespans(ch: Seq<MortalityChange>) -> Seq<u64> {
    spec_lifespans_from(ch, 0, None)
}

/// The smallest element, or zero for an empty sequence.
pub open spec fn spec_seq_min(s: Seq<u64>) -> u64
    decreases s.len(),
{
    if s.len() == 0 {
        0
    } else if s.len() == 1 {
        s[0]
    } else if s.last() < spec_seq_min(s.drop_last()) {
        s.last()
    } else {
        spec_seq_min(s.drop_last())
    }
}

/// The largest element, or zero for an empty sequence.
pub open spec fn spec_seq_max(s: Seq<u64>) -> u64
    decreases s.len(),
{
    if s.len() == 0 {
        0
    } else if s.len() == 1 {
        s[0]
    } else if s.last() > spec_seq_max(s.drop_last()) {
        s.last()
    } else {
        spec_seq_max(s.drop_last())
    }
}

/// The sum of the elements.
pub open spec fn spec_seq_sum(s: Seq<u64>) -> int
    decreases s.len(),
{
    if s.len() == 0 {
        0
    } else {
        spec_seq_sum(s.drop_last()) + s.last()
    }
}

/// The sum is at most the count times the largest possible element.
proof fn lemma_seq_sum_bound(s: Seq<u64>)
    ensures
        0 <= spec_seq_sum(s) <= s.len() * u64::MAX,
    decreases s.len(),
{
    if s.len() > 0 {
        lemma_seq_sum_bound(s.drop_last());
        assert(s.len() * u64::MAX == (s.len() - 1) * u64::MAX + u64::MAX) by (nonlinear_arith);
    }
}

/// The mean lifespan: the sum over the count, or zero when there is nothing
/// to average or only zero-length lifespans.
pub open spec fn spec_avg(s: Seq<u64>) -> int {
    if spec_seq_sum(s) == 0 || s.len() == 0 {
        0
    } else {
        spec_seq_sum(s) / s.len() as int
    }
}

/// A thing whose mortality history is recorded, with derived statistics.
pub trait MortalityState {
    /// The recorded history of changes, oldest first.
    spec fn changes_view(&self) -> Seq<MortalityChange>;

    /// Invoked when the [Mortality] state has changed.
    fn mortality_changed(&mut self, change: MortalityChange)
        ensures
            final(self).changes_view() == old(self).changes_view().push(change),
    ;

    /// Returns the history of [Mortality] changes.
    fn mortality_changes(&self) -> (r: &Vec<MortalityChange>)
        ensures
            r@ == self.changes_view(),
    ;

    /// Returns the current [Mortality] state.
    fn mortality(&self) -> (r: Option<&Mortality>)
        ensures
            (match r {
                Some(m) => spec_mortality_of(self.changes_view()) == Some(*m),
                None => spec_mortality_of(self.changes_view()) is None,
            }),
    ;

    /// Returns true if the object is alive.
    fn is_alive(&self) -> (r: bool)
        ensures
            r == (spec_mortality_of(self.changes_view()) == Some(Mortality::Alive)),
    ;

    /// Returns true if the object is dead.
    fn is_dead(&self) -> (r: bool)
        ensures
            r == (spec_mortality_of(self.changes_view()) == Some(Mortality::Dead)),
    ;

    /// The lifespans the history yields, in nanoseconds.
    fn lifespans(&self) -> (r: Vec<u64>)
        requires
            spec_changes_sorted(self.changes_view()),
        ensures
            r@ == spec_lifespans(self.changes_view()),
    ;

    /// The shortest lifespan, or zero with none recorded.
    fn min_lifespan(&self) -> (r: u64)
        requires
            spec_changes_sorted(self.changes_view()),
        ensures
            r == spec_seq_min(spec_lifespans(self.changes_view())),
    ;

    /// The longest lifespan, or zero with none recorded.
    fn max_lifespan(&self) -> (r: u64)
        requires
            spec_changes_sorted(self.changes_view()),
        ensures
            r == spec_seq_max(spec_lifespans(self.changes_view())),
    ;

    /// The mean lifespan, or zero with no time lived.
    fn avg_lifespan(&self) -> (r: u64)
        requires
            spec_changes_sorted(self.changes_view()),
        ensures
            r == spec_avg(spec_lifespans(self.changes_view())),
    ;
}

impl MortalityState for Player {
    open spec fn changes_view(&self) -> Seq<MortalityChange> {
        self.mortality@
    }

    fn mortality_changed(&mut self, change: MortalityChange) {
        self.mortality.push(change);
    }

    fn mortality_changes(&self) -> (r: &Vec<MortalityChange>) {
        &self.mortality
    }

    fn mortality(&self) -> (r: Option<&Mortality>) {
        let n = self.mortality.len();
        if n == 0 {
            None
        } else {
            Some(&self.mortality[n - 1].1)
        }
    }

    fn is_alive(&self) -> (r: bool) {
        match self.mortality() {
            Some(m) => matches!(m, Mortality::Alive),
            None => false,
        }
    }

    fn is_dead(&self) -> (r: bool) {
        match self.mortality() {
            Some(m) => matches!(m, Mortality::Dead),
            None => false,
        }
    }

    fn lifespans(&self) -> (r: Vec<u64>) {
        let ch = &self.mortality;
        let mut out: Vec<u64> = Vec::new();
        let mut spawn: Option<GameTime> = None;
        let mut i: usize = 0;
        while i < ch.len()
            invariant
                0 <= i <= ch@.len(),
                spec_changes_sorted(ch@),
                ch@ == self.changes_view(),
                spec_lifespans(ch@) =~= out@ + spec_lifespans_from(ch@, i as int, spawn),
                (spawn matches Some(st) ==> forall|k: int|
                    i <= k < ch@.len() ==> st.viewdemo_nanos <= (
                    #[trigger] ch@[k]).0.viewdemo_nanos),
            decreases ch@.len() - i,
        {
            let entry = ch[i];
            match entry.1 {
                Mortality::Alive => {
                    if spawn.is_none() {
                        spawn = Some(entry.0);
                    }
                },
                Mortality::Dead => {
                    if let Some(st) = spawn {
                        out.push(entry.0.viewdemo_nanos - st.viewdemo_nanos);
                        spawn = None;
                        proof {
                            assert(spec_lifespans(ch@) =~= out@ + spec_lifespans_from(
                                ch@,
                                i + 1,
                                spawn,
                            ));
                        }
                    }
                },
            }
            i = i + 1;
        }
        out
    }

    fn min_lifespan(&self) -> (r: u64) {
        let spans = self.lifespans();
        let mut best: u64 = 0;
        let mut i: usize = 0;
        while i < spans.len()
            invariant
                0 <= i <= spans@.len(),
                best == spec_seq_min(spans@.subrange(0, i as int)),
            decreases spans@.len() - i,
        {
            proof {
                assert(spans@.subrange(0, i + 1).drop_last() =~= spans@.subrange(0, i as int));
                assert(spans@.subrange(0, i + 1).last() == spans@[i as int]);
            }
            if i == 0 || spans[i] < best {
                best = spans[i];
            }
            i = i + 1;
        }
        proof {
            assert(spans@.subrange(0, spans@.len() as int) =~= spans@);
        }
        best
    }

    fn max_lifespan(&self) -> (r: u64) {
        let spans = self.lifespans();
        let mut best: u64 = 0;
        let mut i: usize = 0;
        while i < spans.len()
            invariant
                0 <= i <= spans@.len(),
                best == spec_seq_max(spans@.subrange(0, i as int)),
            decreases spans@.len() - i,
        {
            proof {
                assert(spans@.subrange(0, i + 1).drop_last() =~= spans@.subrange(0, i as int));
                assert(spans@.subrange(0, i + 1).last() == spans@[i as int]);
            }
            if i == 0 || spans[i] > best {
                best = spans[i];
            }
            i = i + 1;
        }
        proof {
            assert(spans@.subrange(0, spans@.len() as int) =~= spans@);
        }
        best
    }

    fn avg_lifespan(&self) -> (r: u64) {
        let spans = self.lifespans();
        let mut sum: u128 = 0;
        let mut i: usize = 0;
        proof {
            lemma_seq_sum_bound(spans@);
        }
        while i < spans.len()
            invariant
                0 <= i <= spans@.len(),
                sum == spec_seq_sum(spans@.subrange(0, i as int)),
                sum <= i * u64::MAX,
            decreases spans@.len() - i,
        {
            proof {
                assert(spans@.subrange(0, i + 1).drop_last() =~= spans@.subrange(0, i as int));
                assert(spans@.subrange(0, i + 1).last() == spans@[i as int]);
                assert((i + 1) * u64::MAX == i * u64::MAX + u64::MAX) by (nonlinear_arith);
                assert(i * u64::MAX <= spans@.len() * u64::MAX) by (nonlinear_arith)
                    requires
                        0 <= i < spans@.len(),
                ;
            }
            sum = sum + spans[i] as u128;
            i = i + 1;
        }
        proof {
            assert(spans@.subrange(0, spans@.len() as int) =~= spans@);
        }
        if sum == 0 || spans.len() == 0 {
            return 0;
        }
        let n = spans.len() as u128;
        let avg = sum / n;
        proof {
            assert(sum / n <= u64::MAX) by (nonlinear_arith)
                requires
                    n >= 1,
                    sum <= n * u64::MAX,
            ;
        }
        avg as u64
    }
}

/// Marks players dead on death messages and alive on status updates, and
/// closes every living player's span at finalization so their last lifespans
/// are counted.
pub fn with_mortality_detection(state: &mut AnalyzerState, event: &AnalyzerEvent)
    requires
        old(state).wf(),
    ensures
        final(state).wf(),
        final(state).current_time == old(state).current_time,
        final(state).rounds == old(state).rounds,
        final(state).team_scores == old(state).team_scores,
        final(state).clan_match_detection == old(state).clan_match_detection,
        final(state).players@.len() == old(state).players@.len(),
        (match event {
            AnalyzerEvent::Finalization => forall|j: int|
                0 <= j < old(state).players@.len() ==> spec_finalized_mortality(
                    old(state).players@[j],
                    #[trigger] final(state).players@[j],
                    old(state).current_time,
                ),
            AnalyzerEvent::UserMessage(UserMessage::DeathMsg(dm)) => spec_mortality_changed(
                *old(state),
                *final(state),
                crate::spec_sub1(dm.victim_client_index),
                Mortality::Dead,
            ),
            AnalyzerEvent::UserMessage(UserMessage::PStatus(ps)) => spec_mortality_changed(
                *old(state),
                *final(state),
                crate::spec_sub1(ps.client_index),
                Mortality::Alive,
            ),
            _ => final(state).players == old(state).players,
        }),
{
    match event {
        AnalyzerEvent::Finalization => {
            let t = state.current_time;
            let n = state.players.len();
            let mut i: usize = 0;
            while i < n
                invariant
                    0 <= i <= n,
                    n == state.players@.len(),
                    old(state).wf(),
                    state.players@.len() == old(state).players@.len(),
                    state.current_time == old(state).current_time,
                    state.rounds == old(state).rounds,
                    state.team_scores == old(state).team_scores,
                    state.clan_match_detection == old(state).clan_match_detection,
                    t == state.current_time,
                    forall|j: int|
                        i <= j < n ==> state.players@[j] == old(state).players@[j],
                    forall|j: int|
                        0 <= j < i ==> spec_finalized_mortality(
                            old(state).players@[j],
                            #[trigger] state.players@[j],
                            t,
                        ),
                decreases n - i,
            {
                let alive = state.players[i].is_alive();
                if alive {
                    let player = &mut state.players[i];
                    player.mortality.push(MortalityChange(t, Mortality::Dead));
                }
                i = i + 1;
            }
            proof {
                assert forall|a: int|
                    0 <= a < state.players@.len() implies crate::spec_player_wf(
                    state.players@[a],
                    state.current_time,
                ) by {
                    assert(crate::spec_player_wf(old(state).players@[a], old(state).current_time));
                }
            }
        },
        AnalyzerEvent::UserMessage(UserMessage::DeathMsg(dm)) => {
            mortality_change(state, crate::sub1(dm.victim_client_index), Mortality::Dead);
        },
        AnalyzerEvent::UserMessage(UserMessage::PStatus(ps)) => {
            mortality_change(state, crate::sub1(ps.client_index), Mortality::Alive);
        },
        _ => {},
    }
}

/// `q` is `p` with a closing Dead entry appended exactly when `p` was alive.
pub open spec fn spec_finalized_mortality(p: Player, q: Player, t: GameTime) -> bool {
    if spec_mortality_of(p.mortality@) == Some(Mortality::Alive) {
        &&& q.mortality@ == p.mortality@.push(MortalityChange(t, Mortality::Dead))
        &&& q == (Player { mortality: q.mortality, ..p })
    } else {
        q == p
    }
}

/// What recording one change does: the slot's player gains one entry at the
/// current time unless it would repeat their current state; a vacant slot
/// changes nothing.
pub open spec fn spec_mortality_changed(
    pre: AnalyzerState,
    post: AnalyzerState,
    client_index: u8,
    m: Mortality,
) -> bool {
    match crate::spec_find_connected(pre.players@, client_index) {
        Some(i) => {
            &&& forall|j: int|
                0 <= j < pre.players@.len() && j != i ==> post.players@[j] == pre.players@[j]
            &&& (if spec_mortality_of(pre.players@[i].mortality@) == Some(m) {
                post.players@[i] == pre.players@[i]
            } else {
                post.players@[i].mortality@ == pre.players@[i].mortality@.push(
                    MortalityChange(pre.current_time, m),
                ) && post.players@[i] == (Player {
                    mortality: post.players@[i].mortality,
                    ..pre.players@[i]
                })
            })
        },
        None => post.players == pre.players,
    }
}

/// Records a mortality change for the player in a slot, skipped when it
/// would repeat the player's current state.
fn mortality_change(state: &mut AnalyzerState, client_index: u8, m: Mortality)
    requires
        old(state).wf(),
    ensures
        final(state).wf(),
        final(state).current_time == old(state).current_time,
        final(state).rounds == old(state).rounds,
        final(state).team_scores == old(state).team_scores,
        final(state).clan_match_detection == old(state).clan_match_detection,
        final(state).players@.len() == old(state).players@.len(),
        spec_mortality_changed(*old(state), *final(state), client_index, m),
{
    let t = state.current_time;
    if let Some(i) = state.find_player_index_by_client(client_index) {
        let repeat = match state.players[i].mortality() {
            Some(cur) => *cur == m,
            None => false,
        };
        if !repeat {
            let player = &mut state.players[i];
            player.mortality.push(MortalityChange(t, m));
        }
    }
    proof {
        assert forall|a: int|
            0 <= a < state.players@.len() implies crate::spec_player_wf(
            state.players@[a],
            state.current_time,
        ) by {
            assert(crate::spec_player_wf(old(state).players@[a], old(state).current_time));
        }
    }
}

} // verus!
