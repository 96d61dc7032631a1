//! Game time: two offsets from recording start, both in nanoseconds, updated
//! under a monotonic clamp.

use vstd::prelude::*;
use crate::{AnalyzerEvent, AnalyzerState};

verus! {

/// A moment in time when something happened in game.
#[derive(Clone, Copy, Debug, PartialEq, Eq, Structural)]
pub struct GameTime {
    /// Offset derived from container frame timestamps, in nanoseconds.
    pub real_nanos: u64,

    /// Offset shown when replaying the demo, taken from engine time messages,
    /// in nanoseconds.
    pub viewdemo_nanos: u64,
}

impl GameTime {
    pub fn zero() -> (r: GameTime)
        ensures
            r.real_nanos == 0,
            r.viewdemo_nanos == 0,
    {
        GameTime { real_nanos: 0, viewdemo_nanos: 0 }
    }

    /// Elapsed viewdemo time since `earlier`, in nanoseconds.
    pub fn sub(&self, earlier: &GameTime) -> (r: u64)
        requires
            earlier.viewdemo_nanos <= self.viewdemo_nanos,
        ensures
            r == self.viewdemo_nanos - earlier.viewdemo_nanos,
    {
        self.viewdemo_nanos - earlier.viewdemo_nanos
    }
}

impl Default for GameTime {
    fn default() -> (r: GameTime)
        ensures
            r.real_nanos == 0,
            r.viewdemo_nanos == 0,
    {
        GameTime { real_nanos: 0, viewdemo_nanos: 0 }
    }
}

/// The monotonic clamp: a new offset replaces the current one only when it is
/// larger or the current one is still zero.
pub open spec fn spec_clamped(current: u64, offset: u64) -> u64 {
    if offset > current || current == 0 {
        offset
    } else {
        current
    }
}

/// Advances the clock on engine time messages and container frame timestamps.
///
/// Engine time moves the viewdemo offset; container time moves the real
/// offset. Both only ever move forward.
pub fn use_timing_updates(state: &mut AnalyzerState, event: &AnalyzerEvent)
    ensures
        final(state).current_time == (match event {
            AnalyzerEvent::SvcTime { nanos } => GameTime {
                real_nanos: old(state).current_time.real_nanos,
                viewdemo_nanos: spec_clamped(old(state).current_time.viewdemo_nanos, *nanos),
            },
            AnalyzerEvent::RealTimeChange { nanos } => GameTime {
                real_nanos: spec_clamped(old(state).current_time.real_nanos, *nanos),
                viewdemo_nanos: old(state).current_time.viewdemo_nanos,
            },
            _ => old(state).current_time,
        }),
        final(state).current_time.viewdemo_nanos >= old(state).current_time.viewdemo_nanos,
        final(state).players == old(state).players,
        final(state).rounds == old(state).rounds,
        final(state).team_scores == old(state).team_scores,
        final(state).clan_match_detection == old(state).clan_match_detection,
{
    match event {
        AnalyzerEvent::SvcTime { nanos } => {
            if *nanos > state.current_time.viewdemo_nanos || state.current_time.viewdemo_nanos
                == 0 {
                state.current_time.viewdemo_nanos = *nanos;
            }
        },
        AnalyzerEvent::RealTimeChange { nanos } => {
            if *nanos > state.current_time.real_nanos || state.current_time.real_nanos == 0 {
                state.current_time.real_nanos = *nanos;
            }
        },
        _ => {},
    }
}

} // verus!
