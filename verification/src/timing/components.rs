use vstd::prelude::*;

verus! {

/// Custom time data of the embedded application, as reported by the host.
///
/// It is the context of the custom clock. Both deltas are whole
/// nanoseconds: a delta that is negative or no number cannot be held, and so
/// cannot reach the clock.
#[derive(Clone, Copy, Debug, PartialEq, Eq)]
pub struct CTime {
    /// Counts the scheduler passes that chose to count themselves.
    pub frame_count: u64,
    /// Mirrors the pause flag of the virtual clock; copied, never computed.
    pub is_paused: bool,
    /// The delta of the most recent visual frame, in nanoseconds.
    pub godot_dt: u64,
    /// The delta of the most recent physics step, in nanoseconds.
    pub godot_physics_dt: u64,
}

impl CTime {
    /// Maximum delta time of one scheduler pass, in milliseconds.
    pub const MAX_DELTA_TIME: u64 = 250;

    /// The context of a clock that no host callback has reached yet.
    pub open spec fn initial() -> CTime {
        CTime { frame_count: 0, is_paused: false, godot_dt: 0, godot_physics_dt: 0 }
    }

    /// This context after the host reported a visual frame of `delta` nanoseconds.
    pub open spec fn with_godot_dt(self, delta: u64) -> CTime {
        CTime { godot_dt: delta, ..self }
    }

    /// This context after the host reported a physics step of `fixed_delta` nanoseconds.
    pub open spec fn with_godot_physics_dt(self, fixed_delta: u64) -> CTime {
        CTime { godot_physics_dt: fixed_delta, ..self }
    }

    /// This context with the pause flag replaced.
    pub open spec fn with_paused(self, paused: bool) -> CTime {
        CTime { is_paused: paused, ..self }
    }

    /// This context with one more pass counted.
    pub open spec fn with_next_frame(self) -> CTime
        recommends
            self.frame_count < u64::MAX,
    {
        CTime { frame_count: (self.frame_count + 1) as u64, ..self }
    }
}

impl Default for CTime {
    fn default() -> (c: CTime)
        ensures
            c == CTime::initial(),
    {
        CTime { frame_count: 0, is_paused: false, godot_dt: 0, godot_physics_dt: 0 }
    }
}

} // verus!
