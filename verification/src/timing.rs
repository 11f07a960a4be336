//! The time reconciliation pipeline.
//!
//! Two callbacks of the host report time, and neither may drive the clock of
//! the application by itself. The host records both deltas in the context of
//! the custom clock; once per scheduler pass the capture stage turns the
//! visual delta into the step of the custom clock, and every later stage
//! republishes that clock as the generic clock.

pub mod clock;
pub mod components;
pub mod systems;

use crate::timing::clock::app_clock;
use crate::timing::clock::clock_resource;
use crate::timing::clock::context_mut;
use crate::timing::clock::init_clock_resource;
use crate::timing::clock::Clock;
use crate::timing::clock::VirtualSettings;
use crate::timing::components::CTime;
use crate::timing::systems::authoritative_delta;
use crate::timing::systems::captured;
use crate::timing::systems::max_delta_set;
use crate::timing::systems::published;
use crate::timing::systems::scaled_delta;
use crate::timing::systems::MAX_DELTA_NANOS;
use crate::timing::systems::RELATIVE_SPEED_UNIT;
use bevy::app::App;
use vstd::prelude::*;

verus! {

/// The points of a scheduler pass at which the pipeline runs a stage.
#[derive(Clone, Copy, Debug, PartialEq, Eq, Structural)]
pub enum Schedule {
    /// Once, before the first pass.
    Startup,
    /// At the start of every pass, after the generic clock's own update.
    First,
    PreUpdate,
    Update,
    PostUpdate,
}

/// Where a stage stands among the other systems of its point of the pass.
#[derive(Clone, Copy, Debug, PartialEq, Eq, Structural)]
pub enum Placement {
    /// In no particular place.
    Anywhere,
    /// In the set of the systems that update the time, after the one that
    /// updates the generic clock from the real one.
    AfterTimeSystem,
}

/// The stages of the pipeline; `systems` holds a function for each.
#[derive(Clone, Copy, Debug, PartialEq, Eq, Structural)]
pub enum TimingSystem {
    SetMaxDelta,
    ComputeCustomTime,
    OverrideTime,
}

/// A stage of the pipeline with the point of the pass at which it runs.
#[derive(Clone, Copy, Debug, PartialEq, Eq, Structural)]
pub struct Stage {
    pub schedule: Schedule,
    pub system: TimingSystem,
    pub placement: Placement,
}

/// The three clocks that the pipeline reads and writes.
pub struct Clocks {
    /// The virtual clock, which holds the pause flag of the host.
    pub virtual_time: Clock<VirtualSettings>,
    /// The custom clock, whose context holds the deltas that the host reported.
    pub custom_time: Clock<CTime>,
    /// The generic clock, the authoritative one that every system reads.
    pub time: Clock<()>,
}

impl Clocks {
    /// These clocks after the host reported a visual frame of `delta` nanoseconds.
    pub open spec fn with_godot_dt(self, delta: u64) -> Clocks {
        Clocks {
            custom_time: Clock {
                context: self.custom_time.context.with_godot_dt(delta),
                ..self.custom_time
            },
            ..self
        }
    }
}

/// Custom time computing logic.
pub struct TimingPlugin;

impl TimingPlugin {
    /// The stages of the pipeline, each with the point at which it runs, in
    /// the order in which they are attached.
    pub open spec fn pipeline() -> Seq<Stage> {
        seq![
            Stage {
                schedule: Schedule::Startup,
                system: TimingSystem::SetMaxDelta,
                placement: Placement::Anywhere,
            },
            Stage {
                schedule: Schedule::First,
                system: TimingSystem::ComputeCustomTime,
                placement: Placement::AfterTimeSystem,
            },
            Stage {
                schedule: Schedule::PreUpdate,
                system: TimingSystem::OverrideTime,
                placement: Placement::Anywhere,
            },
            Stage {
                schedule: Schedule::Update,
                system: TimingSystem::OverrideTime,
                placement: Placement::Anywhere,
            },
            Stage {
                schedule: Schedule::PostUpdate,
                system: TimingSystem::OverrideTime,
                placement: Placement::Anywhere,
            },
        ]
    }

    /// What one stage does to the clocks, at a relative speed of
    /// `relative_speed` millionths.
    pub open spec fn effect(system: TimingSystem, relative_speed: u64, clocks: Clocks) -> Clocks {
        match system {
            TimingSystem::SetMaxDelta => Clocks {
                virtual_time: max_delta_set(clocks.virtual_time),
                ..clocks
            },
            TimingSystem::ComputeCustomTime => {
                let custom_time = captured(
                    clocks.custom_time,
                    relative_speed,
                    clocks.virtual_time.context.paused,
                );
                Clocks { custom_time, time: published(custom_time), ..clocks }
            },
            TimingSystem::OverrideTime => Clocks { time: published(clocks.custom_time), ..clocks },
        }
    }

    /// What the stages of `stages` do to the clocks in one scheduler pass,
    /// one after the other. A stage of `Startup` is no part of a pass.
    pub open spec fn run(stages: Seq<Stage>, relative_speed: u64, clocks: Clocks) -> Clocks
        decreases stages.len(),
    {
        if stages.len() == 0 {
            clocks
        } else {
            let last = stages.last();
            let before = Self::run(stages.drop_last(), relative_speed, clocks);
            if last.schedule == Schedule::Startup {
                before
            } else {
                Self::effect(last.system, relative_speed, before)
            }
        }
    }

    /// What one scheduler pass does to the clocks.
    pub open spec fn pass(relative_speed: u64, clocks: Clocks) -> Clocks {
        Self::run(Self::pipeline(), relative_speed, clocks)
    }

    /// One scheduler pass is the capture stage followed by the override
    /// stage, three times.
    pub proof fn lemma_pass_unfolds(relative_speed: u64, clocks: Clocks)
        ensures
            Self::pass(relative_speed, clocks) == Self::effect(
                TimingSystem::OverrideTime,
                relative_speed,
                Self::effect(
                    TimingSystem::OverrideTime,
                    relative_speed,
                    Self::effect(
                        TimingSystem::OverrideTime,
                        relative_speed,
                        Self::effect(TimingSystem::ComputeCustomTime, relative_speed, clocks),
                    ),
                ),
            ),
            Self::pass(relative_speed, clocks) == Self::effect(
                TimingSystem::ComputeCustomTime,
                relative_speed,
                clocks,
            ),
    {
        let all = Self::pipeline();
        let to_update = all.drop_last();
        let to_pre_update = to_update.drop_last();
        let to_first = to_pre_update.drop_last();
        let to_startup = to_first.drop_last();
        let none = to_startup.drop_last();
        assert(none.len() == 0);
        assert(all.last().schedule == Schedule::PostUpdate && all.last().system
            == TimingSystem::OverrideTime);
        assert(to_update.last().schedule == Schedule::Update && to_update.last().system
            == TimingSystem::OverrideTime);
        assert(to_pre_update.last().schedule == Schedule::PreUpdate && to_pre_update.last().system
            == TimingSystem::OverrideTime);
        assert(to_first.last().schedule == Schedule::First && to_first.last().system
            == TimingSystem::ComputeCustomTime);
        assert(to_startup.last().schedule == Schedule::Startup);
        assert(Self::run(none, relative_speed, clocks) == clocks);
        assert(Self::run(to_startup, relative_speed, clocks) == clocks);
        let captured = Self::effect(TimingSystem::ComputeCustomTime, relative_speed, clocks);
        assert(Self::run(to_first, relative_speed, clocks) == captured);
        assert(Self::run(to_pre_update, relative_speed, clocks) == captured);
        assert(Self::run(to_update, relative_speed, clocks) == captured);
        assert(Self::run(all, relative_speed, clocks) == captured);
    }

    /// A visual delta that the host recorded reaches the authoritative clock
    /// in the next pass: the step of the generic clock is the delta times the
    /// relative speed, but never more than `MAX_DELTA_NANOS`, however large
    /// the delta is. The physics delta takes no part in it and stays as it was.
    pub proof fn lemma_pass_applies_visual_delta(clocks: Clocks, delta: u64, relative_speed: u64)
        ensures
            ({
                let after = Self::pass(relative_speed, clocks.with_godot_dt(delta));
                let scaled = scaled_delta(delta as nat, relative_speed as nat);
                &&& after.time.delta == authoritative_delta(delta as nat, relative_speed as nat)
                &&& after.time.delta == if scaled <= MAX_DELTA_NANOS {
                    scaled
                } else {
                    MAX_DELTA_NANOS as nat
                }
                &&& after.time.delta <= MAX_DELTA_NANOS
                &&& after.time.elapsed == clocks.custom_time.elapsed + after.time.delta
                &&& after.custom_time.context.godot_dt == delta
                &&& after.custom_time.context.frame_count == clocks.custom_time.context.frame_count
                &&& after.custom_time.context.godot_physics_dt
                    == clocks.custom_time.context.godot_physics_dt
                &&& relative_speed == RELATIVE_SPEED_UNIT ==> scaled == delta
            }),
    {
        Self::lemma_pass_unfolds(relative_speed, clocks.with_godot_dt(delta));
        if relative_speed == RELATIVE_SPEED_UNIT {
            assert(delta * 1_000_000 / 1_000_000 == delta) by (nonlinear_arith);
        }
    }

    /// The pause flag of the host is the pause flag of the context right
    /// after the capture stage, and after the whole pass, whatever the deltas
    /// and the relative speed are.
    pub proof fn lemma_pass_copies_pause_flag(clocks: Clocks, relative_speed: u64)
        ensures
            Self::effect(
                TimingSystem::ComputeCustomTime,
                relative_speed,
                clocks,
            ).custom_time.context.is_paused == clocks.virtual_time.context.paused,
            Self::pass(relative_speed, clocks).custom_time.context.is_paused
                == clocks.virtual_time.context.paused,
    {
        Self::lemma_pass_unfolds(relative_speed, clocks);
    }

    /// The override stage is idempotent: run again with no capture stage in
    /// between, it leaves every clock as the first run left it. After a
    /// capture stage, and so after a whole pass, it changes nothing at all.
    pub proof fn lemma_override_is_idempotent(clocks: Clocks, relative_speed: u64)
        ensures
            ({
                let once = Self::effect(TimingSystem::OverrideTime, relative_speed, clocks);
                Self::effect(TimingSystem::OverrideTime, relative_speed, once) == once
            }),
            ({
                let captured = Self::effect(TimingSystem::ComputeCustomTime, relative_speed, clocks);
                Self::effect(TimingSystem::OverrideTime, relative_speed, captured) == captured
            }),
            ({
                let after = Self::pass(relative_speed, clocks);
                Self::effect(TimingSystem::OverrideTime, relative_speed, after) == after
            }),
    {
        Self::lemma_pass_unfolds(relative_speed, clocks);
    }

    /// What `update_godot_dt` does to the application: the context of its
    /// custom clock holds `delta` as the visual delta and the clock is
    /// otherwise as before; without a custom clock nothing changes.
    pub open spec fn godot_dt_recorded(before: App, after: App, delta: u64) -> bool {
        match app_clock(before) {
            Some(clock) => app_clock(after) == Some(
                Clock { context: clock.context.with_godot_dt(delta), ..clock },
            ),
            None => after == before,
        }
    }

    /// What `update_godot_fixed_dt` does to the application: the context of
    /// its custom clock holds `fixed_delta` as the physics delta and the clock
    /// is otherwise as before; without a custom clock nothing changes.
    pub open spec fn godot_fixed_dt_recorded(before: App, after: App, fixed_delta: u64) -> bool {
        match app_clock(before) {
            Some(clock) => app_clock(after) == Some(
                Clock { context: clock.context.with_godot_physics_dt(fixed_delta), ..clock },
            ),
            None => after == before,
        }
    }

    /// Attaches the pipeline: gives the world of `app` a custom clock where it
    /// has none, and returns the stages for the scheduler of `app`, each with
    /// the point of the pass at which it is to run and its place there.
    pub fn build(&self, app: &mut App) -> (stages: Vec<Stage>)
        ensures
            stages@ == Self::pipeline(),
            app_clock(*final(app)) == Some(
                match app_clock(*old(app)) {
                    Some(clock) => clock,
                    None => Clock { context: CTime::initial(), delta: 0, elapsed: 0 },
                },
            ),
    {
        init_clock_resource(app);
        let mut stages: Vec<Stage> = Vec::new();
        stages.push(
            Stage {
                schedule: Schedule::Startup,
                system: TimingSystem::SetMaxDelta,
                placement: Placement::Anywhere,
            },
        );
        stages.push(
            Stage {
                schedule: Schedule::First,
                system: TimingSystem::ComputeCustomTime,
                placement: Placement::AfterTimeSystem,
            },
        );
        stages.push(
            Stage {
                schedule: Schedule::PreUpdate,
                system: TimingSystem::OverrideTime,
                placement: Placement::Anywhere,
            },
        );
        stages.push(
            Stage {
                schedule: Schedule::Update,
                system: TimingSystem::OverrideTime,
                placement: Placement::Anywhere,
            },
        );
        stages.push(
            Stage {
                schedule: Schedule::PostUpdate,
                system: TimingSystem::OverrideTime,
                placement: Placement::Anywhere,
            },
        );
        assert(stages@ =~= Self::pipeline());
        stages
    }

    /// Records the delta of a visual frame, in nanoseconds, in the context of
    /// the custom clock. Where `app` holds no custom clock, nothing happens.
    pub fn update_godot_dt(delta: u64, app: &mut App)
        ensures
            Self::godot_dt_recorded(*old(app), *final(app), delta),
    {
        match clock_resource(app) {
            Some(ctime) => {
                let context = context_mut(ctime);
                context.godot_dt = delta;
            },
            None => {},
        }
    }

    /// Records the delta of a physics step, in nanoseconds, in the context of
    /// the custom clock. Where `app` holds no custom clock, nothing happens.
    pub fn update_godot_fixed_dt(fixed_delta: u64, app: &mut App)
        ensures
            Self::godot_fixed_dt_recorded(*old(app), *final(app), fixed_delta),
    {
        match clock_resource(app) {
            Some(ctime) => {
                let context = context_mut(ctime);
                context.godot_physics_dt = fixed_delta;
            },
            None => {},
        }
    }
}

} // verus!
