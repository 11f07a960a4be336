//! The stages of the time reconciliation pipeline.
//!
//! Each stage is a function on Bevy's clocks. Its contract is stated over
//! the models of `clock`, by a spec function that says what the stage does
//! to them.

use crate::timing::clock::advance_by;
use crate::timing::clock::as_generic;
use crate::timing::clock::context;
use crate::timing::clock::context_mut;
use crate::timing::clock::custom_clock;
use crate::timing::clock::duration_nanos;
use crate::timing::clock::elapsed;
use crate::timing::clock::generic_clock;
use crate::timing::clock::virtual_clock;
use crate::timing::clock::virtual_delta;
use crate::timing::clock::Clock;
use crate::timing::clock::VirtualSettings;
use crate::timing::clock::DURATION_MAX_NANOS;
use crate::timing::components::CTime;
use bevy::time::Time;
use bevy::time::Virtual;
use std::time::Duration;
use vstd::prelude::*;

verus! {

/// The relative speed of real time: speeds are counted in millionths.
pub const RELATIVE_SPEED_UNIT: u64 = 1_000_000;

/// The longest step that one scheduler pass adds to the clock, in nanoseconds.
pub const MAX_DELTA_NANOS: u64 = CTime::MAX_DELTA_TIME * 1_000_000;

/// A delta of `dt` nanoseconds at a relative speed of `relative_speed`
/// millionths, rounded down to whole nanoseconds.
pub open spec fn scaled_delta(dt: nat, relative_speed: nat) -> nat {
    dt * relative_speed / (RELATIVE_SPEED_UNIT as nat)
}

/// The step of the authoritative clock for a visual delta of `dt`
/// nanoseconds: the scaled delta, but never more than `MAX_DELTA_NANOS`.
pub open spec fn authoritative_delta(dt: nat, relative_speed: nat) -> nat {
    if scaled_delta(dt, relative_speed) <= MAX_DELTA_NANOS as nat {
        scaled_delta(dt, relative_speed)
    } else {
        MAX_DELTA_NANOS as nat
    }
}

/// The virtual clock after the startup stage.
pub open spec fn max_delta_set(v: Clock<VirtualSettings>) -> Clock<VirtualSettings> {
    Clock {
        context: VirtualSettings { max_delta: MAX_DELTA_NANOS as nat, paused: v.context.paused },
        ..v
    }
}

/// The custom clock after the capture stage.
pub open spec fn captured(c: Clock<CTime>, relative_speed: u64, paused: bool) -> Clock<CTime> {
    let step = authoritative_delta(c.context.godot_dt as nat, relative_speed as nat);
    Clock { context: c.context.with_paused(paused), delta: step, elapsed: c.elapsed + step }
}

/// The custom clock after the capture stage that keeps the step of the
/// virtual clock and counts the pass.
pub open spec fn captured_keep_dt(c: Clock<CTime>, v: Clock<VirtualSettings>) -> Clock<CTime> {
    Clock {
        context: c.context.with_next_frame().with_paused(v.context.paused),
        delta: v.delta,
        elapsed: c.elapsed + v.delta,
    }
}

/// The generic clock that republishes the custom clock `c`.
pub open spec fn published(c: Clock<CTime>) -> Clock<()> {
    Clock { context: (), delta: c.delta, elapsed: c.elapsed }
}

/// Computes the step of the authoritative clock.
pub fn next_delta(dt: u64, relative_speed: u64) -> (step: u64)
    ensures
        step == authoritative_delta(dt as nat, relative_speed as nat),
        step <= MAX_DELTA_NANOS,
{
    assert(dt * relative_speed <= 0xFFFF_FFFF_FFFF_FFFF * 0xFFFF_FFFF_FFFF_FFFF) by (nonlinear_arith)
        requires
            0 <= dt <= 0xFFFF_FFFF_FFFF_FFFF,
            0 <= relative_speed <= 0xFFFF_FFFF_FFFF_FFFF,
    ;
    let product: u128 = (dt as u128) * (relative_speed as u128);
    let scaled: u128 = product / (RELATIVE_SPEED_UNIT as u128);
    if scaled <= MAX_DELTA_NANOS as u128 {
        scaled as u64
    } else {
        MAX_DELTA_NANOS
    }
}

/// Startup stage: bounds the step of the virtual clock by `MAX_DELTA_NANOS`,
/// so that a stall of the host is never applied in one jump.
pub fn set_max_delta(virtual_time: &mut Time<Virtual>)
    ensures
        virtual_clock(*final(virtual_time)) == max_delta_set(virtual_clock(*old(virtual_time))),
{
    virtual_time.set_max_delta(Duration::from_millis(CTime::MAX_DELTA_TIME));
}

/// Capture stage: advances the custom clock by the authoritative step for the
/// visual delta of its context, copies the pause flag of the virtual clock
/// into the context, and republishes the custom clock as the generic clock.
///
/// `relative_speed` is the relative speed of the virtual clock in millionths.
/// The physics delta is kept in the context and does not enter the step.
pub fn compute_custom_time(
    virtual_time: &Time<Virtual>,
    relative_speed: u64,
    custom_time: &mut Time<CTime>,
    time: &mut Time<()>,
)
    requires
        captured(
            custom_clock(*old(custom_time)),
            relative_speed,
            virtual_clock(*virtual_time).context.paused,
        ).elapsed <= DURATION_MAX_NANOS,
    ensures
        custom_clock(*final(custom_time)) == captured(
            custom_clock(*old(custom_time)),
            relative_speed,
            virtual_clock(*virtual_time).context.paused,
        ),
        generic_clock(*final(time)) == published(custom_clock(*final(custom_time))),
{
    let context = context_mut(custom_time);
    let next_dt: u64 = next_delta(context.godot_dt, relative_speed);
    let next_dt_as_duration = Duration::from_nanos(next_dt);
    context.is_paused = virtual_time.is_paused();
    advance_by(custom_time, next_dt_as_duration);
    *time = as_generic(custom_time);
}

/// The capture stage for every state of the custom clock: it runs
/// `compute_custom_time` where the elapsed time still fits a `Duration`, and
/// otherwise leaves both clocks as they are. It returns whether it ran.
pub fn try_compute_custom_time(
    virtual_time: &Time<Virtual>,
    relative_speed: u64,
    custom_time: &mut Time<CTime>,
    time: &mut Time<()>,
) -> (ran: bool)
    ensures
        ran == (captured(
            custom_clock(*old(custom_time)),
            relative_speed,
            virtual_clock(*virtual_time).context.paused,
        ).elapsed <= DURATION_MAX_NANOS),
        ran ==> custom_clock(*final(custom_time)) == captured(
            custom_clock(*old(custom_time)),
            relative_speed,
            virtual_clock(*virtual_time).context.paused,
        ),
        ran ==> generic_clock(*final(time)) == published(custom_clock(*final(custom_time))),
        !ran ==> *final(custom_time) == *old(custom_time) && *final(time) == *old(time),
{
    let next_dt: u64 = next_delta(context(custom_time).godot_dt, relative_speed);
    let so_far: u128 = elapsed(custom_time).as_nanos();
    if so_far <= DURATION_MAX_NANOS - next_dt as u128 {
        compute_custom_time(virtual_time, relative_speed, custom_time, time);
        true
    } else {
        false
    }
}

/// Override stage: republishes the custom clock as the generic clock, with
/// nothing computed anew.
pub fn override_time(custom_time: &Time<CTime>, time: &mut Time<()>)
    ensures
        generic_clock(*final(time)) == published(custom_clock(*custom_time)),
{
    *time = as_generic(custom_time);
}

/// A capture stage that counts the pass and advances the custom clock by the
/// step of the virtual clock instead of the visual delta.
pub fn compute_custom_time_keep_dt(
    virtual_time: &Time<Virtual>,
    custom_time: &mut Time<CTime>,
    time: &mut Time<()>,
)
    requires
        custom_clock(*old(custom_time)).context.frame_count < u64::MAX,
        captured_keep_dt(custom_clock(*old(custom_time)), virtual_clock(*virtual_time)).elapsed
            <= DURATION_MAX_NANOS,
    ensures
        custom_clock(*final(custom_time)) == captured_keep_dt(
            custom_clock(*old(custom_time)),
            virtual_clock(*virtual_time),
        ),
        generic_clock(*final(time)) == published(custom_clock(*final(custom_time))),
{
    let context = context_mut(custom_time);
    context.frame_count = context.frame_count + 1;
    context.is_paused = virtual_time.is_paused();
    advance_by(custom_time, virtual_delta(virtual_time));
    *time = as_generic(custom_time);
}

/// `compute_custom_time_keep_dt` for every state of the clocks: it runs where
/// the pass can still be counted and the elapsed time still fits a
/// `Duration`, and otherwise leaves both clocks as they are. It returns
/// whether it ran.
pub fn try_compute_custom_time_keep_dt(
    virtual_time: &Time<Virtual>,
    custom_time: &mut Time<CTime>,
    time: &mut Time<()>,
) -> (ran: bool)
    ensures
        ran == (custom_clock(*old(custom_time)).context.frame_count < u64::MAX
            && captured_keep_dt(custom_clock(*old(custom_time)), virtual_clock(*virtual_time)).elapsed
            <= DURATION_MAX_NANOS),
        ran ==> custom_clock(*final(custom_time)) == captured_keep_dt(
            custom_clock(*old(custom_time)),
            virtual_clock(*virtual_time),
        ),
        ran ==> generic_clock(*final(time)) == published(custom_clock(*final(custom_time))),
        !ran ==> *final(custom_time) == *old(custom_time) && *final(time) == *old(time),
{
    let step: u128 = virtual_delta(virtual_time).as_nanos();
    let so_far: u128 = elapsed(custom_time).as_nanos();
    if context(custom_time).frame_count < u64::MAX && step <= DURATION_MAX_NANOS && so_far
        <= DURATION_MAX_NANOS - step {
        compute_custom_time_keep_dt(virtual_time, custom_time, time);
        true
    } else {
        false
    }
}

} // verus!
