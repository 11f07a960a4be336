//! What this library relies on of Bevy's clocks and of `Duration`.
//!
//! Nothing in this file is proved. Each item states a fact of Bevy or of the
//! standard library, over the models declared here: a clock is known by its
//! context, its delta and its elapsed time, and by nothing else.

use crate::timing::components::CTime;
use bevy::app::App;
use bevy::ecs::world::Mut;
use bevy::time::Time;
use bevy::time::Virtual;
use std::time::Duration;
use vstd::prelude::*;

verus! {

/// Bevy's clock, `bevy::time::Time`. Nothing inside it is visible here.
#[verifier::external_type_specification]
#[verifier::external_body]
#[verifier::reject_recursive_types(T)]
pub struct ExTime<T: Default>(Time<T>);

/// The context of Bevy's virtual clock, `bevy::time::Virtual`.
#[verifier::external_type_specification]
#[verifier::external_body]
pub struct ExVirtual(Virtual);

/// Bevy's application, `bevy::app::App`.
#[verifier::external_type_specification]
#[verifier::external_body]
pub struct ExApp(App);

/// What a clock holds: its context, the step of its last advance and the sum
/// of all its advances, both in nanoseconds.
pub struct Clock<C> {
    pub context: C,
    pub delta: nat,
    pub elapsed: nat,
}

/// What the context of the virtual clock holds besides its relative speed.
pub struct VirtualSettings {
    /// The longest step of the virtual clock, in nanoseconds.
    pub max_delta: nat,
    pub paused: bool,
}

/// The most nanoseconds that a `Duration` can hold: `u64::MAX` seconds and
/// 999,999,999 nanoseconds.
pub const DURATION_MAX_NANOS: u128 = 18_446_744_073_709_551_615_999_999_999;

/// The length of a `Duration` in nanoseconds.
pub uninterp spec fn duration_nanos(d: Duration) -> nat;

/// What the custom clock holds.
pub uninterp spec fn custom_clock(t: Time<CTime>) -> Clock<CTime>;

/// What the generic clock holds, the one that the systems of the application read.
pub uninterp spec fn generic_clock(t: Time<()>) -> Clock<()>;

/// What the virtual clock holds.
pub uninterp spec fn virtual_clock(t: Time<Virtual>) -> Clock<VirtualSettings>;

/// What the custom clock holds that the world of the application has as a
/// resource, if it has one.
pub uninterp spec fn app_clock(app: App) -> Option<Clock<CTime>>;

/// `Duration::from_nanos` makes the duration of that many nanoseconds.
pub assume_specification[ Duration::from_nanos ](nanos: u64) -> (d: Duration)
    ensures
        duration_nanos(d) == nanos,
;

/// `Duration::from_millis` makes the duration of that many milliseconds.
pub assume_specification[ Duration::from_millis ](millis: u64) -> (d: Duration)
    ensures
        duration_nanos(d) == millis * 1_000_000,
;

/// `Duration::as_nanos` gives the whole length in nanoseconds.
pub assume_specification[ Duration::as_nanos ](d: &Duration) -> (nanos: u128)
    ensures
        nanos == duration_nanos(*d),
;

/// `Time::context_mut` lends the context of the clock. What is written
/// through the loan becomes the context; delta and elapsed time stay.
#[verifier::external_body]
pub(crate) fn context_mut(t: &mut Time<CTime>) -> (context: &mut CTime)
    ensures
        *context == custom_clock(*old(t)).context,
        custom_clock(*final(t)) == (Clock { context: *final(context), ..custom_clock(*old(t)) }),
{
    t.context_mut()
}

/// `Time::context` reads the context of the clock.
#[verifier::external_body]
pub(crate) fn context(t: &Time<CTime>) -> (context: &CTime)
    ensures
        *context == custom_clock(*t).context,
{
    t.context()
}

/// `Time::elapsed` reads the sum of all advances of the clock.
#[verifier::external_body]
pub(crate) fn elapsed(t: &Time<CTime>) -> (d: Duration)
    ensures
        duration_nanos(d) == custom_clock(*t).elapsed,
{
    t.elapsed()
}

/// `Time::advance_by` makes `delta` the step of the clock and adds it to the
/// elapsed time; the context stays. It panics where the sum no longer fits a
/// `Duration`, which `requires` leaves out.
#[verifier::external_body]
pub(crate) fn advance_by(t: &mut Time<CTime>, delta: Duration)
    requires
        custom_clock(*old(t)).elapsed + duration_nanos(delta) <= DURATION_MAX_NANOS,
    ensures
        custom_clock(*final(t)) == (Clock {
            context: custom_clock(*old(t)).context,
            delta: duration_nanos(delta),
            elapsed: custom_clock(*old(t)).elapsed + duration_nanos(delta),
        }),
{
    t.advance_by(delta)
}

/// `Time::as_generic` copies delta and elapsed time into a clock without context.
#[verifier::external_body]
pub(crate) fn as_generic(t: &Time<CTime>) -> (generic: Time<()>)
    ensures
        generic_clock(generic) == (Clock {
            context: (),
            delta: custom_clock(*t).delta,
            elapsed: custom_clock(*t).elapsed,
        }),
{
    t.as_generic()
}

/// `Time::delta`, of the virtual clock: the step of its last advance.
#[verifier::external_body]
pub(crate) fn virtual_delta(t: &Time<Virtual>) -> (d: Duration)
    ensures
        duration_nanos(d) == virtual_clock(*t).delta,
{
    t.delta()
}

/// `Time::<Virtual>::is_paused` reads the pause flag of the virtual clock.
pub assume_specification[ Time::<Virtual>::is_paused ](t: &Time<Virtual>) -> (paused: bool)
    ensures
        paused == virtual_clock(*t).context.paused,
;

/// `Time::<Virtual>::set_max_delta` replaces the longest step of the virtual
/// clock and nothing else. It panics on a zero duration, which `requires`
/// leaves out.
pub assume_specification[ Time::<Virtual>::set_max_delta ](t: &mut Time<Virtual>, max_delta: Duration)
    requires
        duration_nanos(max_delta) != 0,
    ensures
        virtual_clock(*final(t)) == (Clock {
            context: VirtualSettings {
                max_delta: duration_nanos(max_delta),
                paused: virtual_clock(*old(t)).context.paused,
            },
            ..virtual_clock(*old(t))
        }),
;

/// `App::init_resource`, for the custom clock: where the world holds none
/// yet, it gets the default one, which starts from zero with the default
/// context; a clock that is there stays as it is.
#[verifier::external_body]
pub(crate) fn init_clock_resource(app: &mut App)
    ensures
        app_clock(*final(app)) == Some(
            match app_clock(*old(app)) {
                Some(clock) => clock,
                None => Clock { context: CTime::initial(), delta: 0, elapsed: 0 },
            },
        ),
{
    app.init_resource::<Time<CTime>>();
}

/// `World::get_resource_mut`, for the custom clock: it lends the clock that
/// the world holds, and what is written through the loan is what the world
/// holds afterwards. Where the world holds none, nothing changes.
#[verifier::external_body]
pub(crate) fn clock_resource(app: &mut App) -> (clock: Option<&mut Time<CTime>>)
    ensures
        match clock {
            Some(t) => app_clock(*old(app)) == Some(custom_clock(*t)) && app_clock(*final(app)) == Some(
                custom_clock(*final(t)),
            ),
            None => app_clock(*old(app)).is_none() && *final(app) == *old(app),
        },
{
    app.world_mut().get_resource_mut::<Time<CTime>>().map(Mut::into_inner)
}

} // verus!
