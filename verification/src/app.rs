//! The host of the embedded application.
//!
//! `BevyApp` owns the one instance of the application, says whether it exists
//! yet, and decides for each callback of the host whether a scheduler pass is
//! to run. The pass itself is run by the caller, inside whatever boundary
//! contains its faults; the caller reports how it ended.
//!
//! A call that needs the instance before it exists is dropped and answered
//! with `None`: nothing is queued for later.

use crate::timing::TimingPlugin;
use crate::utils::GodotFixedUpdate;
use crate::utils::GodotUpdate;
use crate::utils::Markers;
use crate::utils::TickKind;
use bevy::app::App;
use vstd::prelude::*;

verus! {

/// `App::new` makes a fresh application. Nothing is claimed of it.
pub assume_specification[ App::new ]() -> (app: App)
;

/// What is attached to a fresh application, besides what its author's
/// builder function registers.
#[derive(Clone, Copy, Debug, PartialEq, Eq, Structural)]
pub enum Plugin {
    TaskPool,
    Log,
    TypeRegistration,
    FrameCount,
    Diagnostics,
    /// The generic clock and the virtual clock.
    GenericTime,
    /// The time reconciliation pipeline, which needs the clocks of `GenericTime`.
    Timing,
    Hierarchy,
    PackedScene,
    /// The handle to the scene tree of the host, confined to its thread.
    SceneTree,
    /// The asset bridge; attached only where it is asked for.
    Assets,
}

/// Why the application could not be built.
#[derive(Clone, Copy, Debug, PartialEq, Eq, Structural)]
pub enum ConfigError {
    /// No builder function had been registered when the host asked for the
    /// application.
    MissingBuilder,
}

impl ConfigError {
    /// The message to stop with.
    pub fn message(&self) -> (text: &'static str)
        ensures
            text@ == "no app builder function was registered before the host got ready"@,
    {
        "no app builder function was registered before the host got ready"
    }
}

/// What `ready` did.
#[derive(Clone, Copy, Debug, PartialEq, Eq, Structural)]
pub enum Readiness {
    /// The application was built and stored.
    Built,
    /// The host runs in its editor: nothing was built.
    SkippedInEditor,
}

/// What the caller is to do for one callback of the host.
#[derive(Clone, Copy, Debug, PartialEq, Eq, Structural)]
pub enum TickAction {
    /// Run one scheduler pass on the instance, then report with `finish_pass`.
    RunPass,
    /// Do nothing.
    Skip,
}

/// A scheduler pass that did not complete. It is to be escalated, not
/// swallowed: the state of the scheduler can no longer be relied on.
#[derive(Clone, Copy, Debug, PartialEq, Eq, Structural)]
pub struct PassFault {
    /// The callback whose pass failed.
    pub kind: TickKind,
}

impl PassFault {
    /// What `message` returns for a failed pass of `kind`.
    pub open spec fn text_of(kind: TickKind) -> Seq<char> {
        match kind {
            TickKind::Visual => "bevy app update panicked during the visual tick"@,
            TickKind::Physics => "bevy app update panicked during the physics tick"@,
        }
    }

    /// The diagnostic to log, which names the callback whose pass failed.
    pub fn message(&self) -> (text: &'static str)
        ensures
            text@ == Self::text_of(self.kind),
    {
        match self.kind {
            TickKind::Visual => "bevy app update panicked during the visual tick",
            TickKind::Physics => "bevy app update panicked during the physics tick",
        }
    }
}

/// Where the host stands between and during scheduler passes.
struct PassState {
    markers: Markers,
    faulted: bool,
}

impl PassState {
    #[verifier::type_invariant]
    spec fn well_formed(self) -> bool {
        self.markers.exclusive() && (self.faulted ==> self.markers != Markers::absent())
    }

    spec fn idle(self) -> bool {
        self.markers == Markers::absent() && !self.faulted
    }

    spec fn in_pass(self, kind: TickKind) -> bool {
        self.markers == Markers::only(kind) && !self.faulted
    }

    spec fn halted(self, kind: TickKind) -> bool {
        self.markers == Markers::only(kind) && self.faulted
    }

    spec fn running(self) -> Option<TickKind> {
        if self.in_pass(TickKind::Visual) {
            Some(TickKind::Visual)
        } else if self.in_pass(TickKind::Physics) {
            Some(TickKind::Physics)
        } else {
            None
        }
    }

    fn new() -> (state: PassState)
        ensures
            state.idle(),
    {
        PassState { markers: Markers::new(), faulted: false }
    }

    fn markers(&self) -> (markers: Markers)
        ensures
            markers == self.markers,
            markers.exclusive(),
            self.faulted ==> markers != Markers::absent(),
    {
        proof {
            use_type_invariant(self);
        }
        self.markers
    }

    fn is_idle(&self) -> (idle: bool)
        ensures
            idle == self.idle(),
    {
        !self.faulted && self.markers.is_empty()
    }

    /// Makes the marker of `kind` present.
    fn begin(&mut self, kind: TickKind)
        requires
            old(self).idle(),
        ensures
            final(self).in_pass(kind),
    {
        let mut markers = self.markers;
        markers.insert(kind);
        self.markers = markers;
    }

    /// Ends the pass that is running, if one is.
    fn finish(&mut self, completed: bool) -> (result: Result<(), PassFault>)
        ensures
            match old(self).running() {
                Some(kind) => if completed {
                    result.is_ok() && final(self).idle()
                } else {
                    result == Err::<(), PassFault>(PassFault { kind }) && final(self).halted(kind)
                },
                None => result.is_ok() && *final(self) == *old(self),
            },
    {
        proof {
            use_type_invariant(&*self);
        }
        if self.faulted {
            Ok(())
        } else if self.markers.has(TickKind::Visual) {
            assert(self.markers.update == Some(GodotUpdate));
            self.end(TickKind::Visual, completed)
        } else if self.markers.has(TickKind::Physics) {
            assert(self.markers.fixed_update == Some(GodotFixedUpdate));
            self.end(TickKind::Physics, completed)
        } else {
            Ok(())
        }
    }

    /// Ends the pass of `kind`.
    fn end(&mut self, kind: TickKind, completed: bool) -> (result: Result<(), PassFault>)
        requires
            old(self).in_pass(kind),
        ensures
            completed ==> result.is_ok() && final(self).idle(),
            !completed ==> result == Err::<(), PassFault>(PassFault { kind }) && final(self).halted(kind),
    {
        if completed {
            let mut markers = self.markers;
            markers.remove(kind);
            self.markers = markers;
            Ok(())
        } else {
            self.faulted = true;
            Err(PassFault { kind })
        }
    }
}

/// The host of the one embedded application.
pub struct BevyApp {
    app: Option<App>,
    pass: PassState,
}

impl BevyApp {
    /// The instance, once it has been stored.
    pub closed spec fn instance(self) -> Option<App> {
        self.app
    }

    /// The markers that are present.
    pub closed spec fn markers(self) -> Markers {
        self.pass.markers
    }

    /// Whether a pass has failed. A host in this state runs no further pass.
    pub closed spec fn faulted(self) -> bool {
        self.pass.faulted
    }

    /// Between two passes: no marker is present and no pass has failed.
    pub open spec fn idle(self) -> bool {
        self.markers() == Markers::absent() && !self.faulted()
    }

    /// During the pass of `kind`: its marker and no other is present.
    pub open spec fn in_pass(self, kind: TickKind) -> bool {
        self.markers() == Markers::only(kind) && !self.faulted()
    }

    /// After the pass of `kind` has failed: its marker is still present.
    pub open spec fn halted(self, kind: TickKind) -> bool {
        self.markers() == Markers::only(kind) && self.faulted()
    }

    /// The callback whose pass is running, if one is.
    pub open spec fn running(self) -> Option<TickKind> {
        if self.in_pass(TickKind::Visual) {
            Some(TickKind::Visual)
        } else if self.in_pass(TickKind::Physics) {
            Some(TickKind::Physics)
        } else {
            None
        }
    }

    /// What a callback of the host leads to: a pass, unless the host runs in
    /// its editor, has no instance, is in a pass already or has seen one fail.
    pub open spec fn decision(self, editor_hint: bool) -> TickAction {
        if !editor_hint && self.instance().is_some() && self.idle() {
            TickAction::RunPass
        } else {
            TickAction::Skip
        }
    }

    /// The fixed order in which the plugins are attached.
    pub open spec fn plugin_order(assets: bool) -> Seq<Plugin> {
        let mandatory = seq![
            Plugin::TaskPool,
            Plugin::Log,
            Plugin::TypeRegistration,
            Plugin::FrameCount,
            Plugin::Diagnostics,
            Plugin::GenericTime,
            Plugin::Timing,
            Plugin::Hierarchy,
            Plugin::PackedScene,
            Plugin::SceneTree,
        ];
        if assets {
            mandatory.push(Plugin::Assets)
        } else {
            mandatory
        }
    }

    /// During a pass, and after a failed one, exactly one marker is present:
    /// the one of the callback that started the pass. Never both, never none.
    pub proof fn lemma_one_marker_during_pass(host: BevyApp, kind: TickKind)
        requires
            host.in_pass(kind) || host.halted(kind),
        ensures
            host.markers().holds(kind),
            forall|other: TickKind| other != kind ==> !host.markers().holds(other),
            host.markers().exclusive(),
            host.markers() != Markers::absent(),
            host.in_pass(kind) ==> host.running() == Some(kind),
    {
    }

    /// Between two passes no marker is present, and no pass is running.
    pub proof fn lemma_no_marker_between_passes(host: BevyApp)
        requires
            host.idle(),
        ensures
            forall|kind: TickKind| !host.markers().holds(kind),
            host.running().is_none(),
    {
    }

    /// A host without an instance, between passes.
    pub fn init() -> (host: BevyApp)
        ensures
            host.instance().is_none(),
            host.idle(),
    {
        BevyApp { app: None, pass: PassState::new() }
    }

    /// Tells whether the instance exists.
    pub fn has_instance(&self) -> (present: bool)
        ensures
            present == self.instance().is_some(),
    {
        self.app.is_some()
    }

    /// The markers that are present: none between passes, exactly one during
    /// a pass and after a failed one, never both. Every host is in one of
    /// these states.
    pub fn current_markers(&self) -> (markers: Markers)
        ensures
            markers == self.markers(),
            markers.exclusive(),
            self.idle() || exists|kind: TickKind| self.in_pass(kind) || self.halted(kind),
    {
        let markers = self.pass.markers();
        proof {
            if markers.update.is_some() {
                assert(markers.update == Some(GodotUpdate));
                assert(self.in_pass(TickKind::Visual) || self.halted(TickKind::Visual));
            } else if markers.fixed_update.is_some() {
                assert(markers.fixed_update == Some(GodotFixedUpdate));
                assert(self.in_pass(TickKind::Physics) || self.halted(TickKind::Physics));
            }
        }
        markers
    }

    /// Tells whether a pass has failed.
    pub fn is_faulted(&self) -> (faulted: bool)
        ensures
            faulted == self.faulted(),
    {
        self.pass.faulted
    }

    /// Stores `app` as the instance, in place of an earlier one if there is one.
    pub fn set_bevy_app(&mut self, app: App)
        ensures
            final(self).instance() == Some(app),
            final(self).markers() == old(self).markers(),
            final(self).faulted() == old(self).faulted(),
    {
        self.app = Some(app);
    }

    /// Calls `f` on the instance at once and returns its result. Without an
    /// instance `f` is dropped, not kept for later, and the result is `None`.
    pub fn with_bevy_app<F, R>(&mut self, f: F) -> (result: Option<R>) where F: FnOnce(&mut App) -> R
        requires
            forall|app: &mut App| old(self).instance() == Some(*app) ==> call_requires(f, (app,)),
        ensures
            final(self).markers() == old(self).markers(),
            final(self).faulted() == old(self).faulted(),
            match old(self).instance() {
                Some(before) => match (result, final(self).instance()) {
                    (Some(out), Some(after)) => exists|app: &mut App|
                        *app == before && *final(app) == after && call_ensures(f, (app,), out),
                    _ => false,
                },
                None => result.is_none() && final(self).instance().is_none(),
            },
    {
        match &mut self.app {
            Some(app) => Some(f(app)),
            None => None,
        }
    }

    /// The plugins to attach, in the order in which they are to be attached.
    /// A later one may read what an earlier one has set up.
    pub fn plugins(assets: bool) -> (order: Vec<Plugin>)
        ensures
            order@ == Self::plugin_order(assets),
    {
        let mut order: Vec<Plugin> = Vec::new();
        order.push(Plugin::TaskPool);
        order.push(Plugin::Log);
        order.push(Plugin::TypeRegistration);
        order.push(Plugin::FrameCount);
        order.push(Plugin::Diagnostics);
        order.push(Plugin::GenericTime);
        order.push(Plugin::Timing);
        order.push(Plugin::Hierarchy);
        order.push(Plugin::PackedScene);
        order.push(Plugin::SceneTree);
        if assets {
            order.push(Plugin::Assets);
        }
        assert(order@ =~= Self::plugin_order(assets));
        order
    }

    /// The one-time start of the host.
    ///
    /// In the editor of the host nothing is built. Otherwise a builder
    /// function must be there: without one the result is `MissingBuilder`
    /// and nothing is built. With one, a fresh application is made, the
    /// builder is applied to it, `attach` is called for each plugin of
    /// `plugins(assets)` in that order, and the application is stored as the
    /// instance.
    pub fn ready<B, P>(&mut self, editor_hint: bool, builder: Option<B>, assets: bool, attach: P) -> (result:
        Result<Readiness, ConfigError>) where B: FnOnce(&mut App), P: Fn(&mut App, Plugin)
        requires
            forall|app: &mut App| builder.is_some() ==> call_requires(builder.unwrap(), (app,)),
            forall|app: &mut App, plugin: Plugin| call_requires(attach, (app, plugin)),
        ensures
            final(self).markers() == old(self).markers(),
            final(self).faulted() == old(self).faulted(),
            editor_hint ==> result == Ok::<Readiness, ConfigError>(Readiness::SkippedInEditor) && *final(self) == *old(
                self,
            ),
            !editor_hint && builder.is_none() ==> result == Err::<Readiness, ConfigError>(
                ConfigError::MissingBuilder,
            ) && *final(self) == *old(self),
            !editor_hint && builder.is_some() ==> result == Ok::<Readiness, ConfigError>(Readiness::Built) && exists|
                stages: Seq<App>,
            |
                {
                    &&& stages.len() == Self::plugin_order(assets).len() + 2
                    &&& final(self).instance() == Some(stages.last())
                    &&& exists|app: &mut App|
                        *app == stages[0] && *final(app) == stages[1] && call_ensures(
                            builder.unwrap(),
                            (app,),
                            (),
                        )
                    &&& forall|i: int|
                        0 <= i < Self::plugin_order(assets).len() ==> {
                            let plugin = #[trigger] Self::plugin_order(assets)[i];
                            exists|app: &mut App|
                                *app == stages[i + 1] && *final(app) == stages[i + 2] && call_ensures(
                                    attach,
                                    (app, plugin),
                                    (),
                                )
                        }
                },
    {
        if editor_hint {
            return Ok(Readiness::SkippedInEditor);
        }
        let builder = match builder {
            Some(builder) => builder,
            None => {
                return Err(ConfigError::MissingBuilder);
            },
        };
        let mut app = App::new();
        let ghost fresh = app;
        builder(&mut app);
        let ghost mut stages: Seq<App> = seq![fresh, app];
        let order = Self::plugins(assets);
        let mut i: usize = 0;
        while i < order.len()
            invariant
                i <= order.len(),
                order@ == Self::plugin_order(assets),
                stages.len() == i + 2,
                stages.last() == app,
                forall|app: &mut App, plugin: Plugin| call_requires(attach, (app, plugin)),
                forall|j: int|
                    0 <= j < i ==> {
                        let plugin = #[trigger] Self::plugin_order(assets)[j];
                        exists|m: &mut App|
                            *m == stages[j + 1] && *final(m) == stages[j + 2] && call_ensures(
                                attach,
                                (m, plugin),
                                (),
                            )
                    },
                exists|m: &mut App| *m == stages[0] && *final(m) == stages[1] && call_ensures(builder, (m,), ()),
            decreases order.len() - i,
        {
            attach(&mut app, order[i]);
            proof {
                stages = stages.push(app);
            }
            i = i + 1;
        }
        self.set_bevy_app(app);
        Ok(Readiness::Built)
    }

    /// Decides what a callback of the host leads to.
    fn decide(&self, editor_hint: bool) -> (action: TickAction)
        ensures
            action == self.decision(editor_hint),
    {
        if editor_hint || self.app.is_none() || !self.pass.is_idle() {
            TickAction::Skip
        } else {
            TickAction::RunPass
        }
    }

    /// The visual frame callback of the host, with the delta of the frame in
    /// nanoseconds.
    ///
    /// In the editor of the host, without an instance, during a pass and
    /// after a failed pass, it does nothing and returns `Skip`. Otherwise it
    /// records the delta in the context of the custom clock, makes the marker
    /// of the visual frame present and returns `RunPass`.
    pub fn process(&mut self, delta_time: u64, editor_hint: bool) -> (action: TickAction)
        ensures
            action == old(self).decision(editor_hint),
            action == TickAction::Skip ==> *final(self) == *old(self),
            action == TickAction::RunPass ==> final(self).in_pass(TickKind::Visual)
                && final(self).instance().is_some() && TimingPlugin::godot_dt_recorded(
                old(self).instance().unwrap(),
                final(self).instance().unwrap(),
                delta_time,
            ),
    {
        let action = self.decide(editor_hint);
        match action {
            TickAction::RunPass => {
                match &mut self.app {
                    Some(app) => {
                        TimingPlugin::update_godot_dt(delta_time, app);
                    },
                    None => {},
                }
                self.pass.begin(TickKind::Visual);
            },
            TickAction::Skip => {},
        }
        action
    }

    /// The physics step callback of the host, with the delta of the step in
    /// nanoseconds.
    ///
    /// In the editor of the host, without an instance, during a pass and
    /// after a failed pass, it does nothing and returns `Skip`. Otherwise it
    /// records the delta in the context of the custom clock, makes the marker
    /// of the physics step present and returns `RunPass`.
    pub fn physics_process(&mut self, fixed_delta: u64, editor_hint: bool) -> (action: TickAction)
        ensures
            action == old(self).decision(editor_hint),
            action == TickAction::Skip ==> *final(self) == *old(self),
            action == TickAction::RunPass ==> final(self).in_pass(TickKind::Physics)
                && final(self).instance().is_some() && TimingPlugin::godot_fixed_dt_recorded(
                old(self).instance().unwrap(),
                final(self).instance().unwrap(),
                fixed_delta,
            ),
    {
        let action = self.decide(editor_hint);
        match action {
            TickAction::RunPass => {
                match &mut self.app {
                    Some(app) => {
                        TimingPlugin::update_godot_fixed_dt(fixed_delta, app);
                    },
                    None => {},
                }
                self.pass.begin(TickKind::Physics);
            },
            TickAction::Skip => {},
        }
        action
    }

    /// Takes the report of how the pass ended.
    ///
    /// A completed pass removes its marker. A failed pass is returned as a
    /// `PassFault` that names its callback; its marker stays, and the host
    /// runs no further pass. Outside a pass nothing happens.
    pub fn finish_pass(&mut self, completed: bool) -> (result: Result<(), PassFault>)
        ensures
            final(self).instance() == old(self).instance(),
            match old(self).running() {
                Some(kind) => if completed {
                    result.is_ok() && final(self).idle()
                } else {
                    result == Err::<(), PassFault>(PassFault { kind }) && final(self).halted(kind)
                },
                None => result.is_ok() && *final(self) == *old(self),
            },
    {
        self.pass.finish(completed)
    }
}

} // verus!
