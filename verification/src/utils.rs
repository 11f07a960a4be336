//! Frame-kind markers, and the adapters that gate a system on one of them.

use vstd::prelude::*;

verus! {

/// Marker that is present while the application is updated through the
/// visual frame callback of the host.
#[derive(Clone, Copy, Debug, PartialEq, Eq, Structural)]
pub struct GodotUpdate;

/// Marker that is present while the application is updated through the
/// physics step callback of the host.
#[derive(Clone, Copy, Debug, PartialEq, Eq, Structural)]
pub struct GodotFixedUpdate;

/// The two callbacks of the host, each of which runs one scheduler pass.
#[derive(Clone, Copy, Debug, PartialEq, Eq, Structural)]
pub enum TickKind {
    /// The visual frame callback; its marker is `GodotUpdate`.
    Visual,
    /// The physics step callback; its marker is `GodotFixedUpdate`.
    Physics,
}

/// The markers that are present at one moment.
#[derive(Clone, Copy, Debug, PartialEq, Eq)]
pub struct Markers {
    pub update: Option<GodotUpdate>,
    pub fixed_update: Option<GodotFixedUpdate>,
}

impl Markers {
    /// No marker: the state between two scheduler passes.
    pub open spec fn absent() -> Markers {
        Markers { update: None, fixed_update: None }
    }

    /// The marker of `kind` and no other: the state during a pass of that kind.
    pub open spec fn only(kind: TickKind) -> Markers {
        match kind {
            TickKind::Visual => Markers { update: Some(GodotUpdate), fixed_update: None },
            TickKind::Physics => Markers { update: None, fixed_update: Some(GodotFixedUpdate) },
        }
    }

    /// Whether the marker of `kind` is present.
    pub open spec fn holds(self, kind: TickKind) -> bool {
        match kind {
            TickKind::Visual => self.update.is_some(),
            TickKind::Physics => self.fixed_update.is_some(),
        }
    }

    /// The two markers are never present together.
    pub open spec fn exclusive(self) -> bool {
        !(self.update.is_some() && self.fixed_update.is_some())
    }

    /// These markers with the one of `kind` present.
    pub open spec fn inserted(self, kind: TickKind) -> Markers {
        match kind {
            TickKind::Visual => Markers { update: Some(GodotUpdate), ..self },
            TickKind::Physics => Markers { fixed_update: Some(GodotFixedUpdate), ..self },
        }
    }

    /// These markers with the one of `kind` absent.
    pub open spec fn removed(self, kind: TickKind) -> Markers {
        match kind {
            TickKind::Visual => Markers { update: None, ..self },
            TickKind::Physics => Markers { fixed_update: None, ..self },
        }
    }

    /// Starts with no marker present.
    pub fn new() -> (markers: Markers)
        ensures
            markers == Markers::absent(),
    {
        Markers { update: None, fixed_update: None }
    }

    /// Tells whether the marker of `kind` is present.
    pub fn has(&self, kind: TickKind) -> (present: bool)
        ensures
            present == self.holds(kind),
    {
        match kind {
            TickKind::Visual => self.update.is_some(),
            TickKind::Physics => self.fixed_update.is_some(),
        }
    }

    /// Tells whether no marker is present.
    pub fn is_empty(&self) -> (empty: bool)
        ensures
            empty == (*self == Markers::absent()),
    {
        self.update.is_none() && self.fixed_update.is_none()
    }

    /// Makes the marker of `kind` present.
    pub fn insert(&mut self, kind: TickKind)
        ensures
            *final(self) == old(self).inserted(kind),
    {
        match kind {
            TickKind::Visual => {
                self.update = Some(GodotUpdate);
            },
            TickKind::Physics => {
                self.fixed_update = Some(GodotFixedUpdate);
            },
        }
    }

    /// Makes the marker of `kind` absent.
    pub fn remove(&mut self, kind: TickKind)
        ensures
            *final(self) == old(self).removed(kind),
    {
        match kind {
            TickKind::Visual => {
                self.update = None;
            },
            TickKind::Physics => {
                self.fixed_update = None;
            },
        }
    }
}

/// A system together with the marker that must be present for it to run.
pub struct GatedSystem<S> {
    pub system: S,
    pub marker: TickKind,
}

impl<S> GatedSystem<S> {
    /// Whether the system takes part in a pass during which `markers` are present.
    pub open spec fn runs_in(self, markers: Markers) -> bool {
        markers.holds(self.marker)
    }

    /// The run condition of the system: its marker is present.
    pub fn should_run(&self, markers: &Markers) -> (run: bool)
        ensures
            run == self.runs_in(*markers),
    {
        markers.has(self.marker)
    }
}

/// Adds `as_godot_fixed_update_system`, which schedules a system only for the
/// physics step.
pub trait AsGodotFixedUpdate: Sized {
    fn as_godot_fixed_update_system(self) -> (gated: GatedSystem<Self>)
        ensures
            gated == (GatedSystem { system: self, marker: TickKind::Physics }),
    ;
}

impl<T> AsGodotFixedUpdate for T {
    fn as_godot_fixed_update_system(self) -> (gated: GatedSystem<Self>) {
        GatedSystem { system: self, marker: TickKind::Physics }
    }
}

/// Adds `as_godot_update_system`, which schedules a system only for the
/// visual frame.
pub trait AsVisualSystem: Sized {
    fn as_godot_update_system(self) -> (gated: GatedSystem<Self>)
        ensures
            gated == (GatedSystem { system: self, marker: TickKind::Visual }),
    ;
}

impl<T> AsVisualSystem for T {
    fn as_godot_update_system(self) -> (gated: GatedSystem<Self>) {
        GatedSystem { system: self, marker: TickKind::Visual }
    }
}

/// During a pass of one kind, a gated system runs exactly when it is gated
/// on that kind.
pub proof fn lemma_gate_follows_pass<S>(gated: GatedSystem<S>, kind: TickKind)
    ensures
        gated.runs_in(Markers::only(kind)) <==> gated.marker == kind,
        !gated.runs_in(Markers::absent()),
{
}

/// While the markers are exclusive, a system gated on the visual frame and
/// one gated on the physics step never run in the same pass.
pub proof fn lemma_gates_are_disjoint<S, T>(visual: GatedSystem<S>, physics: GatedSystem<T>, markers: Markers)
    requires
        markers.exclusive(),
        visual.marker == TickKind::Visual,
        physics.marker == TickKind::Physics,
    ensures
        !(visual.runs_in(markers) && physics.runs_in(markers)),
{
}

} // verus!
