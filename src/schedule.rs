//! The frame's phases and the order in which they run.

use vstd::prelude::*;

verus! {

/// The schedule that runs the bridge's per-frame work.
#[derive(Clone, Copy, Debug, PartialEq, Eq, Structural, Hash)]
pub struct KotoSchedule;

/// The phases of one frame, in the order in which they run.
#[derive(Clone, Copy, Debug, PartialEq, Eq, Structural, Hash)]
pub enum KotoUpdate {
    /// Load and compile the script when a load was requested.
    Compile,
    /// Housekeeping before the script's update functions run: marking and
    /// despawning entities, window notifications.
    PreUpdate,
    /// The script's global update and the per-entity update callbacks.
    Update,
    /// Applying what the update produced: spawning entities, resolving their
    /// identities, tracking new script dependencies.
    PostUpdate,
}

impl KotoUpdate {
    /// The position of the phase within a frame.
    pub open spec fn rank(self) -> nat {
        match self {
            KotoUpdate::Compile => 0,
            KotoUpdate::PreUpdate => 1,
            KotoUpdate::Update => 2,
            KotoUpdate::PostUpdate => 3,
        }
    }

    /// The position of the phase within a frame, counted from zero.
    pub fn order(&self) -> (r: u8)
        ensures
            r == self.rank(),
    {
        match self {
            KotoUpdate::Compile => 0,
            KotoUpdate::PreUpdate => 1,
            KotoUpdate::Update => 2,
            KotoUpdate::PostUpdate => 3,
        }
    }

    /// The phase that follows within the same frame, if any.
    pub fn next(&self) -> (r: Option<KotoUpdate>)
        ensures
            r.is_none() <==> *self == KotoUpdate::PostUpdate,
            r.is_some() ==> r->Some_0.rank() == self.rank() + 1,
    {
        match self {
            KotoUpdate::Compile => Some(KotoUpdate::PreUpdate),
            KotoUpdate::PreUpdate => Some(KotoUpdate::Update),
            KotoUpdate::Update => Some(KotoUpdate::PostUpdate),
            KotoUpdate::PostUpdate => None,
        }
    }
}

/// True when the point (`frame_a`, `phase_a`) of the frame loop comes strictly
/// before (`frame_b`, `phase_b`).
pub open spec fn point_before(
    frame_a: nat,
    phase_a: KotoUpdate,
    frame_b: nat,
    phase_b: KotoUpdate,
) -> bool {
    frame_a < frame_b || (frame_a == frame_b && phase_a.rank() < phase_b.rank())
}

/// Tells whether the point (`frame_a`, `phase_a`) comes strictly before
/// (`frame_b`, `phase_b`).
pub fn is_before(frame_a: u64, phase_a: KotoUpdate, frame_b: u64, phase_b: KotoUpdate) -> (r:
    bool)
    ensures
        r == point_before(frame_a as nat, phase_a, frame_b as nat, phase_b),
{
    frame_a < frame_b || (frame_a == frame_b && phase_a.order() < phase_b.order())
}

} // verus!
