//! Dragging a body with the pointer.
//!
//! While the pointer holds a body, the body is made immovable for the solver
//! and carried along the pointer's ray at the distance at which it was
//! grabbed. This module decides what a frame does: which body a press grabs,
//! when a body's inverse mass is taken away and given back, and which body is
//! carried. The host reads the pointer, measures distances and moves the body.

use vstd::prelude::*;

use crate::body::BodyId;

verus! {

/// Marks a body as one the pointer may drag.
#[derive(Clone, Copy, Debug, PartialEq, Eq, Structural)]
pub struct DragParticle {
    /// Whether the body can be grabbed at present.
    pub enabled: bool,
}

impl DragParticle {
    /// A marker that lets the body be grabbed.
    pub fn enabled() -> (marker: Self)
        ensures
            marker.enabled,
    {
        DragParticle { enabled: true }
    }
}

impl Default for DragParticle {
    /// A marker that does not let the body be grabbed.
    fn default() -> (marker: Self)
        ensures
            !marker.enabled,
    {
        DragParticle { enabled: false }
    }
}

/// What is remembered of a body while it is held.
#[derive(Debug, PartialEq)]
pub struct DragInfo<S> {
    /// The held body.
    pub id: BodyId,
    /// Its distance from the origin of the pointer's ray when it was grabbed.
    pub grab_distance: S,
    /// The inverse mass it had when it was grabbed.
    pub grab_inverse_mass: S,
}

impl<S: Copy> Clone for DragInfo<S> {
    fn clone(&self) -> (copy: Self)
        ensures
            copy == *self,
    {
        *self
    }
}

impl<S: Copy> Copy for DragInfo<S> {

}

/// A body as a press sees it.
#[derive(Debug, PartialEq)]
pub struct Candidate<S> {
    /// The body's drag marker.
    pub marker: DragParticle,
    /// How far the body lies off the pointer's ray, as a key that grows with
    /// the distance: of two bodies the nearer one has the smaller key.
    pub off_ray: u64,
    /// What to remember of the body if it is grabbed.
    pub info: DragInfo<S>,
}

impl<S: Copy> Clone for Candidate<S> {
    fn clone(&self) -> (copy: Self)
        ensures
            copy == *self,
    {
        *self
    }
}

impl<S: Copy> Copy for Candidate<S> {

}

/// What a frame does to the inverse mass of a body.
#[derive(Debug, PartialEq)]
pub enum MassChange<S> {
    /// Nothing.
    Keep,
    /// The body was grabbed: its inverse mass becomes zero.
    Freeze(BodyId),
    /// The body was let go: its inverse mass becomes the given one again.
    Restore(BodyId, S),
}

/// The outcome of one frame.
#[derive(Debug, PartialEq)]
pub struct DragStep<S> {
    /// What is held after the frame.
    pub state: Option<DragInfo<S>>,
    /// What happens to a body's inverse mass.
    pub mass: MassChange<S>,
    /// The body to place on the pointer's ray, with its distance from the
    /// ray's origin.
    pub carry: Option<(BodyId, S)>,
}

/// The body can be grabbed and lies off the ray by less than `reach`.
pub open spec fn in_reach<S>(candidate: Candidate<S>, reach: u64) -> bool {
    candidate.marker.enabled && candidate.off_ray < reach
}

/// Candidate `i` is the one a press grabs: it is in reach, no candidate in
/// reach is nearer to the ray, and of those equally near it comes first.
pub open spec fn is_closest<S>(candidates: Seq<Candidate<S>>, reach: u64, i: int) -> bool {
    &&& 0 <= i < candidates.len()
    &&& in_reach(candidates[i], reach)
    &&& forall|j: int|
        0 <= j < candidates.len() && in_reach(#[trigger] candidates[j], reach)
            ==> candidates[i].off_ray <= candidates[j].off_ray
    &&& forall|j: int|
        0 <= j < i && in_reach(#[trigger] candidates[j], reach) ==> candidates[i].off_ray
            < candidates[j].off_ray
}

/// What a press grabs among `candidates`, if anything.
pub open spec fn grabbed<S>(candidates: Seq<Candidate<S>>, reach: u64) -> Option<DragInfo<S>> {
    if exists|i: int| is_closest(candidates, reach, i) {
        Some(candidates[choose|i: int| is_closest(candidates, reach, i)].info)
    } else {
        None
    }
}

/// What a frame does, given what was held before it, what the pointer's
/// button did, and what a press would grab.
///
/// A press that grabs a body holds it from now on and freezes it; a press
/// that grabs nothing changes nothing. A release, in a frame without a
/// press, lets go of what was held and restores its inverse mass. Whatever is
/// held after that is carried.
pub open spec fn drag_step<S>(
    state: Option<DragInfo<S>>,
    just_pressed: bool,
    just_released: bool,
    grab: Option<DragInfo<S>>,
) -> DragStep<S> {
    let (next, mass) = if just_pressed {
        match grab {
            Some(info) => (Some(info), MassChange::Freeze(info.id)),
            None => (state, MassChange::Keep),
        }
    } else if just_released {
        match state {
            Some(info) => (None, MassChange::Restore(info.id, info.grab_inverse_mass)),
            None => (None, MassChange::Keep),
        }
    } else {
        (state, MassChange::Keep)
    };
    let carry = match next {
        Some(info) => Some((info.id, info.grab_distance)),
        None => None,
    };
    DragStep { state: next, mass, carry }
}

/// At most one candidate is the closest.
pub proof fn lemma_closest_is_unique<S>(candidates: Seq<Candidate<S>>, reach: u64, i: int, j: int)
    requires
        is_closest(candidates, reach, i),
        is_closest(candidates, reach, j),
    ensures
        i == j,
{
}

/// What a press takes away, the release gives back: after a press that
/// grabbed a body, a release in a later frame without a press restores that
/// body to the inverse mass it was grabbed with and leaves nothing held.
pub proof fn lemma_release_gives_back<S>(
    state: Option<DragInfo<S>>,
    just_released: bool,
    info: DragInfo<S>,
    later_grab: Option<DragInfo<S>>,
)
    ensures
        ({
            let press = drag_step(state, true, just_released, Some(info));
            let release = drag_step(press.state, false, true, later_grab);
            &&& press.state == Some(info)
            &&& press.mass == MassChange::<S>::Freeze(info.id)
            &&& release.state == None::<DragInfo<S>>
            &&& release.mass == MassChange::Restore(info.id, info.grab_inverse_mass)
            &&& release.carry == None::<(BodyId, S)>
        }),
{
}

/// While a body is held and the button does nothing, the body stays held,
/// keeps its mass and is carried.
pub proof fn lemma_holding_carries<S>(info: DragInfo<S>, grab: Option<DragInfo<S>>)
    ensures
        drag_step(Some(info), false, false, grab) == (DragStep {
            state: Some(info),
            mass: MassChange::Keep,
            carry: Some((info.id, info.grab_distance)),
        }),
{
}

/// The index of the candidate that a press grabs: the first of those nearest
/// to the ray among the candidates in reach.
pub fn closest<S: Copy>(candidates: &[Candidate<S>], reach: u64) -> (picked: Option<usize>)
    ensures
        match picked {
            Some(i) => is_closest(candidates@, reach, i as int),
            None => forall|j: int|
                0 <= j < candidates@.len() ==> !in_reach(#[trigger] candidates@[j], reach),
        },
{
    let mut picked: Option<usize> = None;
    let mut i: usize = 0;
    while i < candidates.len()
        invariant
            i <= candidates.len(),
            match picked {
                Some(p) => p < i && is_closest(candidates@.take(i as int), reach, p as int),
                None => forall|j: int|
                    0 <= j < i ==> !in_reach(#[trigger] candidates@[j], reach),
            },
        decreases candidates.len() - i,
    {
        let candidate = candidates[i];
        let nearer = match picked {
            Some(p) => candidate.off_ray < candidates[p].off_ray,
            None => true,
        };
        if candidate.marker.enabled && candidate.off_ray < reach && nearer {
            picked = Some(i);
        }
        i += 1;
    }
    assert(candidates@.take(i as int) =~= candidates@);
    picked
}

/// One frame of dragging.
///
/// `state` is what was held before the frame, `just_pressed` and
/// `just_released` say what the pointer's button did in it, `candidates` are
/// the bodies a press chooses from, and `reach` is the key of the distance
/// off the ray from which on a body is out of reach.
pub fn drag_particles<S: Copy>(
    state: Option<DragInfo<S>>,
    just_pressed: bool,
    just_released: bool,
    candidates: &[Candidate<S>],
    reach: u64,
) -> (step: DragStep<S>)
    ensures
        step == drag_step(state, just_pressed, just_released, grabbed(candidates@, reach)),
{
    let mut next = state;
    let mut mass = MassChange::Keep;
    if just_pressed {
        match closest(candidates, reach) {
            Some(i) => {
                let info = candidates[i].info;
                next = Some(info);
                mass = MassChange::Freeze(info.id);
            },
            None => {},
        }
    } else if just_released {
        if let Some(info) = state {
            mass = MassChange::Restore(info.id, info.grab_inverse_mass);
        }
        next = None;
    }
    let carry = match next {
        Some(info) => Some((info.id, info.grab_distance)),
        None => None,
    };
    DragStep { state: next, mass, carry }
}

} // verus!
