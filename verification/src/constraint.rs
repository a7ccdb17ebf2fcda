//! What every constraint kind offers, whatever its correction rule.

use bevy::ecs::entity::EntityMapper;
use vstd::prelude::*;

use crate::body::BodyId;
use crate::mapper::{fresh_needed, mapper_entries, mapper_room, remaps};

verus! {

/// A constraint over exactly `K` bodies.
pub trait XpbdConstraint<const K: usize>: Sized {
    /// The bodies the constraint binds, in the order its rule reads them.
    spec fn bodies(&self) -> Seq<BodyId>;

    /// The same constraint binding `bodies` instead.
    spec fn rebound(&self, bodies: Seq<BodyId>) -> Self;

    /// The handles of the `K` bodies, in the constraint's own fixed order.
    fn entities(&self) -> (ids: [BodyId; K])
        ensures
            ids@ == self.bodies(),
    ;

    /// Drops what the constraint accumulated within the current substep.
    /// No constraint kind keeps such state, so nothing changes.
    fn clear_lagrange_multipliers(&mut self)
        ensures
            *final(self) == *old(self),
    ;

    /// Rewrites every stored handle through `mapper`, slot by slot.
    fn map_entities(&mut self, mapper: &mut EntityMapper)
        requires
            mapper_room(*old(mapper)) >= fresh_needed(
                mapper_entries(*old(mapper)).dom(),
                old(self).bodies(),
            ),
        ensures
            remaps(*old(mapper), *final(mapper), old(self).bodies(), final(self).bodies()),
            *final(self) == old(self).rebound(final(self).bodies()),
    ;
}

} // verus!
