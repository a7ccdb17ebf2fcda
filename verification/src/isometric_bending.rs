//! Bending constraint between two triangles that share an edge.

use bevy::ecs::entity::EntityMapper;
use vstd::prelude::*;

use crate::body::BodyId;
use crate::constraint::XpbdConstraint;
use crate::mapper::remap_all;

verus! {

/// Keeps the fold between two adjacent triangles at its rest curvature.
///
/// ```text
///              pb
///            /-^<\
///       e1/--  |  --\e4
///      /--     |     --\
/// pd <-        e0       -> pc
///      \--     |     --/
///       e2\--  |  --/e3
///            \>|-/
///              pa
/// ```
///
/// The triangles share the edge from `entity1` (`pa`) to `entity2` (`pb`);
/// `entity3` (`pc`) and `entity4` (`pd`) are their apexes. `S` is the host's
/// scalar.
#[derive(Debug, PartialEq)]
pub struct IsometricBendingConstraint<S> {
    /// Pivot body, shared by both triangles.
    pub entity1: BodyId,
    /// The other body shared by both triangles.
    pub entity2: BodyId,
    /// Apex of the first triangle.
    pub entity3: BodyId,
    /// Apex of the second triangle.
    pub entity4: BodyId,
    /// The quadratic form `Q` of the rest state, four rows of four entries,
    /// fixed when the constraint is made.
    pub initial_bending_energy: [[S; 4]; 4],
    /// Inverse stiffness, in metres per newton.
    pub compliance: S,
}

impl<S: Copy> Clone for IsometricBendingConstraint<S> {
    fn clone(&self) -> (copy: Self)
        ensures
            copy == *self,
    {
        *self
    }
}

impl<S: Copy> Copy for IsometricBendingConstraint<S> {

}

impl<S: Copy> IsometricBendingConstraint<S> {
    /// A bending constraint over the four bodies with the given rest form
    /// and compliance.
    pub fn new(
        entity1: BodyId,
        entity2: BodyId,
        entity3: BodyId,
        entity4: BodyId,
        initial_bending_energy: [[S; 4]; 4],
        compliance: S,
    ) -> (bend: Self)
        ensures
            bend == (IsometricBendingConstraint {
                entity1,
                entity2,
                entity3,
                entity4,
                initial_bending_energy,
                compliance,
            }),
    {
        IsometricBendingConstraint {
            entity1,
            entity2,
            entity3,
            entity4,
            initial_bending_energy,
            compliance,
        }
    }

    /// The same constraint with another compliance.
    pub fn with_compliance(self, compliance: S) -> (bend: Self)
        ensures
            bend == (IsometricBendingConstraint { compliance, ..self }),
    {
        IsometricBendingConstraint { compliance, ..self }
    }
}

impl<S: Copy> XpbdConstraint<4> for IsometricBendingConstraint<S> {
    open spec fn bodies(&self) -> Seq<BodyId> {
        seq![self.entity1, self.entity2, self.entity3, self.entity4]
    }

    open spec fn rebound(&self, bodies: Seq<BodyId>) -> Self {
        IsometricBendingConstraint {
            entity1: bodies[0],
            entity2: bodies[1],
            entity3: bodies[2],
            entity4: bodies[3],
            ..*self
        }
    }

    fn entities(&self) -> (ids: [BodyId; 4]) {
        [self.entity1, self.entity2, self.entity3, self.entity4]
    }

    fn clear_lagrange_multipliers(&mut self) {
    }

    fn map_entities(&mut self, mapper: &mut EntityMapper) {
        let mapped = remap_all(mapper, self.entities());
        self.entity1 = mapped[0];
        self.entity2 = mapped[1];
        self.entity3 = mapped[2];
        self.entity4 = mapped[3];
    }
}

} // verus!
