//! Distance constraint between two bodies.

use bevy::ecs::entity::EntityMapper;
use vstd::prelude::*;

use crate::body::BodyId;
use crate::constraint::XpbdConstraint;
use crate::mapper::remap_all;

verus! {

/// Keeps two bodies at a rest distance.
///
/// `S` is the host's scalar. A compliance of zero makes the constraint
/// maximally stiff; larger values make it softer.
#[derive(Debug, PartialEq)]
pub struct EdgeConstraint<S> {
    /// First body of the edge.
    pub entity1: BodyId,
    /// Second body of the edge.
    pub entity2: BodyId,
    /// Distance the edge is driven towards.
    pub rest_length: S,
    /// Inverse stiffness, in metres per newton.
    pub compliance: S,
}

impl<S: Copy> Clone for EdgeConstraint<S> {
    fn clone(&self) -> (copy: Self)
        ensures
            copy == *self,
    {
        *self
    }
}

impl<S: Copy> Copy for EdgeConstraint<S> {

}

impl<S: Copy> EdgeConstraint<S> {
    /// An edge between two bodies with the given rest length and compliance.
    pub fn new(entity1: BodyId, entity2: BodyId, rest_length: S, compliance: S) -> (edge: Self)
        ensures
            edge == (EdgeConstraint { entity1, entity2, rest_length, compliance }),
    {
        EdgeConstraint { entity1, entity2, rest_length, compliance }
    }

    /// The same edge with another compliance.
    pub fn with_compliance(self, compliance: S) -> (edge: Self)
        ensures
            edge == (EdgeConstraint { compliance, ..self }),
    {
        EdgeConstraint { compliance, ..self }
    }

    /// The same edge with another rest length.
    pub fn with_rest_length(self, rest_length: S) -> (edge: Self)
        ensures
            edge == (EdgeConstraint { rest_length, ..self }),
    {
        EdgeConstraint { rest_length, ..self }
    }
}

impl<S: Copy> XpbdConstraint<2> for EdgeConstraint<S> {
    open spec fn bodies(&self) -> Seq<BodyId> {
        seq![self.entity1, self.entity2]
    }

    open spec fn rebound(&self, bodies: Seq<BodyId>) -> Self {
        EdgeConstraint { entity1: bodies[0], entity2: bodies[1], ..*self }
    }

    fn entities(&self) -> (ids: [BodyId; 2]) {
        [self.entity1, self.entity2]
    }

    fn clear_lagrange_multipliers(&mut self) {
    }

    fn map_entities(&mut self, mapper: &mut EntityMapper) {
        let mapped = remap_all(mapper, self.entities());
        self.entity1 = mapped[0];
        self.entity2 = mapped[1];
    }
}

} // verus!
