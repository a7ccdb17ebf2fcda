//! Volume constraint over the four corners of a tetrahedron.

use bevy::ecs::entity::EntityMapper;
use vstd::prelude::*;

use crate::body::BodyId;
use crate::constraint::XpbdConstraint;
use crate::mapper::remap_all;

verus! {

/// Sign of the signed volume of four points taken in a given order.
#[derive(Clone, Copy, Debug, PartialEq, Eq, Structural)]
pub enum Orientation {
    /// The volume is greater than zero.
    Positive,
    /// The volume is less than zero.
    Negative,
    /// The volume is neither: the points are coplanar, or it is no number.
    Degenerate,
}

/// A signed volume as the host measured it, with the sign it read off.
#[derive(Debug, PartialEq)]
pub struct SignedVolume<S> {
    /// The measured volume.
    pub volume: S,
    /// Its sign.
    pub orientation: Orientation,
}

impl<S: Copy> Clone for SignedVolume<S> {
    fn clone(&self) -> (copy: Self)
        ensures
            copy == *self,
    {
        *self
    }
}

impl<S: Copy> Copy for SignedVolume<S> {

}

/// Why a volume constraint could not be made.
#[derive(Debug, PartialEq)]
pub enum VolumeError<S> {
    /// The rest volume, given here, is not positive even after the second
    /// and third corner were exchanged.
    NonPositiveRestVolume(S),
}

/// Keeps the signed volume of a tetrahedron at its rest volume.
///
/// `S` is the host's scalar.
#[derive(Debug, PartialEq)]
pub struct VolumeConstraint<S> {
    /// First corner.
    pub entity1: BodyId,
    /// Second corner.
    pub entity2: BodyId,
    /// Third corner.
    pub entity3: BodyId,
    /// Fourth corner.
    pub entity4: BodyId,
    /// Volume the tetrahedron is driven towards.
    pub rest_volume: S,
    /// Inverse stiffness, in metres per newton.
    pub compliance: S,
}

impl<S: Copy> Clone for VolumeConstraint<S> {
    fn clone(&self) -> (copy: Self)
        ensures
            copy == *self,
    {
        *self
    }
}

impl<S: Copy> Copy for VolumeConstraint<S> {

}

/// What making a volume constraint yields.
///
/// `given` is the volume of the corners in the order handed in, `swapped`
/// their volume with the second and third corner exchanged. Corners of
/// positive volume are kept as they are. Corners of negative volume are
/// exchanged, and must then measure positive. Anything else is refused, with
/// the volume that was found wanting.
pub open spec fn oriented<S>(
    entity1: BodyId,
    entity2: BodyId,
    entity3: BodyId,
    entity4: BodyId,
    given: SignedVolume<S>,
    swapped: SignedVolume<S>,
    compliance: S,
) -> Result<VolumeConstraint<S>, VolumeError<S>> {
    match given.orientation {
        Orientation::Positive => Ok(
            VolumeConstraint {
                entity1,
                entity2,
                entity3,
                entity4,
                rest_volume: given.volume,
                compliance,
            },
        ),
        Orientation::Negative => match swapped.orientation {
            Orientation::Positive => Ok(
                VolumeConstraint {
                    entity1,
                    entity2: entity3,
                    entity3: entity2,
                    entity4,
                    rest_volume: swapped.volume,
                    compliance,
                },
            ),
            _ => Err(VolumeError::NonPositiveRestVolume(swapped.volume)),
        },
        Orientation::Degenerate => Err(VolumeError::NonPositiveRestVolume(given.volume)),
    }
}

/// A constraint is made exactly from a reading that is positive, and binds
/// the corners in the order of that reading: as handed in if the first
/// reading is positive, with the second and third exchanged if the first is
/// negative and the second positive. Flat corners are refused.
pub proof fn lemma_made_from_positive_reading<S: Copy>(
    entity1: BodyId,
    entity2: BodyId,
    entity3: BodyId,
    entity4: BodyId,
    given: SignedVolume<S>,
    swapped: SignedVolume<S>,
    compliance: S,
)
    ensures
        match oriented(entity1, entity2, entity3, entity4, given, swapped, compliance) {
            Ok(made) => {
                ||| {
                    &&& given.orientation == Orientation::Positive
                    &&& made.rest_volume == given.volume
                    &&& made.bodies() == seq![entity1, entity2, entity3, entity4]
                }
                ||| {
                    &&& given.orientation == Orientation::Negative
                    &&& swapped.orientation == Orientation::Positive
                    &&& made.rest_volume == swapped.volume
                    &&& made.bodies() == seq![entity1, entity3, entity2, entity4]
                }
            },
            Err(_) => {
                ||| given.orientation == Orientation::Degenerate
                ||| given.orientation == Orientation::Negative && swapped.orientation
                    != Orientation::Positive
            },
        },
{
}

impl<S: Copy> VolumeConstraint<S> {
    /// A volume constraint over four corners, oriented so that its rest
    /// volume is positive.
    ///
    /// The host measures the corners twice, as handed in and with the second
    /// and third exchanged, and passes both readings.
    pub fn new(
        entity1: BodyId,
        entity2: BodyId,
        entity3: BodyId,
        entity4: BodyId,
        given: SignedVolume<S>,
        swapped: SignedVolume<S>,
        compliance: S,
    ) -> (made: Result<Self, VolumeError<S>>)
        ensures
            made == oriented(entity1, entity2, entity3, entity4, given, swapped, compliance),
    {
        let (entity2, entity3, rest) = match given.orientation {
            Orientation::Negative => (entity3, entity2, swapped),
            _ => (entity2, entity3, given),
        };
        match rest.orientation {
            Orientation::Positive => Ok(
                VolumeConstraint {
                    entity1,
                    entity2,
                    entity3,
                    entity4,
                    rest_volume: rest.volume,
                    compliance,
                },
            ),
            _ => Err(VolumeError::NonPositiveRestVolume(rest.volume)),
        }
    }

    /// The same constraint with another compliance.
    pub fn with_compliance(self, compliance: S) -> (tet: Self)
        ensures
            tet == (VolumeConstraint { compliance, ..self }),
    {
        VolumeConstraint { compliance, ..self }
    }

    /// The same constraint with another rest volume.
    pub fn with_rest_volume(self, rest_volume: S) -> (tet: Self)
        ensures
            tet == (VolumeConstraint { rest_volume, ..self }),
    {
        VolumeConstraint { rest_volume, ..self }
    }
}

impl<S: Copy> XpbdConstraint<4> for VolumeConstraint<S> {
    open spec fn bodies(&self) -> Seq<BodyId> {
        seq![self.entity1, self.entity2, self.entity3, self.entity4]
    }

    open spec fn rebound(&self, bodies: Seq<BodyId>) -> Self {
        VolumeConstraint {
            entity1: bodies[0],
            entity2: bodies[1],
            entity3: bodies[2],
            entity4: bodies[3],
            ..*self
        }
    }

    fn entities(&self) -> (ids: [BodyId; 4]) {
        [self.entity1, self.entity2, self.entity3, self.entity4]
    }

    fn clear_lagrange_multipliers(&mut self) {
    }

    fn map_entities(&mut self, mapper: &mut EntityMapper) {
        let mapped = remap_all(mapper, self.entities());
        self.entity1 = mapped[0];
        self.entity2 = mapped[1];
        self.entity3 = mapped[2];
        self.entity4 = mapped[3];
    }
}

/// One row of the volume rule: a face of the tetrahedron and the body whose
/// inverse mass weights the gradient taken over that face.
///
/// With corner positions `p`, the row's gradient is
/// `(p[first] - p[origin]) x (p[second] - p[origin]) / 6`.
#[derive(Clone, Copy, Debug, PartialEq, Eq, Structural)]
pub struct GradientFace {
    /// Corner whose inverse mass weights the squared gradient.
    pub weight: usize,
    /// Corner of the face that both edge vectors start from.
    pub origin: usize,
    /// Corner the first edge vector points to.
    pub first: usize,
    /// Corner the second edge vector points to.
    pub second: usize,
}

/// The four rows of the volume rule, in the order in which their gradients
/// are summed into the weight and then pushed: the gradient of row `i` is
/// pushed onto corner `i`.
pub open spec fn gradient_rows() -> Seq<GradientFace> {
    seq![
        GradientFace { weight: 0, origin: 1, first: 2, second: 3 },
        GradientFace { weight: 1, origin: 0, first: 3, second: 2 },
        GradientFace { weight: 3, origin: 0, first: 2, second: 1 },
        GradientFace { weight: 2, origin: 0, first: 1, second: 3 },
    ]
}

/// The pairing of bodies and faces that the volume rule uses.
pub fn gradient_faces() -> (rows: [GradientFace; 4])
    ensures
        rows@ == gradient_rows(),
{
    let rows = [
        GradientFace { weight: 0, origin: 1, first: 2, second: 3 },
        GradientFace { weight: 1, origin: 0, first: 3, second: 2 },
        GradientFace { weight: 3, origin: 0, first: 2, second: 1 },
        GradientFace { weight: 2, origin: 0, first: 1, second: 3 },
    ];
    rows
}

/// Every row pairs a body with the face opposite to it: the four corners a
/// row names are the four corners of the tetrahedron, each once. The first
/// two rows are pushed onto the body that weights them; the last two rows
/// are pushed onto each other's.
pub proof fn lemma_faces_are_opposite(row: int)
    requires
        0 <= row < 4,
    ensures
        ({
            let face = gradient_rows()[row];
            &&& face.weight < 4 && face.origin < 4 && face.first < 4 && face.second < 4
            &&& face.weight != face.origin && face.weight != face.first && face.weight
                != face.second
            &&& face.origin != face.first && face.origin != face.second && face.first
                != face.second
            &&& row < 2 ==> face.weight == row
            &&& row >= 2 ==> face.weight == 5 - row
        }),
{
}

} // verus!
