use bevy::ecs::entity::{Entity, EntityMapper};
use bevy::ecs::world::World;
use bevy::utils::HashMap;
use xpbd_constraints::{
    gradient_faces, BodyId, EdgeConstraint, GradientFace, IsometricBendingConstraint, Orientation,
    SignedVolume, VolumeConstraint, VolumeError, XpbdConstraint,
};

type Point = [f32; 3];

fn sub(a: Point, b: Point) -> Point {
    [a[0] - b[0], a[1] - b[1], a[2] - b[2]]
}

fn cross(a: Point, b: Point) -> Point {
    [
        a[1] * b[2] - a[2] * b[1],
        a[2] * b[0] - a[0] * b[2],
        a[0] * b[1] - a[1] * b[0],
    ]
}

fn dot(a: Point, b: Point) -> f32 {
    a[0] * b[0] + a[1] * b[1] + a[2] * b[2]
}

fn measure(p1: Point, p2: Point, p3: Point, p4: Point) -> SignedVolume<f32> {
    let volume = dot(cross(sub(p2, p1), sub(p3, p1)), sub(p4, p1)) / 6.0;
    let orientation = if volume > 0.0 {
        Orientation::Positive
    } else if volume < 0.0 {
        Orientation::Negative
    } else {
        Orientation::Degenerate
    };
    SignedVolume { volume, orientation }
}

fn tetrahedron(
    p1: Point,
    p2: Point,
    p3: Point,
    p4: Point,
) -> Result<VolumeConstraint<f32>, VolumeError<f32>> {
    VolumeConstraint::new(
        BodyId(1),
        BodyId(2),
        BodyId(3),
        BodyId(4),
        measure(p1, p2, p3, p4),
        measure(p1, p3, p2, p4),
        0.0,
    )
}

const ORIGIN: Point = [0.0, 0.0, 0.0];
const X: Point = [1.0, 0.0, 0.0];
const Y: Point = [0.0, 1.0, 0.0];
const Z: Point = [0.0, 0.0, 1.0];

fn with_mapper<R>(
    known: &[(u64, u64)],
    run: impl FnOnce(&mut EntityMapper) -> R,
) -> (R, HashMap<Entity, Entity>) {
    let mut table: HashMap<Entity, Entity> = HashMap::default();
    for (from, to) in known {
        table.insert(Entity::from_bits(*from), Entity::from_bits(*to));
    }
    let mut world = World::new();
    let result = EntityMapper::world_scope(&mut table, &mut world, |_, mapper| run(mapper));
    (result, table)
}

fn entry(table: &HashMap<Entity, Entity>, id: u64) -> BodyId {
    BodyId(table[&Entity::from_bits(id)].to_bits())
}

#[test]
fn body_id_keeps_its_bits() {
    assert_eq!(BodyId::from_bits(7), BodyId(7));
    assert_eq!(BodyId(u64::MAX).to_bits(), u64::MAX);
    assert_eq!(BodyId::from_bits(0x1_0000_0002).to_bits(), 0x1_0000_0002);
}

#[test]
fn edge_is_made_of_what_it_is_given() {
    let edge = EdgeConstraint::new(BodyId(1), BodyId(2), 1.5f32, 0.1);
    assert_eq!(edge.entity1, BodyId(1));
    assert_eq!(edge.entity2, BodyId(2));
    assert_eq!(edge.rest_length, 1.5);
    assert_eq!(edge.compliance, 0.1);
}

#[test]
fn edge_builders_replace_one_field() {
    let edge = EdgeConstraint::new(BodyId(1), BodyId(2), 1.5f32, 0.1);
    let stiff = edge.with_compliance(0.0);
    assert_eq!(stiff, EdgeConstraint { entity1: BodyId(1), entity2: BodyId(2), rest_length: 1.5, compliance: 0.0 });
    let long = stiff.with_rest_length(4.0);
    assert_eq!(long, EdgeConstraint { entity1: BodyId(1), entity2: BodyId(2), rest_length: 4.0, compliance: 0.0 });
}

#[test]
fn edge_names_its_bodies_in_order() {
    let edge = EdgeConstraint::new(BodyId(9), BodyId(3), 1.0f32, 0.0);
    assert_eq!(edge.entities(), [BodyId(9), BodyId(3)]);
}

#[test]
fn clearing_multipliers_changes_nothing() {
    let mut edge = EdgeConstraint::new(BodyId(9), BodyId(3), 1.0f32, 0.25);
    let before = edge;
    edge.clear_lagrange_multipliers();
    assert_eq!(edge, before);

    let mut bend =
        IsometricBendingConstraint::new(BodyId(1), BodyId(2), BodyId(3), BodyId(4), [[0.5f32; 4]; 4], 0.0);
    let before = bend;
    bend.clear_lagrange_multipliers();
    assert_eq!(bend, before);

    let mut tet = tetrahedron(ORIGIN, X, Y, Z).unwrap();
    let before = tet;
    tet.clear_lagrange_multipliers();
    assert_eq!(tet, before);
}

#[test]
fn bending_is_made_of_what_it_is_given() {
    let mut q = [[0.0f32; 4]; 4];
    q[1][2] = 3.0;
    q[3][0] = -1.0;
    let bend = IsometricBendingConstraint::new(BodyId(5), BodyId(6), BodyId(7), BodyId(8), q, 0.0);
    assert_eq!(bend.entities(), [BodyId(5), BodyId(6), BodyId(7), BodyId(8)]);
    assert_eq!(bend.initial_bending_energy, q);
    assert_eq!(bend.compliance, 0.0);
    let soft = bend.with_compliance(2.0);
    assert_eq!(soft.compliance, 2.0);
    assert_eq!(soft.initial_bending_energy, q);
    assert_eq!(soft.entities(), bend.entities());
}

#[test]
fn positive_tetrahedron_keeps_its_order() {
    let tet = tetrahedron(ORIGIN, X, Y, Z).unwrap();
    assert_eq!(tet.entities(), [BodyId(1), BodyId(2), BodyId(3), BodyId(4)]);
    assert_eq!(tet.rest_volume, 1.0 / 6.0);
    assert_eq!(tet.compliance, 0.0);
}

#[test]
fn negative_tetrahedron_swaps_second_and_third() {
    assert!(measure(ORIGIN, Y, X, Z).volume < 0.0);
    let tet = tetrahedron(ORIGIN, Y, X, Z).unwrap();
    assert_eq!(tet.entities(), [BodyId(1), BodyId(3), BodyId(2), BodyId(4)]);
    assert!(tet.rest_volume > 0.0);
    assert_eq!(tet.rest_volume, 1.0 / 6.0);
}

#[test]
fn coplanar_points_are_refused() {
    let flat = tetrahedron(ORIGIN, X, Y, [1.0, 1.0, 0.0]);
    assert_eq!(flat, Err(VolumeError::NonPositiveRestVolume(0.0)));
}

#[test]
fn volume_that_is_no_number_is_refused() {
    let made = tetrahedron(ORIGIN, X, Y, [0.0, 0.0, f32::NAN]);
    assert!(matches!(made, Err(VolumeError::NonPositiveRestVolume(v)) if v.is_nan()));
}

#[test]
fn negative_volume_that_stays_non_positive_is_refused() {
    let given = SignedVolume { volume: -1.0f32, orientation: Orientation::Negative };
    let swapped = SignedVolume { volume: -2.0f32, orientation: Orientation::Negative };
    let made = VolumeConstraint::new(BodyId(1), BodyId(2), BodyId(3), BodyId(4), given, swapped, 0.0);
    assert_eq!(made, Err(VolumeError::NonPositiveRestVolume(-2.0)));
    let flat = SignedVolume { volume: 0.0f32, orientation: Orientation::Degenerate };
    let made = VolumeConstraint::new(BodyId(1), BodyId(2), BodyId(3), BodyId(4), given, flat, 0.0);
    assert_eq!(made, Err(VolumeError::NonPositiveRestVolume(0.0)));
}

#[test]
fn positive_volume_ignores_the_swapped_reading() {
    let given = SignedVolume { volume: 3.0f32, orientation: Orientation::Positive };
    let swapped = SignedVolume { volume: 5.0f32, orientation: Orientation::Positive };
    let tet =
        VolumeConstraint::new(BodyId(1), BodyId(2), BodyId(3), BodyId(4), given, swapped, 0.5).unwrap();
    assert_eq!(tet.entities(), [BodyId(1), BodyId(2), BodyId(3), BodyId(4)]);
    assert_eq!(tet.rest_volume, 3.0);
    assert_eq!(tet.compliance, 0.5);
}

#[test]
fn volume_builders_replace_one_field() {
    let tet = tetrahedron(ORIGIN, X, Y, Z).unwrap();
    let soft = tet.with_compliance(0.75);
    assert_eq!(soft.compliance, 0.75);
    assert_eq!(soft.rest_volume, tet.rest_volume);
    let big = soft.with_rest_volume(2.0);
    assert_eq!(big.rest_volume, 2.0);
    assert_eq!(big.compliance, 0.75);
    assert_eq!(big.entities(), tet.entities());
}

#[test]
fn gradient_faces_pair_bodies_with_opposite_faces() {
    let rows = gradient_faces();
    assert_eq!(
        rows,
        [
            GradientFace { weight: 0, origin: 1, first: 2, second: 3 },
            GradientFace { weight: 1, origin: 0, first: 3, second: 2 },
            GradientFace { weight: 3, origin: 0, first: 2, second: 1 },
            GradientFace { weight: 2, origin: 0, first: 1, second: 3 },
        ]
    );
    for row in rows {
        let mut corners = [row.weight, row.origin, row.first, row.second];
        corners.sort();
        assert_eq!(corners, [0, 1, 2, 3]);
    }
}

#[test]
fn gradient_faces_give_the_volume_gradient() {
    // For the unit tetrahedron the gradient of the volume with respect to the
    // fourth corner is a sixth of the normal of the base: the row weighted by
    // the fourth corner must give it.
    let p = [ORIGIN, X, Y, Z];
    let row = gradient_faces().into_iter().find(|row| row.weight == 3).unwrap();
    let g = cross(sub(p[row.first], p[row.origin]), sub(p[row.second], p[row.origin]));
    assert_eq!([g[0] / 6.0, g[1] / 6.0, g[2] / 6.0], [0.0, 0.0, -1.0 / 6.0]);
}

#[test]
fn mapping_replaces_known_bodies_by_their_entries() {
    let mut edge = EdgeConstraint::new(BodyId(1), BodyId(2), 1.0f32, 0.1);
    let ((), table) = with_mapper(&[(1, 77), (2, 88), (3, 99)], |mapper| edge.map_entities(mapper));
    assert_eq!(edge.entities(), [BodyId(77), BodyId(88)]);
    assert_eq!(edge.rest_length, 1.0);
    assert_eq!(edge.compliance, 0.1);
    assert_eq!(table.len(), 3);
}

#[test]
fn mapping_reserves_fresh_bodies_for_unknown_ones() {
    let mut edge = EdgeConstraint::new(BodyId(1), BodyId(2), 1.0f32, 0.1);
    let ((), table) = with_mapper(&[(1, 77)], |mapper| edge.map_entities(mapper));
    assert_eq!(edge.entity1, BodyId(77));
    assert_eq!(edge.entity2, entry(&table, 2));
    assert_ne!(edge.entity2, BodyId(2));
    assert_eq!(table.len(), 2);
}

#[test]
fn mapping_keeps_slots_in_order() {
    let mut bend = IsometricBendingConstraint::new(
        BodyId(10),
        BodyId(11),
        BodyId(12),
        BodyId(13),
        [[1.0f32; 4]; 4],
        0.0,
    );
    let ((), _) =
        with_mapper(&[(10, 4), (11, 3), (12, 2), (13, 1)], |mapper| bend.map_entities(mapper));
    assert_eq!(bend.entities(), [BodyId(4), BodyId(3), BodyId(2), BodyId(1)]);
    assert_eq!(bend.initial_bending_energy, [[1.0f32; 4]; 4]);
}

#[test]
fn mapping_keeps_shared_bodies_shared() {
    let mut tet = VolumeConstraint {
        entity1: BodyId(5),
        entity2: BodyId(6),
        entity3: BodyId(5),
        entity4: BodyId(7),
        rest_volume: 1.0f32,
        compliance: 0.0,
    };
    let ((), table) = with_mapper(&[], |mapper| tet.map_entities(mapper));
    assert_eq!(tet.entity1, tet.entity3);
    assert_ne!(tet.entity1, tet.entity2);
    assert_ne!(tet.entity2, tet.entity4);
    assert_ne!(tet.entity1, tet.entity4);
    assert_eq!(table.len(), 3);
    assert_eq!(tet.entities(), [entry(&table, 5), entry(&table, 6), entry(&table, 5), entry(&table, 7)]);
    assert_eq!(tet.rest_volume, 1.0);
}

#[test]
fn mapping_twice_through_one_mapper_agrees() {
    let edge = EdgeConstraint::new(BodyId(1), BodyId(2), 1.0f32, 0.1);
    let ((first, second), table) = with_mapper(&[], |mapper| {
        let mut first = edge;
        first.map_entities(mapper);
        let mut second = edge;
        second.map_entities(mapper);
        (first, second)
    });
    assert_eq!(first, second);
    assert_eq!(table.len(), 2);
}
