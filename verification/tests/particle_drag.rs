use xpbd_constraints::particle_drag::{
    closest, drag_particles, Candidate, DragInfo, DragStep, MassChange,
};
use xpbd_constraints::{BodyId, DragParticle};

const HALF: u64 = 0x3f00_0000;

fn key(distance: f32) -> u64 {
    assert!(distance >= 0.0);
    u64::from(distance.to_bits())
}

fn info(id: u64, grab_distance: f32, grab_inverse_mass: f32) -> DragInfo<f32> {
    DragInfo { id: BodyId(id), grab_distance, grab_inverse_mass }
}

fn candidate(id: u64, off_ray: f32) -> Candidate<f32> {
    Candidate { marker: DragParticle::enabled(), off_ray: key(off_ray), info: info(id, 3.0, 1.0) }
}

fn disabled(id: u64, off_ray: f32) -> Candidate<f32> {
    Candidate { marker: DragParticle::default(), off_ray: key(off_ray), info: info(id, 3.0, 1.0) }
}

#[test]
fn markers() {
    assert!(DragParticle::enabled().enabled);
    assert!(!DragParticle::default().enabled);
}

#[test]
fn half_a_unit_has_the_expected_key() {
    assert_eq!(key(0.5), HALF);
    assert!(key(0.25) < key(0.5));
    assert!(key(0.0) < key(f32::MIN_POSITIVE));
    assert!(key(0.5) < key(f32::INFINITY));
}

#[test]
fn closest_picks_the_nearest_in_reach() {
    let candidates = vec![candidate(1, 0.4), candidate(2, 0.1), candidate(3, 0.3)];
    assert_eq!(closest(&candidates, HALF), Some(1));
}

#[test]
fn closest_ignores_bodies_out_of_reach() {
    let candidates = vec![candidate(1, 0.5), candidate(2, 7.0), candidate(3, 0.75)];
    assert_eq!(closest(&candidates, HALF), None);
    let candidates = vec![candidate(1, 0.5), candidate(2, 0.49), candidate(3, 0.75)];
    assert_eq!(closest(&candidates, HALF), Some(1));
}

#[test]
fn closest_ignores_disabled_bodies() {
    let candidates = vec![disabled(1, 0.0), candidate(2, 0.4), disabled(3, 0.1)];
    assert_eq!(closest(&candidates, HALF), Some(1));
    let candidates = vec![disabled(1, 0.0), disabled(3, 0.1)];
    assert_eq!(closest(&candidates, HALF), None);
}

#[test]
fn closest_keeps_the_first_of_equals() {
    let candidates = vec![candidate(1, 0.3), candidate(2, 0.2), candidate(3, 0.2), candidate(4, 0.2)];
    assert_eq!(closest(&candidates, HALF), Some(1));
}

#[test]
fn closest_of_nothing_is_nothing() {
    assert_eq!(closest(&Vec::<Candidate<f32>>::new(), HALF), None);
    assert_eq!(closest(&vec![candidate(1, 0.0)], 0), None);
}

#[test]
fn press_grabs_and_freezes() {
    let candidates = vec![
        Candidate { marker: DragParticle::enabled(), off_ray: key(0.4), info: info(7, 2.0, 0.5) },
        Candidate { marker: DragParticle::enabled(), off_ray: key(0.2), info: info(8, 5.0, 0.25) },
    ];
    let step = drag_particles(None, true, false, &candidates, HALF);
    assert_eq!(
        step,
        DragStep {
            state: Some(info(8, 5.0, 0.25)),
            mass: MassChange::Freeze(BodyId(8)),
            carry: Some((BodyId(8), 5.0)),
        }
    );
}

#[test]
fn press_that_grabs_nothing_changes_nothing() {
    let candidates = vec![candidate(7, 0.9)];
    let step = drag_particles(None, true, false, &candidates, HALF);
    assert_eq!(step, DragStep { state: None, mass: MassChange::Keep, carry: None });

    let held = info(3, 1.5, 2.0);
    let step = drag_particles(Some(held), true, false, &candidates, HALF);
    assert_eq!(
        step,
        DragStep { state: Some(held), mass: MassChange::Keep, carry: Some((BodyId(3), 1.5)) }
    );
}

#[test]
fn press_while_holding_takes_the_new_body() {
    let held = info(3, 1.5, 2.0);
    let candidates = vec![
        Candidate { marker: DragParticle::enabled(), off_ray: key(0.1), info: info(9, 4.0, 1.0) },
    ];
    let step = drag_particles(Some(held), true, false, &candidates, HALF);
    assert_eq!(
        step,
        DragStep {
            state: Some(info(9, 4.0, 1.0)),
            mass: MassChange::Freeze(BodyId(9)),
            carry: Some((BodyId(9), 4.0)),
        }
    );
}

#[test]
fn holding_carries_the_body() {
    let held = info(3, 1.5, 2.0);
    let step = drag_particles(Some(held), false, false, &vec![candidate(1, 0.0)], HALF);
    assert_eq!(
        step,
        DragStep { state: Some(held), mass: MassChange::Keep, carry: Some((BodyId(3), 1.5)) }
    );
}

#[test]
fn release_restores_the_inverse_mass() {
    let held = info(3, 1.5, 2.0);
    let step = drag_particles(Some(held), false, true, &Vec::new(), HALF);
    assert_eq!(
        step,
        DragStep { state: None, mass: MassChange::Restore(BodyId(3), 2.0), carry: None }
    );
}

#[test]
fn release_with_empty_hands_does_nothing() {
    let step = drag_particles(None::<DragInfo<f32>>, false, true, &Vec::new(), HALF);
    assert_eq!(step, DragStep { state: None, mass: MassChange::Keep, carry: None });
}

#[test]
fn press_wins_over_release_in_one_frame() {
    let held = info(3, 1.5, 2.0);
    let step = drag_particles(Some(held), true, true, &vec![candidate(1, 0.9)], HALF);
    assert_eq!(
        step,
        DragStep { state: Some(held), mass: MassChange::Keep, carry: Some((BodyId(3), 1.5)) }
    );
    let step = drag_particles(Some(held), true, true, &vec![candidate(1, 0.1)], HALF);
    assert_eq!(step.state, Some(info(1, 3.0, 1.0)));
    assert_eq!(step.mass, MassChange::Freeze(BodyId(1)));
}

#[test]
fn idle_frame_does_nothing() {
    let step = drag_particles(None::<DragInfo<f32>>, false, false, &vec![candidate(1, 0.0)], HALF);
    assert_eq!(step, DragStep { state: None, mass: MassChange::Keep, carry: None });
}

#[test]
fn grab_and_release_give_the_mass_back() {
    let candidates = vec![
        Candidate { marker: DragParticle::enabled(), off_ray: key(0.3), info: info(4, 6.0, 0.125) },
    ];
    let grabbed = drag_particles(None, true, false, &candidates, HALF);
    assert_eq!(grabbed.mass, MassChange::Freeze(BodyId(4)));
    let carried = drag_particles(grabbed.state, false, false, &Vec::new(), HALF);
    assert_eq!(carried.carry, Some((BodyId(4), 6.0)));
    assert_eq!(carried.mass, MassChange::Keep);
    let released = drag_particles(carried.state, false, true, &Vec::new(), HALF);
    assert_eq!(released.mass, MassChange::Restore(BodyId(4), 0.125));
    assert_eq!(released.state, None);
}
