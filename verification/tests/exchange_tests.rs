use particlesimul::compute::{Compute, Simulation, Work};
use particlesimul::particle::{Body, Scalar, Vector3};

fn scalar(value: u32) -> Scalar {
    Scalar::from_bits(value)
}

fn vector(x: u32, y: u32, z: u32) -> Vector3 {
    Vector3::new(scalar(x), scalar(y), scalar(z))
}

fn tagged(tag: u32) -> Body {
    Body {
        position: vector(tag, tag + 1, tag + 2),
        velocity: vector(tag + 3, tag + 4, tag + 5),
        acceleration: vector(tag + 6, tag + 7, tag + 8),
        mass: scalar(tag + 9),
        density: scalar(tag + 10),
    }
}

fn begin(bodies: Vec<Body>) -> Simulation {
    Compute {}.simulate(scalar(77), scalar(88), bodies)
}

#[test]
fn no_bodies_no_work() {
    let simulation = begin(Vec::new());
    assert_eq!(simulation.pending(), Work::Done);
    assert!(simulation.finish().is_empty());
}

#[test]
fn one_body_is_integrated_under_zero_force() {
    let a = tagged(100);
    let simulation = begin(vec![a]);
    assert_eq!(
        simulation.pending(),
        Work::Integrate { body: a, force: Vector3::zero(), dt: scalar(77) }
    );
    let after = tagged(200);
    let simulation = simulation.supply_body(after);
    assert_eq!(simulation.pending(), Work::Done);
    assert_eq!(simulation.finish(), vec![after]);
}

#[test]
fn two_bodies_exchange() {
    let a = tagged(100);
    let b = tagged(200);
    let simulation = begin(vec![a, b]);
    assert_eq!(
        simulation.pending(),
        Work::Force { accumulated: Vector3::zero(), on: a, from: b, g: scalar(88) }
    );
    let force_on_a = vector(1, 2, 3);
    let simulation = simulation.supply_force(force_on_a);
    assert_eq!(
        simulation.pending(),
        Work::Force { accumulated: Vector3::zero(), on: b, from: a, g: scalar(88) }
    );
    let force_on_b = vector(4, 5, 6);
    let simulation = simulation.supply_force(force_on_b);
    assert_eq!(
        simulation.pending(),
        Work::Integrate { body: a, force: force_on_a, dt: scalar(77) }
    );
    let a_after = tagged(300);
    let simulation = simulation.supply_body(a_after);
    assert_eq!(
        simulation.pending(),
        Work::Integrate { body: b, force: force_on_b, dt: scalar(77) }
    );
    let b_after = tagged(400);
    let simulation = simulation.supply_body(b_after);
    assert_eq!(simulation.pending(), Work::Done);
    assert_eq!(simulation.finish(), vec![a_after, b_after]);
}

#[test]
fn accumulators_carry_from_one_source_to_the_next() {
    let bodies = vec![tagged(100), tagged(200), tagged(300)];
    let mut simulation = begin(bodies.clone());
    let mut answer = 1000;
    let mut seen = Vec::new();
    while let Work::Force { accumulated, on, from, g } = simulation.pending() {
        assert_eq!(g, scalar(88));
        seen.push((accumulated, on, from));
        answer += 1;
        simulation = simulation.supply_force(vector(answer, 0, 0));
    }
    let zero = Vector3::zero();
    assert_eq!(
        seen,
        vec![
            (zero, bodies[0], bodies[1]),
            (vector(1001, 0, 0), bodies[0], bodies[2]),
            (zero, bodies[1], bodies[0]),
            (vector(1003, 0, 0), bodies[1], bodies[2]),
            (zero, bodies[2], bodies[0]),
            (vector(1005, 0, 0), bodies[2], bodies[1]),
        ]
    );
    assert_eq!(
        simulation.pending(),
        Work::Integrate { body: bodies[0], force: vector(1002, 0, 0), dt: scalar(77) }
    );
}

#[test]
fn forces_are_taken_from_the_bodies_before_the_step() {
    let bodies = vec![tagged(100), tagged(200), tagged(300)];
    let mut simulation = begin(bodies.clone());
    for _ in 0..6 {
        simulation = simulation.supply_force(vector(9, 9, 9));
    }
    let mut handed = Vec::new();
    while let Work::Integrate { body, force, dt } = simulation.pending() {
        assert_eq!(force, vector(9, 9, 9));
        assert_eq!(dt, scalar(77));
        handed.push(body);
        simulation = simulation.supply_body(tagged(0));
    }
    assert_eq!(handed, bodies);
    assert_eq!(simulation.finish(), vec![tagged(0), tagged(0), tagged(0)]);
}

#[test]
fn an_answer_of_the_wrong_kind_changes_nothing() {
    let a = tagged(100);
    let b = tagged(200);
    let simulation = begin(vec![a, b]);
    let simulation = simulation.supply_body(tagged(900));
    assert_eq!(
        simulation.pending(),
        Work::Force { accumulated: Vector3::zero(), on: a, from: b, g: scalar(88) }
    );
    let simulation = simulation.supply_force(vector(1, 1, 1)).supply_force(vector(2, 2, 2));
    let simulation = simulation.supply_force(vector(3, 3, 3));
    assert_eq!(
        simulation.pending(),
        Work::Integrate { body: a, force: vector(1, 1, 1), dt: scalar(77) }
    );
    assert_eq!(simulation.finish(), vec![a, b]);
}

#[test]
fn answers_after_the_end_change_nothing() {
    let a = tagged(100);
    let simulation = begin(vec![a]).supply_body(tagged(200));
    let simulation = simulation.supply_body(tagged(300)).supply_force(vector(1, 2, 3));
    assert_eq!(simulation.pending(), Work::Done);
    assert_eq!(simulation.finish(), vec![tagged(200)]);
}

#[test]
fn finishing_early_hands_back_what_is_there() {
    let a = tagged(100);
    let b = tagged(200);
    let simulation = begin(vec![a, b]);
    let simulation = simulation.supply_force(vector(1, 1, 1)).supply_force(vector(2, 2, 2));
    let simulation = simulation.supply_body(tagged(300));
    assert_eq!(simulation.finish(), vec![tagged(300), b]);
}

#[test]
fn a_step_over_n_bodies_takes_n_squared_answers() {
    for n in 0..12u32 {
        let bodies: Vec<Body> = (0..n).map(|i| tagged(i * 100)).collect();
        let mut simulation = begin(bodies);
        let mut forces = 0;
        let mut integrations = 0;
        loop {
            match simulation.pending() {
                Work::Force { .. } => {
                    assert_eq!(integrations, 0);
                    forces += 1;
                    simulation = simulation.supply_force(Vector3::zero());
                }
                Work::Integrate { body, .. } => {
                    integrations += 1;
                    simulation = simulation.supply_body(body);
                }
                Work::Done => break,
            }
        }
        assert_eq!(forces, n * n.saturating_sub(1));
        assert_eq!(integrations, n);
    }
}
