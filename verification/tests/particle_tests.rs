use particlesimul::particle::{Body, Particle, Scalar, Vector3};

fn scalar(value: f32) -> Scalar {
    Scalar::from_bits(value.to_bits())
}

fn vector(x: f32, y: f32, z: f32) -> Vector3 {
    Vector3::new(scalar(x), scalar(y), scalar(z))
}

fn sample() -> Body {
    Body {
        position: vector(1.0, 2.0, 3.0),
        velocity: vector(-4.0, 5.5, 0.25),
        acceleration: vector(0.0, -9.81, 0.0),
        mass: scalar(12.5),
        density: scalar(5515.0),
    }
}

#[test]
fn scalar_keeps_its_bits() {
    assert_eq!(Scalar::from_bits(0x3fc0_0000).to_bits(), 0x3fc0_0000);
    assert_eq!(f32::from_bits(scalar(1.5).to_bits()), 1.5);
    assert_eq!(f32::from_bits(scalar(-0.0).to_bits()).to_bits(), 0x8000_0000);
    assert!(f32::from_bits(scalar(f32::NAN).to_bits()).is_nan());
}

#[test]
fn scalar_zero_is_positive_zero() {
    assert_eq!(Scalar::zero().to_bits(), 0.0f32.to_bits());
    assert_eq!(Scalar::zero(), scalar(0.0));
    assert_ne!(Scalar::zero(), scalar(-0.0));
}

#[test]
fn vector_zero_has_zero_components() {
    let zero = Vector3::zero();
    assert_eq!(zero, vector(0.0, 0.0, 0.0));
    assert_eq!(f32::from_bits(zero.x.bits), 0.0);
    assert_eq!(f32::from_bits(zero.y.bits), 0.0);
    assert_eq!(f32::from_bits(zero.z.bits), 0.0);
}

#[test]
fn vector_new_keeps_the_order_of_components() {
    let v = vector(1.0, 2.0, 3.0);
    assert_eq!(f32::from_bits(v.x.bits), 1.0);
    assert_eq!(f32::from_bits(v.y.bits), 2.0);
    assert_eq!(f32::from_bits(v.z.bits), 3.0);
}

#[test]
fn accessors_read_each_field() {
    let body = sample();
    assert_eq!(body.position(), vector(1.0, 2.0, 3.0));
    assert_eq!(body.velocity(), vector(-4.0, 5.5, 0.25));
    assert_eq!(body.acceleration(), vector(0.0, -9.81, 0.0));
    assert_eq!(body.mass(), scalar(12.5));
    assert_eq!(body.density(), scalar(5515.0));
}

#[test]
fn set_position_changes_the_position_only() {
    let mut body = sample();
    body.set_position(vector(7.0, 8.0, 9.0));
    assert_eq!(body, Body { position: vector(7.0, 8.0, 9.0), ..sample() });
}

#[test]
fn set_velocity_changes_the_velocity_only() {
    let mut body = sample();
    body.set_velocity(vector(7.0, 8.0, 9.0));
    assert_eq!(body, Body { velocity: vector(7.0, 8.0, 9.0), ..sample() });
}

#[test]
fn set_acceleration_changes_the_acceleration_only() {
    let mut body = sample();
    body.set_acceleration(vector(7.0, 8.0, 9.0));
    assert_eq!(body, Body { acceleration: vector(7.0, 8.0, 9.0), ..sample() });
}

#[test]
fn acceleration_is_overwritten_not_accumulated() {
    let mut body = sample();
    body.set_acceleration(vector(1.0, 1.0, 1.0));
    body.set_acceleration(vector(2.0, 0.0, 0.0));
    assert_eq!(body.acceleration(), vector(2.0, 0.0, 0.0));
}
