//! Bodies: the physical state of one point mass.
use vstd::prelude::*;

verus! {

/// A real number in IEEE-754 binary32 form, held as its 32-bit pattern.
#[derive(Clone, Copy, PartialEq, Eq, Structural, Debug)]
pub struct Scalar {
    pub bits: u32,
}

impl Scalar {
    /// Positive zero.
    pub open spec fn spec_zero() -> Scalar {
        Scalar { bits: 0 }
    }

    /// The pattern with its sign bit cleared.
    pub open spec fn magnitude_bits(self) -> int {
        if self.bits >= 0x8000_0000 {
            self.bits - 0x8000_0000
        } else {
            self.bits as int
        }
    }

    /// Not a number: the exponent is all ones and the fraction is not zero.
    pub open spec fn is_nan(self) -> bool {
        self.magnitude_bits() > 0x7f80_0000
    }

    /// Zero of either sign.
    pub open spec fn is_zero(self) -> bool {
        self.magnitude_bits() == 0
    }

    /// Strictly greater than zero: a subnormal, a normal number or positive infinity.
    pub open spec fn is_positive(self) -> bool {
        0 < self.bits <= 0x7f80_0000
    }

    /// The two patterns denote one number. Zeros of both signs are the same
    /// number; a NaN is the same as nothing, itself included.
    pub open spec fn same_number(self, other: Scalar) -> bool {
        &&& !self.is_nan()
        &&& !other.is_nan()
        &&& (self.bits == other.bits || (self.is_zero() && other.is_zero()))
    }

    /// Wraps a bit pattern.
    pub fn from_bits(bits: u32) -> (r: Scalar)
        ensures
            r.bits == bits,
    {
        Scalar { bits }
    }

    /// The bit pattern.
    pub fn to_bits(self) -> (r: u32)
        ensures
            r == self.bits,
    {
        self.bits
    }

    /// Positive zero.
    pub fn zero() -> (r: Scalar)
        ensures
            r == Scalar::spec_zero(),
    {
        Scalar { bits: 0 }
    }
}

/// A vector of three reals.
#[derive(Clone, Copy, PartialEq, Eq, Structural, Debug)]
pub struct Vector3 {
    pub x: Scalar,
    pub y: Scalar,
    pub z: Scalar,
}

impl Vector3 {
    /// The vector whose components are all positive zero.
    pub open spec fn spec_zero() -> Vector3 {
        Vector3 { x: Scalar::spec_zero(), y: Scalar::spec_zero(), z: Scalar::spec_zero() }
    }

    /// The two vectors denote one point: each pair of components is the same number.
    pub open spec fn same_point(self, other: Vector3) -> bool {
        &&& self.x.same_number(other.x)
        &&& self.y.same_number(other.y)
        &&& self.z.same_number(other.z)
    }

    /// Builds a vector from its components.
    pub fn new(x: Scalar, y: Scalar, z: Scalar) -> (r: Vector3)
        ensures
            r == (Vector3 { x, y, z }),
    {
        Vector3 { x, y, z }
    }

    /// The vector whose components are all positive zero.
    pub fn zero() -> (r: Vector3)
        ensures
            r == Vector3::spec_zero(),
    {
        Vector3 { x: Scalar::zero(), y: Scalar::zero(), z: Scalar::zero() }
    }
}

/// One simulated point mass.
///
/// `acceleration` is derived anew in every step; `mass` and `density` are
/// fixed when the body is made.
#[derive(Clone, Copy, PartialEq, Eq, Structural, Debug)]
pub struct Body {
    pub position: Vector3,
    pub velocity: Vector3,
    pub acceleration: Vector3,
    pub mass: Scalar,
    pub density: Scalar,
}

impl Body {
    /// A body at rest at the origin.
    pub open spec fn at_rest(mass: Scalar, density: Scalar) -> Body {
        Body {
            position: Vector3::spec_zero(),
            velocity: Vector3::spec_zero(),
            acceleration: Vector3::spec_zero(),
            mass,
            density,
        }
    }
}

/// Every body has a mass greater than zero.
pub open spec fn masses_positive(bodies: Seq<Body>) -> bool {
    forall|i: int| 0 <= i < bodies.len() ==> (#[trigger] bodies[i]).mass.is_positive()
}

/// No two bodies stand at one point.
pub open spec fn positions_distinct(bodies: Seq<Body>) -> bool {
    forall|i: int, j: int|
        0 <= i < j < bodies.len() ==> !(#[trigger] bodies[i]).position.same_point(
            (#[trigger] bodies[j]).position,
        )
}

/// The collection is one that the force law is defined on: it divides by
/// each mass and by the distance of each pair.
pub open spec fn valid_bodies(bodies: Seq<Body>) -> bool {
    masses_positive(bodies) && positions_distinct(bodies)
}

/// What the integrator needs of a simulated entity: to read its state and to
/// overwrite position, velocity and acceleration.
pub trait Particle {
    fn position(&self) -> Vector3;

    fn velocity(&self) -> Vector3;

    fn acceleration(&self) -> Vector3;

    fn mass(&self) -> Scalar;

    fn density(&self) -> Scalar;

    fn set_position(&mut self, position: Vector3);

    fn set_velocity(&mut self, velocity: Vector3);

    fn set_acceleration(&mut self, acceleration: Vector3);
}

impl Particle for Body {
    fn position(&self) -> (r: Vector3)
        ensures
            r == self.position,
    {
        self.position
    }

    fn velocity(&self) -> (r: Vector3)
        ensures
            r == self.velocity,
    {
        self.velocity
    }

    fn acceleration(&self) -> (r: Vector3)
        ensures
            r == self.acceleration,
    {
        self.acceleration
    }

    fn mass(&self) -> (r: Scalar)
        ensures
            r == self.mass,
    {
        self.mass
    }

    fn density(&self) -> (r: Scalar)
        ensures
            r == self.density,
    {
        self.density
    }

    fn set_position(&mut self, position: Vector3)
        ensures
            *final(self) == (Body { position, ..*old(self) }),
    {
        self.position = position;
    }

    fn set_velocity(&mut self, velocity: Vector3)
        ensures
            *final(self) == (Body { velocity, ..*old(self) }),
    {
        self.velocity = velocity;
    }

    fn set_acceleration(&mut self, acceleration: Vector3)
        ensures
            *final(self) == (Body { acceleration, ..*old(self) }),
    {
        self.acceleration = acceleration;
    }
}

} // verus!
