//! One simulation step, as an exchange between the simulator and its caller.
//!
//! The simulator keeps the bodies and one force accumulator for each of
//! them, and decides what is computed next and from which values. The caller
//! computes: it is handed the operands of one unit of work at a time and
//! supplies the result.
use crate::particle::{Body, Scalar, Vector3};
use crate::schedule::{pair_steps, step_at, total_steps, Step, StepPlan};
use vstd::prelude::*;

verus! {

/// The simulator. It keeps nothing between steps.
pub struct Compute {}

/// What the caller is asked to compute.
#[derive(Clone, Copy, PartialEq, Eq, Structural, Debug)]
pub enum Work {
    /// The sum of `accumulated` and the gravitational force that body `from`
    /// exerts on body `on` under the constant `g`.
    Force { accumulated: Vector3, on: Body, from: Body, g: Scalar },
    /// The state of `body` after a time `dt` under the net force `force`:
    /// its acceleration derived from the force, its velocity advanced by the
    /// acceleration, and its position advanced by the new velocity.
    Integrate { body: Body, force: Vector3, dt: Scalar },
    /// Nothing: the step is complete.
    Done,
}

/// A step in progress.
pub struct Simulation {
    dt: Scalar,
    g: Scalar,
    bodies: Vec<Body>,
    forces: Vec<Vector3>,
    plan: StepPlan,
    initial: Ghost<Seq<Body>>,
}

/// A step in progress, as mathematical values.
pub ghost struct SimulationView {
    /// The time that the step covers.
    pub dt: Scalar,
    /// The gravitational constant.
    pub g: Scalar,
    /// The bodies as they were when the step began.
    pub initial: Seq<Body>,
    /// The bodies as they are now.
    pub bodies: Seq<Body>,
    /// The force accumulated so far on each body.
    pub forces: Seq<Vector3>,
    /// How many units of work are done.
    pub position: nat,
}

/// One zero vector for each of `n` bodies.
pub open spec fn zero_forces(n: nat) -> Seq<Vector3> {
    Seq::new(n, |i: int| Vector3::spec_zero())
}

impl SimulationView {
    /// The number of bodies.
    pub open spec fn count(self) -> nat {
        self.initial.len()
    }

    /// The state is one that a step can be in: nothing but the schedule
    /// moves a body, and a body keeps its initial state until its own
    /// integration.
    pub open spec fn well_formed(self) -> bool {
        &&& self.count() <= usize::MAX
        &&& self.bodies.len() == self.count()
        &&& self.forces.len() == self.count()
        &&& self.position <= total_steps(self.count())
        &&& forall|k: int|
            0 <= k < self.count() && self.position <= pair_steps(self.count()) + k
                ==> self.bodies[k] == self.initial[k]
    }

    /// The state in which a step over `bodies` begins.
    pub open spec fn begin(dt: Scalar, g: Scalar, bodies: Seq<Body>) -> SimulationView {
        SimulationView {
            dt,
            g,
            initial: bodies,
            bodies,
            forces: zero_forces(bodies.len()),
            position: 0,
        }
    }

    /// The work that is due. Forces are computed from the bodies as they
    /// were when the step began.
    pub open spec fn pending(self) -> Work {
        if self.position < total_steps(self.count()) {
            match step_at(self.count(), self.position) {
                Step::Accumulate { target, source } => Work::Force {
                    accumulated: self.forces[target as int],
                    on: self.initial[target as int],
                    from: self.initial[source as int],
                    g: self.g,
                },
                Step::Integrate { index } => Work::Integrate {
                    body: self.initial[index as int],
                    force: self.forces[index as int],
                    dt: self.dt,
                },
            }
        } else {
            Work::Done
        }
    }

    /// The state after the caller has supplied `accumulated` for a pending
    /// force: it replaces the accumulator of the body acted on. Where no
    /// force is pending the state stays as it is.
    pub open spec fn after_force(self, accumulated: Vector3) -> SimulationView {
        if self.pending() is Force {
            match step_at(self.count(), self.position) {
                Step::Accumulate { target, source } => SimulationView {
                    forces: self.forces.update(target as int, accumulated),
                    position: self.position + 1,
                    ..self
                },
                Step::Integrate { index } => self,
            }
        } else {
            self
        }
    }

    /// The state after the caller has supplied `body` for a pending
    /// integration: it replaces the body integrated. Where no integration
    /// is pending the state stays as it is.
    pub open spec fn after_integration(self, body: Body) -> SimulationView {
        if self.pending() is Integrate {
            match step_at(self.count(), self.position) {
                Step::Accumulate { target, source } => self,
                Step::Integrate { index } => SimulationView {
                    bodies: self.bodies.update(index as int, body),
                    position: self.position + 1,
                    ..self
                },
            }
        } else {
            self
        }
    }
}

impl View for Simulation {
    type V = SimulationView;

    closed spec fn view(&self) -> SimulationView {
        SimulationView {
            dt: self.dt,
            g: self.g,
            initial: self.initial@,
            bodies: self.bodies@,
            forces: self.forces@,
            position: self.plan.position(),
        }
    }
}

impl Simulation {
    #[verifier::type_invariant]
    spec fn consistent(self) -> bool {
        &&& self@.well_formed()
        &&& self.plan.spec_count() == self@.count()
    }

    /// The work that is due.
    pub fn pending(&self) -> (r: Work)
        ensures
            self@.well_formed(),
            r == self@.pending(),
    {
        proof {
            use_type_invariant(self);
        }
        match self.plan.current() {
            Some(Step::Accumulate { target, source }) => Work::Force {
                accumulated: self.forces[target],
                on: self.bodies[target],
                from: self.bodies[source],
                g: self.g,
            },
            Some(Step::Integrate { index }) => Work::Integrate {
                body: self.bodies[index],
                force: self.forces[index],
                dt: self.dt,
            },
            None => Work::Done,
        }
    }

    /// Takes the result of a pending force and moves on. Where no force is
    /// pending the step stays as it is.
    pub fn supply_force(self, accumulated: Vector3) -> (r: Simulation)
        ensures
            r@ == self@.after_force(accumulated),
            r@.well_formed(),
    {
        proof {
            use_type_invariant(&self);
        }
        let Simulation { dt, g, bodies, mut forces, mut plan, initial } = self;
        match plan.current() {
            Some(Step::Accumulate { target, source }) => {
                forces.set(target, accumulated);
                plan.advance();
            },
            _ => {},
        }
        Simulation { dt, g, bodies, forces, plan, initial }
    }

    /// Takes the result of a pending integration and moves on. Where no
    /// integration is pending the step stays as it is.
    pub fn supply_body(self, body: Body) -> (r: Simulation)
        ensures
            r@ == self@.after_integration(body),
            r@.well_formed(),
    {
        proof {
            use_type_invariant(&self);
        }
        let Simulation { dt, g, mut bodies, forces, mut plan, initial } = self;
        match plan.current() {
            Some(Step::Integrate { index }) => {
                bodies.set(index, body);
                plan.advance();
            },
            _ => {},
        }
        Simulation { dt, g, bodies, forces, plan, initial }
    }

    /// Ends the step and hands the bodies back as they are.
    pub fn finish(self) -> (r: Vec<Body>)
        ensures
            r@ == self@.bodies,
    {
        self.bodies
    }
}

impl Compute {
    /// Begins one step of length `dt` over `particles` under the
    /// gravitational constant `g`, with every force accumulator at zero.
    pub fn simulate(&mut self, dt: Scalar, g: Scalar, particles: Vec<Body>) -> (r: Simulation)
        ensures
            *final(self) == *old(self),
            r@ == SimulationView::begin(dt, g, particles@),
            r@.well_formed(),
    {
        let count = particles.len();
        let mut forces: Vec<Vector3> = Vec::new();
        while forces.len() < count
            invariant
                forces@.len() <= count,
                forces@ =~= zero_forces(forces@.len()),
            decreases count - forces@.len(),
        {
            forces.push(Vector3::zero());
        }
        Simulation {
            dt,
            g,
            forces,
            plan: StepPlan::new(count),
            initial: Ghost(particles@),
            bodies: particles,
        }
    }
}

} // verus!
