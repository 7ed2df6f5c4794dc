//! What a completed step amounts to.
//!
//! The arithmetic of a step is the caller's. Whatever it is, as long as the
//! caller answers each unit of work with one and the same force law and one
//! and the same integrator, the exchange leaves every body integrated once,
//! under the sum of the forces that all other bodies exerted on it before
//! the step began.
use crate::compute::{SimulationView, Work};
use crate::particle::{Body, Scalar, Vector3};
use crate::schedule::{
    lemma_pair_index_in_range,
    lemma_step_at_pair,
    pair_index,
    pair_steps,
    total_steps,
};
use vstd::prelude::*;

verus! {

/// A caller's answer to a pending force: from the force accumulated so far,
/// the body acted on, the body acting and the gravitational constant, the
/// new accumulated force.
pub type ForceLaw = spec_fn(Vector3, Body, Body, Scalar) -> Vector3;

/// A caller's answer to a pending integration: from a body, the net force on
/// it and the length of the step, the body after the step.
pub type Integrator = spec_fn(Body, Vector3, Scalar) -> Body;

/// The force accumulated on body `i` once the bodies before `upto` have
/// acted on it, in index order. No body acts on itself.
pub open spec fn net_force(law: ForceLaw, g: Scalar, bodies: Seq<Body>, i: int, upto: int) -> Vector3
    decreases upto,
{
    if upto <= 0 {
        Vector3::spec_zero()
    } else if upto - 1 == i {
        net_force(law, g, bodies, i, upto - 1)
    } else {
        law(net_force(law, g, bodies, i, upto - 1), bodies[i], bodies[upto - 1], g)
    }
}

/// The bodies after one step: each integrated under the net force of all
/// others, every force taken from the bodies as they were before the step.
pub open spec fn stepped(
    law: ForceLaw,
    integrator: Integrator,
    dt: Scalar,
    g: Scalar,
    bodies: Seq<Body>,
) -> Seq<Body> {
    Seq::new(
        bodies.len(),
        |i: int| integrator(bodies[i], net_force(law, g, bodies, i, bodies.len() as int), dt),
    )
}

/// The state after the caller has answered the work that is due.
pub open spec fn answered(v: SimulationView, law: ForceLaw, integrator: Integrator) -> SimulationView {
    match v.pending() {
        Work::Force { accumulated, on, from, g } => v.after_force(law(accumulated, on, from, g)),
        Work::Integrate { body, force, dt } => v.after_integration(integrator(body, force, dt)),
        Work::Done => v,
    }
}

/// The state after the caller has answered all the work of the step.
pub open spec fn completed(v: SimulationView, law: ForceLaw, integrator: Integrator) -> SimulationView
    decreases total_steps(v.count()) - v.position,
{
    if v.pending() is Done {
        v
    } else {
        completed(answered(v, law, integrator), law, integrator)
    }
}

/// The state is the one before the force of body `source` on body `target`
/// is evaluated: earlier targets hold their net force, later ones nothing,
/// and no body has moved.
spec fn before_pair(v: SimulationView, law: ForceLaw, target: int, source: int) -> bool {
    let n = v.count() as int;
    &&& v.well_formed()
    &&& v.bodies =~= v.initial
    &&& 0 <= target < n
    &&& 0 <= source < n
    &&& source != target
    &&& v.position == pair_index(v.count(), target as nat, source as nat)
    &&& forall|i: int| 0 <= i < target ==> v.forces[i] == net_force(law, v.g, v.initial, i, n)
    &&& v.forces[target] == net_force(law, v.g, v.initial, target, source)
    &&& forall|i: int| target < i < n ==> v.forces[i] == Vector3::spec_zero()
}

/// The state is the one before body `index` is integrated: every
/// accumulator holds a net force, earlier bodies are integrated, and the
/// others have not moved.
spec fn before_integration(
    v: SimulationView,
    law: ForceLaw,
    integrator: Integrator,
    index: int,
) -> bool {
    let n = v.count() as int;
    &&& v.well_formed()
    &&& 0 <= index <= n
    &&& v.position == pair_steps(v.count()) + index
    &&& forall|i: int| 0 <= i < n ==> v.forces[i] == net_force(law, v.g, v.initial, i, n)
    &&& forall|i: int|
        0 <= i < index ==> v.bodies[i] == integrator(
            v.initial[i],
            net_force(law, v.g, v.initial, i, n),
            v.dt,
        )
    &&& forall|i: int| index <= i < n ==> v.bodies[i] == v.initial[i]
}

/// What the theorem says of a completed state.
spec fn is_outcome(r: SimulationView, v: SimulationView, law: ForceLaw, integrator: Integrator) -> bool {
    &&& r.pending() is Done
    &&& r.well_formed()
    &&& r.initial == v.initial
    &&& r.bodies =~= stepped(law, integrator, v.dt, v.g, v.initial)
}

proof fn lemma_complete_integration(
    v: SimulationView,
    law: ForceLaw,
    integrator: Integrator,
    index: int,
)
    requires
        before_integration(v, law, integrator, index),
    ensures
        is_outcome(completed(v, law, integrator), v, law, integrator),
    decreases v.count() - index,
{
    let n = v.count() as int;
    if index < n {
        let next = answered(v, law, integrator);
        assert(v.pending() == (Work::Integrate {
            body: v.initial[index],
            force: v.forces[index],
            dt: v.dt,
        }));
        assert(before_integration(next, law, integrator, index + 1));
        lemma_complete_integration(next, law, integrator, index + 1);
    }
}

proof fn lemma_complete_forces(
    v: SimulationView,
    law: ForceLaw,
    integrator: Integrator,
    target: int,
    source: int,
)
    requires
        before_pair(v, law, target, source),
    ensures
        is_outcome(completed(v, law, integrator), v, law, integrator),
    decreases v.count() - target, v.count() - source,
{
    let count = v.count();
    let n = count as int;
    lemma_pair_index_in_range(count, target as nat, source as nat);
    lemma_step_at_pair(count, target as nat, source as nat);
    let sum = law(v.forces[target], v.initial[target], v.initial[source], v.g);
    assert(v.pending() == (Work::Force {
        accumulated: v.forces[target],
        on: v.initial[target],
        from: v.initial[source],
        g: v.g,
    }));
    let next = answered(v, law, integrator);
    assert(next == v.after_force(sum));
    assert(next.forces =~= v.forces.update(target, sum));
    assert(sum == net_force(law, v.g, v.initial, target, source + 1));
    let skipped = if source + 1 == target {
        source + 2
    } else {
        source + 1
    };
    assert(sum == net_force(law, v.g, v.initial, target, skipped));
    if skipped < n {
        assert(before_pair(next, law, target, skipped));
        lemma_complete_forces(next, law, integrator, target, skipped);
    } else {
        assert(sum == net_force(law, v.g, v.initial, target, n));
        if target + 1 < n {
            assert(pair_index(count, (target + 1) as nat, 0) == pair_index(
                count,
                target as nat,
                source as nat,
            ) + 1) by (nonlinear_arith)
                requires
                    n == count,
                    n >= 2,
                    0 <= target,
                    target + 1 < n,
                    0 <= source < n,
                    source != target,
                    skipped >= n,
                    skipped == if source + 1 == target {
                        source + 2
                    } else {
                        source + 1
                    },
            ;
            assert(net_force(law, v.g, v.initial, target + 1, 0) == Vector3::spec_zero());
            assert(before_pair(next, law, target + 1, 0));
            lemma_complete_forces(next, law, integrator, target + 1, 0);
        } else {
            assert(pair_steps(count) == pair_index(count, target as nat, source as nat) + 1)
                by (nonlinear_arith)
                requires
                    n == count,
                    n >= 2,
                    target + 1 == n,
                    0 <= source < n,
                    source != target,
                    skipped >= n,
                    skipped == if source + 1 == target {
                        source + 2
                    } else {
                        source + 1
                    },
            ;
            assert(before_integration(next, law, integrator, 0));
            lemma_complete_integration(next, law, integrator, 0);
        }
    }
}

/// One step, whatever the arithmetic: when every unit of work is answered
/// with `law` and `integrator`, the step ends with each body integrated
/// under the net force of all the others, all forces taken from the bodies
/// as they were before the step. The outcome depends on nothing but the
/// bodies, `dt`, `g` and the two answers.
pub proof fn lemma_step_outcome(
    law: ForceLaw,
    integrator: Integrator,
    dt: Scalar,
    g: Scalar,
    bodies: Seq<Body>,
)
    requires
        bodies.len() <= usize::MAX,
    ensures
        completed(SimulationView::begin(dt, g, bodies), law, integrator).pending() is Done,
        completed(SimulationView::begin(dt, g, bodies), law, integrator).bodies =~= stepped(
            law,
            integrator,
            dt,
            g,
            bodies,
        ),
{
    let v = SimulationView::begin(dt, g, bodies);
    let n = bodies.len();
    if n < 2 {
        assert(pair_steps(n) == 0) by (nonlinear_arith)
            requires
                n < 2,
        ;
        if n == 1 {
            assert(net_force(law, g, bodies, 0, 1) == net_force(law, g, bodies, 0, 0));
        }
        assert(before_integration(v, law, integrator, 0));
        lemma_complete_integration(v, law, integrator, 0);
    } else {
        assert(pair_index(n, 0, 1) == 0) by (nonlinear_arith);
        assert(pair_steps(n) + n >= 0);
        assert(net_force(law, g, bodies, 0, 1) == net_force(law, g, bodies, 0, 0));
        assert(before_pair(v, law, 0, 1));
        lemma_complete_forces(v, law, integrator, 0, 1);
    }
}

/// A collection without bodies is left as it is, and a single body is
/// integrated under no force at all.
pub proof fn lemma_no_pair_no_force(
    law: ForceLaw,
    integrator: Integrator,
    dt: Scalar,
    g: Scalar,
    bodies: Seq<Body>,
)
    requires
        bodies.len() <= 1,
    ensures
        bodies.len() == 0 ==> stepped(law, integrator, dt, g, bodies) =~= bodies,
        bodies.len() == 1 ==> stepped(law, integrator, dt, g, bodies) =~= seq![
            integrator(bodies[0], Vector3::spec_zero(), dt),
        ],
{
    if bodies.len() == 1 {
        assert(net_force(law, g, bodies, 0, 1) == net_force(law, g, bodies, 0, 0));
    }
}

/// Two bodies: each is integrated under the one force that the other
/// exerts on it, added to zero.
pub proof fn lemma_two_body_forces(law: ForceLaw, g: Scalar, bodies: Seq<Body>)
    requires
        bodies.len() == 2,
    ensures
        net_force(law, g, bodies, 0, 2) == law(Vector3::spec_zero(), bodies[0], bodies[1], g),
        net_force(law, g, bodies, 1, 2) == law(Vector3::spec_zero(), bodies[1], bodies[0], g),
{
    assert(net_force(law, g, bodies, 0, 1) == net_force(law, g, bodies, 0, 0));
    assert(net_force(law, g, bodies, 1, 1) == law(
        net_force(law, g, bodies, 1, 0),
        bodies[1],
        bodies[0],
        g,
    ));
    assert(net_force(law, g, bodies, 1, 2) == net_force(law, g, bodies, 1, 1));
}

} // verus!
