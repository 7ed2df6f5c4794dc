//! The order of work in one simulation step.
//!
//! A step over `n` bodies has two phases. First, for every ordered pair of
//! distinct bodies, the force that the second exerts on the first is added to
//! the first body's accumulator. Only then is each body integrated.
use vstd::arithmetic::div_mod::{
    lemma_fundamental_div_mod,
    lemma_fundamental_div_mod_converse,
    lemma_mod_bound,
};
use vstd::prelude::*;

verus! {

/// One unit of work in a simulation step.
#[derive(Clone, Copy, PartialEq, Eq, Structural, Debug)]
pub enum Step {
    /// Add to the accumulator of body `target` the force that body `source`
    /// exerts on it.
    Accumulate { target: usize, source: usize },
    /// Derive the acceleration of body `index` from its accumulator, then
    /// advance its velocity, then its position.
    Integrate { index: usize },
}

/// The number of ordered pairs of distinct bodies among `n`.
pub open spec fn pair_steps(n: nat) -> nat {
    if n == 0 {
        0
    } else {
        n * ((n - 1) as nat)
    }
}

/// The number of units of work in a step over `n` bodies.
pub open spec fn total_steps(n: nat) -> nat {
    pair_steps(n) + n
}

/// The place of the pair (`target`, `source`) among the pairs of `n` bodies:
/// pairs are ordered by target, and under one target by source.
pub open spec fn pair_index(n: nat, target: nat, source: nat) -> nat {
    target * ((n - 1) as nat) + if source < target {
        source
    } else {
        (source - 1) as nat
    }
}

/// The `k`-th unit of work in a step over `n` bodies.
pub open spec fn step_at(n: nat, k: nat) -> Step {
    if k < pair_steps(n) {
        let target = k / ((n - 1) as nat);
        let rest = k % ((n - 1) as nat);
        Step::Accumulate {
            target: target as usize,
            source: (if rest < target {
                rest
            } else {
                rest + 1
            }) as usize,
        }
    } else {
        Step::Integrate { index: (k - pair_steps(n)) as usize }
    }
}

/// All the work of a step over `n` bodies, in order.
pub open spec fn schedule(n: nat) -> Seq<Step> {
    Seq::new(total_steps(n), |k: int| step_at(n, k as nat))
}

/// The unit of work at place `k`, if the step is that long.
pub open spec fn step_or_none(n: nat, k: nat) -> Option<Step> {
    if k < total_steps(n) {
        Some(schedule(n)[k as int])
    } else {
        None
    }
}

/// A place in the schedule of a step: how many bodies there are and how many
/// units of work lie behind.
pub struct StepPlan {
    count: usize,
    integrating: bool,
    target: usize,
    source: usize,
}

impl StepPlan {
    #[verifier::type_invariant]
    spec fn well_formed(self) -> bool {
        if self.integrating {
            self.target <= self.count
        } else {
            &&& self.count >= 2
            &&& self.target < self.count
            &&& self.source < self.count
            &&& self.source != self.target
        }
    }

    /// The number of bodies.
    pub closed spec fn spec_count(self) -> nat {
        self.count as nat
    }

    /// How many units of work lie behind.
    pub closed spec fn position(self) -> nat {
        if self.integrating {
            pair_steps(self.count as nat) + self.target as nat
        } else {
            pair_index(self.count as nat, self.target as nat, self.source as nat)
        }
    }

    /// The start of a step over `count` bodies.
    pub fn new(count: usize) -> (r: StepPlan)
        ensures
            r.spec_count() == count,
            r.position() == 0,
    {
        if count < 2 {
            assert(pair_steps(count as nat) == 0) by (nonlinear_arith)
                requires
                    count < 2,
            ;
            StepPlan { count, integrating: true, target: 0, source: 0 }
        } else {
            assert(pair_index(count as nat, 0, 1) == 0) by (nonlinear_arith);
            StepPlan { count, integrating: false, target: 0, source: 1 }
        }
    }

    /// The number of bodies.
    pub fn count(&self) -> (r: usize)
        ensures
            r == self.spec_count(),
    {
        self.count
    }

    /// The unit of work that is due, or `None` when the step is complete.
    /// It names bodies of the collection only, and never a body as the
    /// source of a force on itself.
    pub fn current(&self) -> (r: Option<Step>)
        ensures
            r == step_or_none(self.spec_count(), self.position()),
            self.position() <= total_steps(self.spec_count()),
            r is Some ==> ((r->0 is Accumulate) <==> self.position() < pair_steps(
                self.spec_count(),
            )),
            match r {
                Some(Step::Accumulate { target, source }) => {
                    &&& target < self.spec_count()
                    &&& source < self.spec_count()
                    &&& target != source
                },
                Some(Step::Integrate { index }) => pair_steps(self.spec_count()) + index
                    == self.position(),
                None => true,
            },
    {
        proof {
            use_type_invariant(self);
        }
        if self.integrating {
            if self.target < self.count {
                Some(Step::Integrate { index: self.target })
            } else {
                None
            }
        } else {
            proof {
                lemma_pair_index_in_range(
                    self.count as nat,
                    self.target as nat,
                    self.source as nat,
                );
                lemma_step_at_pair(self.count as nat, self.target as nat, self.source as nat);
            }
            Some(Step::Accumulate { target: self.target, source: self.source })
        }
    }

    /// Moves past the unit of work that is due. A complete step stays as it is.
    pub fn advance(&mut self)
        ensures
            final(self).spec_count() == old(self).spec_count(),
            final(self).position() == if old(self).position() < total_steps(
                old(self).spec_count(),
            ) {
                old(self).position() + 1
            } else {
                old(self).position()
            },
            final(self).position() <= total_steps(old(self).spec_count()),
    {
        proof {
            use_type_invariant(&*self);
        }
        let count = self.count;
        let target = self.target;
        let source = self.source;
        let ghost n = count as nat;
        if self.integrating {
            if target < count {
                *self = StepPlan { count, integrating: true, target: target + 1, source };
            }
        } else {
            proof {
                lemma_pair_index_in_range(n, target as nat, source as nat);
            }
            let skipped: usize = if source + 1 == target {
                source + 2
            } else {
                source + 1
            };
            if skipped < count {
                *self = StepPlan { count, integrating: false, target, source: skipped };
            } else if target + 1 < count {
                assert(pair_index(n, (target + 1) as nat, 0) == pair_index(
                    n,
                    target as nat,
                    source as nat,
                ) + 1) by (nonlinear_arith)
                    requires
                        n >= 2,
                        target + 1 < n,
                        source < n,
                        source != target,
                        if source + 1 == target {
                            source + 2 >= n
                        } else {
                            source + 1 >= n
                        },
                ;
                *self = StepPlan { count, integrating: false, target: target + 1, source: 0 };
            } else {
                assert(pair_steps(n) == pair_index(n, target as nat, source as nat) + 1)
                    by (nonlinear_arith)
                    requires
                        n >= 2,
                        target + 1 == n,
                        source < n,
                        source != target,
                        if source + 1 == target {
                            source + 2 >= n
                        } else {
                            source + 1 >= n
                        },
                ;
                *self = StepPlan { count, integrating: true, target: 0, source: 0 };
            }
        }
    }

    /// Hands out the unit of work that is due and moves past it, or returns
    /// `None` when the step is complete.
    pub fn next_step(&mut self) -> (r: Option<Step>)
        ensures
            r == step_or_none(old(self).spec_count(), old(self).position()),
            final(self).spec_count() == old(self).spec_count(),
            final(self).position() == if r is Some {
                old(self).position() + 1
            } else {
                old(self).position()
            },
    {
        let step = self.current();
        self.advance();
        step
    }
}

/// A pair of distinct bodies has its place among the pairs.
pub proof fn lemma_pair_index_in_range(n: nat, target: nat, source: nat)
    requires
        target < n,
        source < n,
        source != target,
    ensures
        pair_index(n, target, source) < pair_steps(n),
{
    let m = (n - 1) as nat;
    let rest = if source < target {
        source
    } else {
        (source - 1) as nat
    };
    assert(rest < m);
    assert(target * m + rest < n * m) by (nonlinear_arith)
        requires
            target + 1 <= n,
            rest < m,
    ;
}

/// At the place of a pair stands the work for that pair.
pub proof fn lemma_step_at_pair(n: nat, target: nat, source: nat)
    requires
        n <= usize::MAX,
        target < n,
        source < n,
        source != target,
    ensures
        step_at(n, pair_index(n, target, source)) == (Step::Accumulate {
            target: target as usize,
            source: source as usize,
        }),
{
    lemma_pair_index_in_range(n, target, source);
    let m = (n - 1) as nat;
    let rest = if source < target {
        source
    } else {
        (source - 1) as nat
    };
    let k = pair_index(n, target, source);
    assert(k == m * target + rest) by (nonlinear_arith)
        requires
            k == target * m + rest,
    ;
    lemma_fundamental_div_mod_converse(k as int, m as int, target as int, rest as int);
}

/// The work at a place among the pairs is that of the pair whose place it is.
pub proof fn lemma_pair_of_place(n: nat, k: nat)
    requires
        n <= usize::MAX,
        k < pair_steps(n),
    ensures
        match step_at(n, k) {
            Step::Accumulate { target, source } => {
                &&& target < n
                &&& source < n
                &&& target != source
                &&& pair_index(n, target as nat, source as nat) == k
            },
            Step::Integrate { index } => false,
        },
{
    let m = (n - 1) as nat;
    assert(n >= 2 && m >= 1) by (nonlinear_arith)
        requires
            k < pair_steps(n),
            m == (n - 1) as nat,
    ;
    let target = k / m;
    let rest = k % m;
    lemma_fundamental_div_mod(k as int, m as int);
    lemma_mod_bound(k as int, m as int);
    assert(target < n) by (nonlinear_arith)
        requires
            k == m * target + rest,
            k < n * m,
            m >= 1,
    ;
    assert(m * target == target * m) by (nonlinear_arith);
}

/// Every unit of work names bodies of the collection, and no body exerts a
/// force on itself.
pub proof fn lemma_steps_name_bodies(n: nat, k: nat)
    requires
        n <= usize::MAX,
        k < total_steps(n),
    ensures
        match step_at(n, k) {
            Step::Accumulate { target, source } => target < n && source < n && target != source,
            Step::Integrate { index } => index < n,
        },
{
    if k < pair_steps(n) {
        lemma_pair_of_place(n, k);
    }
}

/// Each ordered pair of distinct bodies is evaluated exactly once: its work
/// stands at the pair's place in the schedule and nowhere else.
pub proof fn lemma_every_pair_once(n: nat, target: nat, source: nat)
    requires
        n <= usize::MAX,
        target < n,
        source < n,
        target != source,
    ensures
        pair_index(n, target, source) < pair_steps(n),
        forall|k: nat|
            k < total_steps(n) ==> (#[trigger] step_at(n, k) == (Step::Accumulate {
                target: target as usize,
                source: source as usize,
            }) <==> k == pair_index(n, target, source)),
{
    lemma_pair_index_in_range(n, target, source);
    lemma_step_at_pair(n, target, source);
    assert forall|k: nat| k < total_steps(n) && #[trigger] step_at(n, k) == (Step::Accumulate {
        target: target as usize,
        source: source as usize,
    }) implies k == pair_index(n, target, source) by {
        lemma_pair_of_place(n, k);
    }
}

/// Each body is integrated exactly once, in index order, after the last pair.
pub proof fn lemma_every_body_integrated_once(n: nat, index: nat)
    requires
        n <= usize::MAX,
        index < n,
    ensures
        forall|k: nat|
            k < total_steps(n) ==> (#[trigger] step_at(n, k) == (Step::Integrate {
                index: index as usize,
            }) <==> k == pair_steps(n) + index),
{
}

/// The two phases do not mix: all forces are accumulated before any body is
/// integrated.
pub proof fn lemma_forces_before_integration(n: nat, a: nat, b: nat)
    requires
        a < total_steps(n),
        b < total_steps(n),
        step_at(n, a) is Accumulate,
        step_at(n, b) is Integrate,
    ensures
        a < pair_steps(n) <= b,
{
}

/// Two bodies: each receives the force of the other, once, and then both
/// are integrated.
pub proof fn lemma_two_bodies()
    ensures
        schedule(2) =~= seq![
            Step::Accumulate { target: 0, source: 1 },
            Step::Accumulate { target: 1, source: 0 },
            Step::Integrate { index: 0 },
            Step::Integrate { index: 1 },
        ],
{
    assert(pair_steps(2) == 2) by (nonlinear_arith);
    lemma_step_at_pair(2, 0, 1);
    lemma_step_at_pair(2, 1, 0);
    assert(pair_index(2, 0, 1) == 0) by (nonlinear_arith);
    assert(pair_index(2, 1, 0) == 1) by (nonlinear_arith);
}

/// With fewer than two bodies there is no pair: no force is accumulated, and
/// the step integrates the one body, if there is one.
pub proof fn lemma_fewer_than_two_bodies(n: nat)
    requires
        n <= 1,
    ensures
        pair_steps(n) == 0,
        n == 0 ==> schedule(n) =~= Seq::<Step>::empty(),
        n == 1 ==> schedule(n) =~= seq![Step::Integrate { index: 0 }],
{
    assert(pair_steps(n) == 0) by (nonlinear_arith)
        requires
            n <= 1,
    ;
}

} // verus!
