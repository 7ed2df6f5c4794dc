use particlesimul::schedule::{Step, StepPlan};

fn drain(plan: &mut StepPlan) -> Vec<Step> {
    let mut steps = Vec::new();
    while let Some(step) = plan.next_step() {
        steps.push(step);
    }
    steps
}

fn nested_loops(n: usize) -> Vec<Step> {
    let mut steps = Vec::new();
    for i in 0..n {
        for j in 0..n {
            if i != j {
                steps.push(Step::Accumulate { target: i, source: j });
            }
        }
    }
    for i in 0..n {
        steps.push(Step::Integrate { index: i });
    }
    steps
}

#[test]
fn empty_collection_has_no_work() {
    let mut plan = StepPlan::new(0);
    assert_eq!(plan.count(), 0);
    assert_eq!(plan.next_step(), None);
}

#[test]
fn single_body_is_only_integrated() {
    let mut plan = StepPlan::new(1);
    assert_eq!(plan.next_step(), Some(Step::Integrate { index: 0 }));
    assert_eq!(plan.next_step(), None);
}

#[test]
fn two_bodies_act_on_each_other_once() {
    let mut plan = StepPlan::new(2);
    assert_eq!(
        drain(&mut plan),
        vec![
            Step::Accumulate { target: 0, source: 1 },
            Step::Accumulate { target: 1, source: 0 },
            Step::Integrate { index: 0 },
            Step::Integrate { index: 1 },
        ]
    );
}

#[test]
fn three_bodies_in_order() {
    let mut plan = StepPlan::new(3);
    assert_eq!(
        drain(&mut plan),
        vec![
            Step::Accumulate { target: 0, source: 1 },
            Step::Accumulate { target: 0, source: 2 },
            Step::Accumulate { target: 1, source: 0 },
            Step::Accumulate { target: 1, source: 2 },
            Step::Accumulate { target: 2, source: 0 },
            Step::Accumulate { target: 2, source: 1 },
            Step::Integrate { index: 0 },
            Step::Integrate { index: 1 },
            Step::Integrate { index: 2 },
        ]
    );
}

#[test]
fn plan_follows_the_nested_loops() {
    for n in 0..20 {
        let mut plan = StepPlan::new(n);
        assert_eq!(plan.count(), n);
        assert_eq!(drain(&mut plan), nested_loops(n));
    }
}

#[test]
fn a_step_over_n_bodies_has_n_squared_units() {
    for n in 0..40 {
        let mut plan = StepPlan::new(n);
        assert_eq!(drain(&mut plan).len(), n * n);
    }
}

#[test]
fn every_ordered_pair_occurs_exactly_once() {
    let n = 7;
    let mut plan = StepPlan::new(n);
    let steps = drain(&mut plan);
    for i in 0..n {
        for j in 0..n {
            let wanted = Step::Accumulate { target: i, source: j };
            let found = steps.iter().filter(|s| **s == wanted).count();
            assert_eq!(found, if i == j { 0 } else { 1 });
        }
    }
}

#[test]
fn every_body_is_integrated_exactly_once() {
    let n = 7;
    let mut plan = StepPlan::new(n);
    let steps = drain(&mut plan);
    for i in 0..n {
        let wanted = Step::Integrate { index: i };
        assert_eq!(steps.iter().filter(|s| **s == wanted).count(), 1);
    }
}

#[test]
fn no_force_is_accumulated_after_an_integration() {
    let mut plan = StepPlan::new(9);
    let steps = drain(&mut plan);
    let first_integration = steps
        .iter()
        .position(|s| matches!(s, Step::Integrate { .. }))
        .unwrap();
    assert_eq!(first_integration, 9 * 8);
    for step in &steps[first_integration..] {
        assert!(matches!(step, Step::Integrate { .. }));
    }
}

#[test]
fn a_finished_plan_stays_finished() {
    let mut plan = StepPlan::new(4);
    assert_eq!(drain(&mut plan).len(), 16);
    assert_eq!(plan.next_step(), None);
    assert_eq!(plan.next_step(), None);
    assert_eq!(plan.count(), 4);
}

#[test]
fn the_same_count_gives_the_same_plan() {
    let mut first = StepPlan::new(11);
    let mut second = StepPlan::new(11);
    assert_eq!(drain(&mut first), drain(&mut second));
}

#[test]
fn current_does_not_move_the_plan() {
    let plan = StepPlan::new(3);
    assert_eq!(plan.current(), Some(Step::Accumulate { target: 0, source: 1 }));
    assert_eq!(plan.current(), Some(Step::Accumulate { target: 0, source: 1 }));
}

#[test]
fn advance_moves_by_one_unit() {
    let mut plan = StepPlan::new(3);
    plan.advance();
    assert_eq!(plan.current(), Some(Step::Accumulate { target: 0, source: 2 }));
    plan.advance();
    assert_eq!(plan.current(), Some(Step::Accumulate { target: 1, source: 0 }));
    for _ in 0..4 {
        plan.advance();
    }
    assert_eq!(plan.current(), Some(Step::Integrate { index: 0 }));
    for _ in 0..3 {
        plan.advance();
    }
    assert_eq!(plan.current(), None);
    plan.advance();
    assert_eq!(plan.current(), None);
}

#[test]
fn the_last_body_skips_itself_at_the_end_of_its_row() {
    let mut plan = StepPlan::new(4);
    let steps = drain(&mut plan);
    assert_eq!(steps[9], Step::Accumulate { target: 3, source: 0 });
    assert_eq!(steps[11], Step::Accumulate { target: 3, source: 2 });
    assert_eq!(steps[12], Step::Integrate { index: 0 });
}
