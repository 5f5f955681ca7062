use safety_layers::Agent;
use safety_layers::AgentN;
use safety_layers::AgentZ;
use safety_layers::CounterOps;
use safety_layers::Decision;

fn counter(target: u32, current: u32) -> AgentZ<CounterOps> {
    AgentZ { model: (target, current), ops: CounterOps }
}

#[test]
fn base_agent_always_acts() {
    // A base agent commits to an action on every model, never requesting
    // a model update on its own.
    assert_eq!(counter(4, 0).decide(), Decision::Action(1));
    assert_eq!(counter(4, 4).decide(), Decision::Action(0));
    assert_eq!(counter(0, 5).decide(), Decision::Action(-1));
    assert_eq!(counter(0, 0).decide(), Decision::Action(0));
}

#[test]
fn probing_is_idempotent() {
    // Deciding twice in a row, with nothing in between, gives the same
    // answer: probing leaves no trace in the model.
    let mut s = counter(4, 2).add(1);
    assert_eq!(s.decide(), Decision::Action(1));
    assert_eq!(s.decide(), Decision::Action(1));
    assert_eq!(s.z().model, (4, 2));

    let mut s = counter(4, 3).add(1);
    assert_eq!(s.decide(), Decision::RequestModel);
    assert_eq!(s.decide(), Decision::RequestModel);
    assert_eq!(s.z().model, (4, 3));
}

#[test]
fn mutate_undo_roundtrip_preserves_decision() {
    // At every layer count, a mutation followed by undoing its delta
    // restores a model on which the agent decides as before.
    for layers in 0..3usize {
        let mut s = counter(4, 1).add(layers);
        let before = s.decide();
        let delta = s.mutate();
        assert_eq!(s.z().model, (3, 1));
        s.undo(delta);
        assert_eq!(s.z().model, (4, 1));
        assert_eq!(s.decide(), before);
    }
}

#[test]
fn peano_layer_structure() {
    // `add(n)` builds exactly `n` successor shells; `dec` removes them one
    // at a time and finally returns the untouched base agent.
    let n = counter(4, 0).add(3);
    assert!(matches!(n, AgentN::S(_)));
    let n = n.dec();
    assert!(matches!(n, AgentN::S(_)));
    let n = n.dec();
    assert!(matches!(n, AgentN::S(_)));
    let n = n.dec();
    match n {
        AgentN::Z(base) => assert_eq!(base.model, (4, 0)),
        AgentN::S(_) => panic!("three dec calls must reach the base agent"),
    }

    // `dec` on a bare base agent leaves it a bare base agent.
    let n = counter(4, 0).add(0).dec();
    assert!(matches!(n, AgentN::Z(_)));

    // `inc` on `add(n)` has the shape of `add(n + 1)`.
    let n = counter(4, 0).add(1).inc();
    match n {
        AgentN::S(shell) => assert!(matches!(shell.core, AgentN::S(_))),
        AgentN::Z(_) => panic!("inc must wrap one more successor shell"),
    }
}

#[test]
fn inc_behaves_as_one_more_layer() {
    // An agent grown with `inc` decides exactly as one built with one more
    // layer from the start.
    let mut grown = counter(4, 2).add(1).inc();
    let mut built = counter(4, 2).add(2);
    assert_eq!(grown.decide(), built.decide());
    assert_eq!(grown.decide(), Decision::RequestModel);

    let mut grown = counter(4, 1).add(1).inc();
    let mut built = counter(4, 1).add(2);
    assert_eq!(grown.decide(), built.decide());
    assert_eq!(grown.decide(), Decision::Action(1));
}

#[test]
fn layers_only_add_caution() {
    // Safety monotonicity on a concrete run: where a deeper stack still
    // commits, it commits to the same action as the shallower one, and
    // where it stops committing it requests a model update instead.
    assert_eq!(counter(4, 1).add(0).decide(), Decision::Action(1));
    assert_eq!(counter(4, 1).add(1).decide(), Decision::Action(1));
    assert_eq!(counter(4, 1).add(2).decide(), Decision::Action(1));

    assert_eq!(counter(4, 2).add(0).decide(), Decision::Action(1));
    assert_eq!(counter(4, 2).add(1).decide(), Decision::Action(1));
    assert_eq!(counter(4, 2).add(2).decide(), Decision::RequestModel);

    assert_eq!(counter(4, 3).add(0).decide(), Decision::Action(1));
    assert_eq!(counter(4, 3).add(1).decide(), Decision::RequestModel);
    assert_eq!(counter(4, 3).add(2).decide(), Decision::RequestModel);
}

#[test]
fn exhausted_probes_escalate() {
    // The core one layer down requests a model update under the mutated
    // model, so every probe of the outer layer is inconclusive and the
    // outer layer escalates instead of falling back to the base action.
    assert_eq!(counter(3, 2).add(1).decide(), Decision::RequestModel);
    assert_eq!(counter(4, 2).add(2).decide(), Decision::RequestModel);
}

#[test]
fn update_model_reaches_the_base() {
    // Replacing the model through a two-layer stack restores the base
    // agent's confidence.
    let mut s = counter(4, 2).add(2);
    assert_eq!(s.decide(), Decision::RequestModel);
    s.update_model((9, 2));
    assert_eq!(s.z().model, (9, 2));
    assert_eq!(s.decide(), Decision::Action(1));
}

#[test]
fn counter_actions_out_of_range_do_nothing() {
    // The example actor leaves the counter alone when the sum would leave
    // `u32` range.
    let mut z = counter(4, 0);
    z.act(-1);
    assert_eq!(z.model, (4, 0));
    let mut z = counter(4, u32::MAX);
    z.act(1);
    assert_eq!(z.model, (4, u32::MAX));
    let mut z = counter(4, 7);
    z.act(-3);
    assert_eq!(z.model, (4, 4));
}

#[test]
fn zero_target_mutation_is_inert() {
    // With the target already at zero the mutater records a zero delta and
    // changes nothing, so a probe agrees with the base decision and even a
    // layered agent commits.
    let mut z = counter(0, 0);
    let delta = z.mutate();
    assert_eq!(delta, 0);
    assert_eq!(z.model, (0, 0));
    z.undo(delta);
    assert_eq!(z.model, (0, 0));
    let mut s = counter(0, 0).add(1);
    assert_eq!(s.decide(), Decision::Action(0));
}
