//! The laws relating the safety layers, stated and proved once and for
//! all implementations of the capability contract.

use vstd::prelude::*;

use crate::contract::Decision;
use crate::contract::Ops;
use crate::layers::decide_at;
use crate::layers::AgentN;

verus! {

/// A layered agent never invents an action: whatever the layer count, its
/// decision is either a request for an updated model or exactly the base
/// decision on the current model.
pub proof fn lemma_no_new_action<O: Ops>(layers: nat, m: O::Model)
    ensures
        decide_at::<O>(layers, m) == Decision::<O::Action>::RequestModel || decide_at::<O>(
            layers,
            m,
        ) == Decision::Action(O::decide_spec(m)),
{
}

/// Safety monotonicity: if an agent with one more safety layer commits to
/// an action, the agent one layer shallower, run on the same model, commits
/// to the same action or requests a model update. Added layers only ever
/// add caution; they never introduce a disagreeing action.
pub proof fn lemma_safety_monotone<O: Ops>(layers: nat, m: O::Model, a: O::Action)
    requires
        decide_at::<O>(layers + 1, m) == Decision::Action(a),
    ensures
        decide_at::<O>(layers, m) == Decision::Action(a) || decide_at::<O>(layers, m)
            == Decision::<O::Action>::RequestModel,
{
    lemma_no_new_action::<O>(layers + 1, m);
    lemma_no_new_action::<O>(layers, m);
}

/// Mutate/undo round-trip: undoing the delta recorded by a mutation
/// restores a model on which an agent with any number of safety layers
/// decides exactly as it did before the mutation.
pub proof fn lemma_mutate_undo_roundtrip<O: Ops>(layers: nat, m: O::Model)
    ensures
        decide_at::<O>(layers, O::undo_spec(O::mutate_spec(m), O::delta_spec(m))) == decide_at::<
            O,
        >(layers, m),
{
    O::lemma_undo_mutate(m);
}

/// Exhaustion escalates: when every probe of the core is inconclusive (the
/// core, one layer shallower, requests a model update under the mutated
/// model), the wrapping layer requests a model update as well. It never
/// falls back to the unconfirmed base action.
pub proof fn lemma_exhaustion_escalates<O: Ops>(layers: nat, m: O::Model)
    requires
        decide_at::<O>(layers, O::mutate_spec(m)) == Decision::<O::Action>::RequestModel,
    ensures
        decide_at::<O>(layers + 1, m) == Decision::<O::Action>::RequestModel,
{
}

/// Peano correspondence: removing one layer at a time, as many times as
/// there are layers, returns exactly the bare agent that wraps the
/// original, unmodified base agent.
pub proof fn lemma_dec_to_base<O: Ops>(agent: AgentN<O>)
    ensures
        agent.dec_many(agent.depth()) == AgentN::Z(agent.base()),
    decreases agent,
{
    match agent {
        AgentN::Z(_) => {
        },
        AgentN::S(shell) => {
            lemma_dec_to_base(shell.core);
        },
    }
}

} // verus!
