//! The capability contract between a host application and an agent.

use vstd::prelude::*;
use vstd::std_specs::cmp::PartialEqSpec;

verus! {

/// The outcome of asking an agent what to do next: either an action the
/// agent commits to, or a request for an updated model of the environment.
#[derive(Debug, PartialEq)]
pub enum Decision<A> {
    /// An action to perform.
    Action(A),
    /// Request an updated model of the environment.
    RequestModel,
}

/// The operations a host supplies when constructing a base agent.
///
/// An implementation fixes the model, action and delta types and provides
/// the four pure operations of a base agent: deciding on an action, applying
/// an action to the model, mutating the model while recording a delta, and
/// undoing a recorded mutation. Each executable operation is pinned to a
/// specification function of the model alone, so the operations are
/// deterministic and capture no hidden state; the safety layers rely on that
/// when they probe hypothetical mutations.
pub trait Ops: Sized {
    /// The agent's model of its environment and goals.
    type Model;

    /// The actions the agent can commit to. Deciding equality of actions
    /// must agree with logical equality; see [`Ops::lemma_action_eq`].
    type Action: PartialEq;

    /// A record of one mutation, sufficient to reverse it exactly.
    type Delta;

    /// The action the decider chooses on a given model.
    spec fn decide_spec(m: Self::Model) -> Self::Action;

    /// The model after an action is applied to it.
    spec fn act_spec(m: Self::Model, a: Self::Action) -> Self::Model;

    /// The model after one hypothetical mutation.
    spec fn mutate_spec(m: Self::Model) -> Self::Model;

    /// The delta that mutating a given model records.
    spec fn delta_spec(m: Self::Model) -> Self::Delta;

    /// The model after a delta is undone.
    spec fn undo_spec(m: Self::Model, d: Self::Delta) -> Self::Model;

    /// Undoing the delta recorded by a mutation restores the model exactly.
    /// The safety layers rely on this to probe hypothetical futures without
    /// permanently altering state.
    proof fn lemma_undo_mutate(m: Self::Model)
        ensures
            Self::undo_spec(Self::mutate_spec(m), Self::delta_spec(m)) == m,
    ;

    /// The equality test on actions decides logical equality. The safety
    /// layers compare independently derived actions with `==` and conclude
    /// that the actions are the same value.
    proof fn lemma_action_eq()
        ensures
            Self::Action::obeys_eq_spec(),
            forall|x: Self::Action, y: Self::Action| #[trigger] x.eq_spec(&y) <==> x == y,
    ;

    /// Decide on an action for the given model.
    fn decide(&self, m: &Self::Model) -> (a: Self::Action)
        ensures
            a == Self::decide_spec(*m),
    ;

    /// Apply an action to the model, in place.
    fn act(&self, m: &mut Self::Model, a: Self::Action)
        ensures
            *final(m) == Self::act_spec(*old(m), a),
    ;

    /// Mutate the model in place and record the change in a delta.
    fn mutate(&self, m: &mut Self::Model) -> (d: Self::Delta)
        ensures
            *final(m) == Self::mutate_spec(*old(m)),
            d == Self::delta_spec(*old(m)),
    ;

    /// Undo a recorded mutation, in place.
    fn undo(&self, m: &mut Self::Model, d: Self::Delta)
        ensures
            *final(m) == Self::undo_spec(*old(m), d),
    ;
}

/// Implemented by agents.
///
/// The specification functions describe an agent's state abstractly: how
/// many safety layers it has, what its current model is, and what each
/// operation does. Two agents are congruent when they differ at most in
/// their model; every operation but a committed `act` either preserves the
/// agent entirely or preserves its congruence class while changing the
/// model as specified.
pub trait Agent: Sized {
    /// The type of the model.
    type Model;

    /// The type of actions.
    type Action;

    /// The type of delta changes (caused by mutation).
    type Delta;

    /// How many safety layers wrap the base agent.
    spec fn layers(&self) -> nat;

    /// The model held by the base agent at the bottom of the stack.
    spec fn model(&self) -> Self::Model;

    /// True when the two agents differ at most in their model: same layer
    /// structure, same operations.
    spec fn congruent(&self, other: &Self) -> bool;

    /// The decision this agent reaches, as a function of its state.
    spec fn decision(&self) -> Decision<Self::Action>;

    /// The model after an action is applied.
    spec fn acted(&self, a: Self::Action) -> Self::Model;

    /// The model after one hypothetical mutation.
    spec fn mutated(&self) -> Self::Model;

    /// The delta recorded by one hypothetical mutation.
    spec fn mutation_delta(&self) -> Self::Delta;

    /// The model after a delta is undone.
    spec fn undone(&self, d: Self::Delta) -> Self::Model;

    /// Update internal model. The replacement is unconditional and reaches
    /// the single base agent at the bottom of the stack.
    fn update_model(&mut self, model: Self::Model)
        ensures
            final(self).congruent(old(self)),
            final(self).model() == model,
    ;

    /// Decide what to do next. Pure from the caller's perspective: the
    /// agent is returned to exactly the state it started in, so deciding
    /// twice in a row yields identical results.
    fn decide(&mut self) -> (d: Decision<Self::Action>)
        ensures
            *final(self) == *old(self),
            d == old(self).decision(),
    ;

    /// Perform an action on the internal model. This commits: the change
    /// is not meant to be undone.
    fn act(&mut self, action: Self::Action)
        ensures
            final(self).congruent(old(self)),
            final(self).model() == old(self).acted(action),
    ;

    /// Mutate the model tentatively, returning the delta that undoes it.
    fn mutate(&mut self) -> (d: Self::Delta)
        ensures
            final(self).congruent(old(self)),
            final(self).model() == old(self).mutated(),
            d == old(self).mutation_delta(),
    ;

    /// Undo a tentative mutation.
    fn undo(&mut self, delta: Self::Delta)
        ensures
            final(self).congruent(old(self)),
            final(self).model() == old(self).undone(delta),
    ;
}

} // verus!
