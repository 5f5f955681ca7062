//! The base agent and the Peano-indexed stack of safety layers.

use vstd::prelude::*;

use crate::contract::Agent;
use crate::contract::Decision;
use crate::contract::Ops;

verus! {

/// Stores an agent that only acts, assuming its model is perfect.
///
/// A base agent holds the single model of the whole stack together with the
/// host-supplied operations, and it always commits to an action: it never
/// requests a model update on its own.
pub struct AgentZ<O: Ops> {
    /// Stores the model.
    pub model: O::Model,
    /// The host-supplied operations: decider, actor, mutater and undoer.
    pub ops: O,
}

/// Stores an agent with N added safety layers.
///
/// The layer count is encoded in the structure itself, as a Peano numeral:
/// `Z` wraps a base agent directly and `S` wraps an agent one layer
/// shallower.
pub enum AgentN<O: Ops> {
    /// Core zero agent.
    Z(AgentZ<O>),
    /// Successor agent.
    S(Box<AgentS<O>>),
}

/// Stores a successor agent: one safety layer around its core sub-agent.
pub struct AgentS<O: Ops> {
    /// The core sub-agent.
    pub core: AgentN<O>,
}

/// A constant that limits the number of probing attempts per decision.
pub const MUTATION_LIMIT: u8 = 4;

/// The decision an agent with the given number of safety layers reaches on
/// the given model.
///
/// With no layers it is the base decision. With one more layer, the layer
/// probes its core: it mutates the model once, asks the core (one layer
/// shallower) to decide under the mutated model, and undoes the mutation.
/// An inconclusive probe (the core requests a model update) leaves the
/// layer unable to confirm its decision, so it requests a model update; so
/// does a probe that disagrees with the base decision. Only agreement under
/// the mutation lets the layer commit to the base decision.
///
/// The probe budget of the executable procedure does not appear here: the
/// operations are deterministic functions of the model, so every retry of
/// an inconclusive probe is identical to the first, and a single probe
/// determines the outcome of all [`MUTATION_LIMIT`] attempts.
pub open spec fn decide_at<O: Ops>(layers: nat, m: O::Model) -> Decision<O::Action>
    decreases layers,
{
    if layers == 0 {
        Decision::Action(O::decide_spec(m))
    } else {
        match decide_at::<O>((layers - 1) as nat, O::mutate_spec(m)) {
            Decision::RequestModel => Decision::RequestModel,
            Decision::Action(b) => {
                if b == O::decide_spec(m) {
                    Decision::Action(O::decide_spec(m))
                } else {
                    Decision::RequestModel
                }
            },
        }
    }
}

impl<O: Ops> AgentZ<O> {
    /// Add extra layers of safety.
    pub fn add(self, n: usize) -> (r: AgentN<O>)
        ensures
            r.depth() == n,
            r.base() == self,
        decreases n,
    {
        match n {
            0 => AgentN::Z(self),
            _ => AgentN::S(Box::new(AgentS { core: self.add(n - 1) })),
        }
    }
}

impl<O: Ops + Clone> Clone for AgentZ<O> where O::Model: Clone {
    /// Clones the model and the operations. Nothing is claimed of the
    /// copies: hosts that rely on a faithful clone must supply model and
    /// operation types whose `clone` is faithful.
    fn clone(&self) -> Self {
        AgentZ { model: self.model.clone(), ops: self.ops.clone() }
    }
}

impl<O: Ops> AgentN<O> {
    /// The number of successor shells around the base agent.
    pub open spec fn depth(self) -> nat
        decreases self,
    {
        match self {
            AgentN::Z(_) => 0,
            AgentN::S(agent) => agent.core.depth() + 1,
        }
    }

    /// The base agent at the bottom of the stack, as a value: the spec
    /// counterpart of [`AgentN::z`].
    pub open spec fn base(self) -> AgentZ<O>
        decreases self,
    {
        match self {
            AgentN::Z(agent) => agent,
            AgentN::S(agent) => agent.core.base(),
        }
    }

    /// The agent one safety level down: the spec counterpart of
    /// [`AgentN::dec`]. A bare base agent is left as it is.
    pub open spec fn dec_spec(self) -> AgentN<O> {
        match self {
            AgentN::Z(_) => self,
            AgentN::S(agent) => agent.core,
        }
    }

    /// [`AgentN::dec_spec`], applied `k` times.
    pub open spec fn dec_many(self, k: nat) -> AgentN<O>
        decreases k,
    {
        if k == 0 {
            self
        } else {
            self.dec_spec().dec_many((k - 1) as nat)
        }
    }

    /// Returns the core zero agent.
    ///
    /// Descends through all successor shells to the unique base agent that
    /// owns the model. The borrow it hands out reaches that one agent:
    /// whatever the caller does through it, the stack keeps its shape and
    /// ends up with the base agent the caller left behind.
    pub fn z(&mut self) -> (r: &mut AgentZ<O>)
        ensures
            *r == old(self).base(),
            final(self).depth() == old(self).depth(),
            final(self).base() == *final(r),
        decreases *old(self),
    {
        match self {
            AgentN::Z(agent) => agent,
            AgentN::S(agent) => agent.core.z(),
        }
    }

    /// Decreases one safety level.
    pub fn dec(self) -> (r: AgentN<O>)
        ensures
            r == self.dec_spec(),
            r.base() == self.base(),
            r.depth() == if self.depth() == 0 { 0nat } else { (self.depth() - 1) as nat },
    {
        match self {
            AgentN::Z(_) => self,
            AgentN::S(agent) => agent.core,
        }
    }

    /// Increase one safety level.
    pub fn inc(self) -> (r: AgentN<O>)
        ensures
            r.depth() == self.depth() + 1,
            r.base() == self.base(),
            r.dec_spec() == self,
    {
        AgentN::S(Box::new(AgentS { core: self }))
    }
}

/// Two layered agents with the same number of layers and the same base
/// agent are the same agent: a successor shell holds nothing but its core,
/// so the layer count and the base agent determine the whole structure.
/// In particular, an agent grown by [`AgentN::inc`] is equal to one built
/// by [`AgentZ::add`] with one more layer, since both leave the base agent
/// untouched.
pub proof fn lemma_agent_determined<O: Ops>(a: AgentN<O>, b: AgentN<O>)
    requires
        a.depth() == b.depth(),
        a.base() == b.base(),
    ensures
        a == b,
    decreases a,
{
    match (a, b) {
        (AgentN::Z(x), AgentN::Z(y)) => {
            assert(x == y);
        }
        (AgentN::S(x), AgentN::S(y)) => {
            lemma_agent_determined(x.core, y.core);
            assert(*x == *y);
        }
        (AgentN::Z(_), AgentN::S(_)) => {
            assert(false);
        }
        (AgentN::S(_), AgentN::Z(_)) => {
            assert(false);
        }
    }
}

impl<O: Ops> Agent for AgentZ<O> {
    type Model = O::Model;

    type Action = O::Action;

    type Delta = O::Delta;

    open spec fn layers(&self) -> nat {
        0
    }

    open spec fn model(&self) -> O::Model {
        self.model
    }

    open spec fn congruent(&self, other: &Self) -> bool {
        self.ops == other.ops
    }

    open spec fn decision(&self) -> Decision<O::Action> {
        Decision::Action(O::decide_spec(self.model))
    }

    open spec fn acted(&self, a: O::Action) -> O::Model {
        O::act_spec(self.model, a)
    }

    open spec fn mutated(&self) -> O::Model {
        O::mutate_spec(self.model)
    }

    open spec fn mutation_delta(&self) -> O::Delta {
        O::delta_spec(self.model)
    }

    open spec fn undone(&self, d: O::Delta) -> O::Model {
        O::undo_spec(self.model, d)
    }

    fn update_model(&mut self, model: O::Model) {
        self.model = model;
    }

    fn decide(&mut self) -> Decision<O::Action> {
        Decision::Action(self.ops.decide(&self.model))
    }

    fn act(&mut self, action: O::Action) {
        self.ops.act(&mut self.model, action);
    }

    fn mutate(&mut self) -> O::Delta {
        self.ops.mutate(&mut self.model)
    }

    fn undo(&mut self, delta: O::Delta) {
        self.ops.undo(&mut self.model, delta);
    }
}

impl<O: Ops> Agent for AgentN<O> {
    type Model = O::Model;

    type Action = O::Action;

    type Delta = O::Delta;

    open spec fn layers(&self) -> nat {
        self.depth()
    }

    open spec fn model(&self) -> O::Model {
        self.base().model
    }

    open spec fn congruent(&self, other: &Self) -> bool {
        self.depth() == other.depth() && self.base().ops == other.base().ops
    }

    open spec fn decision(&self) -> Decision<O::Action> {
        decide_at::<O>(self.depth(), self.base().model)
    }

    open spec fn acted(&self, a: O::Action) -> O::Model {
        O::act_spec(self.base().model, a)
    }

    open spec fn mutated(&self) -> O::Model {
        O::mutate_spec(self.base().model)
    }

    open spec fn mutation_delta(&self) -> O::Delta {
        O::delta_spec(self.base().model)
    }

    open spec fn undone(&self, d: O::Delta) -> O::Model {
        O::undo_spec(self.base().model, d)
    }

    fn update_model(&mut self, model: O::Model) {
        match self {
            AgentN::Z(agent) => agent.update_model(model),
            AgentN::S(agent) => agent.update_model(model),
        }
    }

    fn decide(&mut self) -> Decision<O::Action>
        decreases old(self).depth(), 0nat,
    {
        match self {
            AgentN::Z(agent) => agent.decide(),
            AgentN::S(agent) => agent.decide(),
        }
    }

    fn act(&mut self, action: O::Action) {
        match self {
            AgentN::Z(agent) => agent.act(action),
            AgentN::S(agent) => agent.act(action),
        }
    }

    fn mutate(&mut self) -> O::Delta
        decreases *old(self),
    {
        match self {
            AgentN::Z(agent) => agent.mutate(),
            AgentN::S(agent) => agent.mutate(),
        }
    }

    fn undo(&mut self, delta: O::Delta) {
        match self {
            AgentN::Z(agent) => agent.undo(delta),
            AgentN::S(agent) => agent.undo(delta),
        }
    }
}

impl<O: Ops> Agent for AgentS<O> {
    type Model = O::Model;

    type Action = O::Action;

    type Delta = O::Delta;

    open spec fn layers(&self) -> nat {
        self.core.depth() + 1
    }

    open spec fn model(&self) -> O::Model {
        self.core.base().model
    }

    open spec fn congruent(&self, other: &Self) -> bool {
        self.core.depth() == other.core.depth() && self.core.base().ops == other.core.base().ops
    }

    open spec fn decision(&self) -> Decision<O::Action> {
        decide_at::<O>(self.core.depth() + 1, self.core.base().model)
    }

    open spec fn acted(&self, a: O::Action) -> O::Model {
        O::act_spec(self.core.base().model, a)
    }

    open spec fn mutated(&self) -> O::Model {
        O::mutate_spec(self.core.base().model)
    }

    open spec fn mutation_delta(&self) -> O::Delta {
        O::delta_spec(self.core.base().model)
    }

    open spec fn undone(&self, d: O::Delta) -> O::Model {
        O::undo_spec(self.core.base().model, d)
    }

    fn update_model(&mut self, model: O::Model) {
        self.core.z().update_model(model);
    }

    /// The safety algorithm of one layer.
    ///
    /// The base decision is probed under a hypothetical mutation of the
    /// model: the layer mutates the model, asks its core to re-decide under
    /// the mutated model, and unconditionally undoes the mutation before
    /// inspecting the answer. A probe that agrees with the base decision
    /// confirms it; one that disagrees escalates to a model-update request;
    /// an inconclusive probe is retried, and exhausting the probe budget
    /// without confirmation also escalates.
    fn decide(&mut self) -> Decision<O::Action>
        decreases old(self).core.depth(), 1nat,
    {
        let base = self.core.z();
        let d = base.decide();
        match d {
            Decision::RequestModel => Decision::RequestModel,
            Decision::Action(a) => {
                proof {
                    lemma_agent_determined(self.core, old(self).core);
                }
                let mut i: u8 = 0;
                while i < MUTATION_LIMIT
                    invariant
                        *self == *old(self),
                        i <= MUTATION_LIMIT,
                        a == O::decide_spec(old(self).core.base().model),
                        i > 0 ==> decide_at::<O>(
                            old(self).core.depth(),
                            O::mutate_spec(old(self).core.base().model),
                        ) is RequestModel,
                    decreases MUTATION_LIMIT - i,
                {
                    let delta = self.core.mutate();
                    let b = self.core.decide();
                    self.core.undo(delta);
                    proof {
                        O::lemma_undo_mutate(old(self).core.base().model);
                        lemma_agent_determined(self.core, old(self).core);
                        O::lemma_action_eq();
                    }
                    match b {
                        Decision::RequestModel => {
                            i = i + 1;
                        },
                        Decision::Action(bv) => {
                            if a == bv {
                                return Decision::Action(a);
                            } else {
                                return Decision::RequestModel;
                            }
                        },
                    }
                }
                Decision::RequestModel
            },
        }
    }

    fn act(&mut self, action: O::Action) {
        self.core.z().act(action);
    }

    fn mutate(&mut self) -> O::Delta
        decreases *old(self),
    {
        self.core.mutate()
    }

    fn undo(&mut self, delta: O::Delta) {
        self.core.z().undo(delta);
    }
}

} // verus!
