//! Safety layers for agent behavior.
//!
//! This crate builds agents wrapped in a stack of safety layers. A base
//! agent ([`AgentZ`]) holds a model of its environment together with pure
//! operations for deciding, acting, mutating and undoing mutations, and it
//! always commits to an action. Wrapping it in safety layers ([`AgentN`],
//! [`AgentS`]) yields an agent that probes its own decision under
//! hypothetical mutations of the model and either confirms the decision or
//! escalates to a request for an updated model.
//!
//! The number of safety layers is encoded in the structure itself, in the
//! style of Peano numerals: [`AgentN::Z`] is a bare base agent, and each
//! [`AgentN::S`] shell adds one layer of probing. The central specification
//! is [`decide_at`], which states, as a mathematical function of the model
//! and the layer count, the decision that such an agent reaches; the
//! executable decision procedure is verified against it. The laws relating
//! the layers, among them that an added layer never commits to a different
//! action than its core would, are stated and proved in [`laws`].

mod contract;
mod counter;
mod layers;
pub mod laws;

pub use contract::Agent;
pub use contract::Decision;
pub use contract::Ops;
pub use counter::CounterOps;
pub use layers::decide_at;
pub use layers::AgentN;
pub use layers::AgentS;
pub use layers::AgentZ;
pub use layers::MUTATION_LIMIT;
