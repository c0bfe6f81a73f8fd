//! A flat, Mealy-style finite-state-machine engine.
//!
//! A machine is built once from a named initial state and a table of
//! (state, event) -> (target state, optional action) transitions, and then
//! driven by dispatching events: each dispatch looks the pair up in the
//! table, commits the target state, and only then runs the paired action,
//! so a failing action never rolls the transition back.

mod ids;
mod machine;

pub use ids::Event;
pub use ids::State;
pub use machine::Action;
pub use machine::BuilderView;
pub use machine::DispatchError;
pub use machine::MachineView;
pub use machine::StateMachine;
pub use machine::StateMachineBuilder;
