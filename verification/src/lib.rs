//! A small embeddable finite-state-machine engine.
//!
//! Callers declare named states and named events (transitions), validate the
//! declaration once with `build`, then drive the machine by firing events.
//! Lifecycle hooks supplied by the embedder run around each transition.

pub mod errors;
pub mod hook;
pub mod machine;
pub mod laws;

pub use errors::{SpecTransitionError, SpecValidationError, TransitionError, ValidationError};
pub use hook::{Hook, NoopHook};
pub use machine::{Event, State, FSM};
