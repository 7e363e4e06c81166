//! Error types returned by validation (`build`) and by the transition engine
//! (`fire`), together with their mathematical views.

use vstd::prelude::*;

verus! {

/// A structural defect found while validating a machine definition.
///
/// Each variant carries the offending name, where one exists, so that the
/// embedder can produce an actionable message.
#[derive(Debug, PartialEq, Eq)]
pub enum ValidationError {
    /// No initial state was declared.
    MissingInitialState,
    /// The definition declares no states at all.
    NoStates,
    /// Two declared states share the carried name.
    DuplicateState(String),
    /// The definition declares no events at all.
    NoEvents,
    /// Two declared events share the carried name.
    DuplicateEvent(String),
    /// The event with the carried name has an empty `from_state` set.
    EmptyFromStates(String),
    /// An event references the carried name, but no state declares it.
    UndefinedState(String),
    /// A final state is declared, but no event's `to_state` reaches it.
    UnreachableFinalState,
}

/// The mathematical view of a `ValidationError`: the same shape over
/// `Seq<char>` instead of `String`.
pub enum SpecValidationError {
    MissingInitialState,
    NoStates,
    DuplicateState(Seq<char>),
    NoEvents,
    DuplicateEvent(Seq<char>),
    EmptyFromStates(Seq<char>),
    UndefinedState(Seq<char>),
    UnreachableFinalState,
}

impl View for ValidationError {
    type V = SpecValidationError;

    open spec fn view(&self) -> SpecValidationError {
        match self {
            ValidationError::MissingInitialState => SpecValidationError::MissingInitialState,
            ValidationError::NoStates => SpecValidationError::NoStates,
            ValidationError::DuplicateState(n) => SpecValidationError::DuplicateState(n@),
            ValidationError::NoEvents => SpecValidationError::NoEvents,
            ValidationError::DuplicateEvent(n) => SpecValidationError::DuplicateEvent(n@),
            ValidationError::EmptyFromStates(n) => SpecValidationError::EmptyFromStates(n@),
            ValidationError::UndefinedState(n) => SpecValidationError::UndefinedState(n@),
            ValidationError::UnreachableFinalState => SpecValidationError::UnreachableFinalState,
        }
    }
}

/// A reason why `fire` refused to run a transition.
#[derive(Debug, PartialEq, Eq)]
pub enum TransitionError {
    /// The machine was never successfully built.
    NotReady,
    /// The machine's current state equals its declared final state.
    AlreadyFinished,
    /// No event with the carried name can fire from the carried current state.
    InvalidTransition(String, String),
}

/// The mathematical view of a `TransitionError`.
pub enum SpecTransitionError {
    NotReady,
    AlreadyFinished,
    InvalidTransition(Seq<char>, Seq<char>),
}

impl View for TransitionError {
    type V = SpecTransitionError;

    open spec fn view(&self) -> SpecTransitionError {
        match self {
            TransitionError::NotReady => SpecTransitionError::NotReady,
            TransitionError::AlreadyFinished => SpecTransitionError::AlreadyFinished,
            TransitionError::InvalidTransition(e, c) => SpecTransitionError::InvalidTransition(
                e@,
                c@,
            ),
        }
    }
}

} // verus!
