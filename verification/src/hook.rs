//! The hook interface: embedder-supplied procedures run around a transition.
//!
//! A hook takes no arguments, returns nothing, and carries no transition
//! context; an embedder that needs context closes over it in its own hook
//! type. The engine promises only the order in which hooks are invoked, which
//! `fire` documents; it claims nothing about their effects.

use vstd::prelude::*;

verus! {

/// A zero-argument, side-effecting procedure supplied by the embedder.
pub trait Hook {
    /// Runs the hook's effect.
    fn run(&self);
}

/// A hook that does nothing, for machines that need no callbacks.
#[derive(Debug, PartialEq, Eq)]
pub struct NoopHook;

impl Hook for NoopHook {
    fn run(&self) {
    }
}

} // verus!
