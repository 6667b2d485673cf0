use vstd::prelude::*;

verus! {

/// The unit of consistency of a domain: it decides which events a command
/// produces and folds events into its own state.
pub trait Aggregate: Default + Send + Sync {
    /// A request to change the aggregate.
    type Command;

    /// A fact that the aggregate has recorded.
    type Event;

    /// Why a command, or a reaction to its events, was refused.
    type Error;

    /// The dependencies that command handling and reactors share.
    type Services;

    /// Decides which events `command` produces on the current state.
    fn handle(&self, command: Self::Command, services: &Self::Services) -> Result<
        Vec<Self::Event>,
        Self::Error,
    >;

    /// Folds one recorded event into the state.
    fn apply(&mut self, event: &Self::Event);
}

} // verus!
