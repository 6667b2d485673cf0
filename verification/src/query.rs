use crate::aggregate::Aggregate;
use crate::event::{in_commit_order, is_committed_batch, EventEnvelope};
use crate::store::AggregateContext;
use vstd::prelude::*;
use vstd::view::View as _;

verus! {

/// A consumer of committed events: it updates a materialized view, publishes
/// to a message bus or triggers a command on another aggregate.
///
/// A query has no way to report a failure: one that cannot complete its
/// update deals with that itself.
pub trait Query<A: Aggregate>: Send + Sync {
    /// Takes the events that were just committed for one aggregate instance.
    /// The batch is never empty and stands in commit order.
    fn dispatch(&self, aggregate_id: &str, events: &[EventEnvelope<A>])
        requires
            is_committed_batch(aggregate_id@, events@),
    ;
}

/// A materialized read model. Its state is a fold of the events that it was
/// shown, starting from the default state.
pub trait View<A: Aggregate>: core::fmt::Debug + Default + Send + Sync {
    /// Folds one event into the view. The new state depends on the old state
    /// and the event alone; an event that means nothing to the view leaves it
    /// as it is.
    fn update(&mut self, event: &EventEnvelope<A>);
}

/// One step of a multi-step process: it looks at committed events and answers
/// with the events that should follow, or with the aggregate's error where the
/// process cannot go on.
pub trait Reactor<A, AC>: Send + Sync where
    A: Aggregate,
    AC: AggregateContext<A> + Send + Sync,
 {
    /// Reacts to a batch of events of one aggregate instance, given in commit
    /// order. The follow-up events come back in the order in which they are
    /// to be issued.
    fn react(
        &self,
        context: &AC,
        aggregate_id: &str,
        services: &A::Services,
        events: &[EventEnvelope<A>],
    ) -> Result<Vec<A::Event>, A::Error>
        requires
            in_commit_order(aggregate_id@, events@),
    ;
}

} // verus!
