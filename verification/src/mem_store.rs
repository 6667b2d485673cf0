use crate::aggregate::Aggregate;
use crate::event::EventEnvelope;
use crate::store::{AggregateContext, EventStore};
use vstd::prelude::*;

verus! {

/// The context of an aggregate that lives in a [`MemStore`].
pub struct MemStoreAggregateContext<A: Aggregate> {
    /// The aggregate instance.
    pub aggregate_id: String,
    /// The state after every committed event was applied.
    pub aggregate: A,
    /// The sequence number of the last committed event, 0 where there is none.
    pub current_sequence: usize,
}

impl<A: Aggregate> MemStoreAggregateContext<A> {
    /// The context of an aggregate of which nothing was committed yet.
    pub open spec fn is_fresh(self) -> bool {
        &&& self.aggregate_id@.len() == 0
        &&& self.current_sequence == 0
    }
}

impl<A: Aggregate> Default for MemStoreAggregateContext<A> {
    fn default() -> (r: Self)
        ensures
            r.is_fresh(),
    {
        MemStoreAggregateContext {
            aggregate_id: String::new(),
            aggregate: A::default(),
            current_sequence: 0,
        }
    }
}

impl<A: Aggregate> AggregateContext<A> for MemStoreAggregateContext<A> {
    fn aggregate(&self) -> (r: &A)
        ensures
            *r == self.aggregate,
    {
        &self.aggregate
    }
}

/// An event store that keeps every committed envelope in memory.
pub struct MemStore<A: Aggregate> {
    /// What was committed, oldest first.
    pub committed: Vec<EventEnvelope<A>>,
}

impl<A: Aggregate> MemStore<A> {
    /// A store to which nothing was committed yet.
    pub open spec fn is_fresh(self) -> bool {
        self.committed@.len() == 0
    }
}

impl<A: Aggregate> Default for MemStore<A> {
    fn default() -> (r: Self)
        ensures
            r.is_fresh(),
    {
        MemStore { committed: Vec::new() }
    }
}

impl<A: Aggregate> EventStore<A> for MemStore<A> {
    type AC = MemStoreAggregateContext<A>;
}

} // verus!
