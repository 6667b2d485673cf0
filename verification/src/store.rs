use crate::aggregate::Aggregate;
use vstd::prelude::*;

verus! {

/// Read-only access to an aggregate as it was last persisted.
pub trait AggregateContext<A: Aggregate> {
    /// The aggregate's last persisted state.
    fn aggregate(&self) -> &A;
}

/// A place where event histories are kept. Each kind of store hands out its
/// own kind of aggregate context.
pub trait EventStore<A: Aggregate> {
    /// The context that this store produces.
    type AC: AggregateContext<A>;
}

} // verus!
