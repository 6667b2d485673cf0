//! Dispatch contracts and a scenario builder for event-sourced aggregates.
//!
//! An aggregate turns commands into events. Committed events fan out to
//! queries, which keep read models up to date, and to reactors, which drive
//! multi-step processes. The [`test`] module assembles a service, queries,
//! reactors and an optional event store into a harness on which given / when /
//! then scenarios are run without a real persistence backend.

pub mod aggregate;
pub mod event;
pub mod mem_store;
pub mod query;
pub mod store;

pub use aggregate::Aggregate;
pub use event::EventEnvelope;
pub use query::{Query, Reactor, View};
pub use store::{AggregateContext, EventStore};
