//! Subscription action-resolution engine for a network-traffic analysis
//! pipeline.
//!
//! A subscription pairs a filter expression and a callback with one or more
//! datatypes (packet, connection, session, or static data). This crate
//! computes, for each stage of the multi-stage packet/connection pipeline,
//! the set of low-level operations the runtime must perform when the filter
//! has terminally matched or is still partially matching at that stage, and
//! decides the single earliest stage at which the combined datatypes can be
//! delivered to the callback.

pub mod actions;
pub mod datatypes;
pub mod laws;
pub mod pipeline;
pub mod subscription;

pub use actions::{ActionData, Actions, MatchingActions};
pub use datatypes::{DataType, Level};
pub use pipeline::{FilterLayer, Predicate};
pub use subscription::{ConfigurationError, SubscriptionSpec};
