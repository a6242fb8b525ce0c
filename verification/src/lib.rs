//! A fluent entity-construction helper layered over the legion ECS runtime.
//!
//! The crate's subject is the builder's cursor state machine: a `current` and
//! a `last` entity slot threaded through a chain of operations, so that a
//! caller can say "parent this new entity to the last one I built" without
//! naming entities. The ECS world itself — storage, queries, iteration — is
//! legion's business and stands behind a small trusted boundary.

pub mod builder;
pub mod transform;
pub mod world;
