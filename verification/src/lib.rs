//! Client-side engine for a publicly verifiable randomness beacon: a chain of
//! sequentially numbered rounds, each bound to its predecessor, published
//! redundantly by several independent network endpoints.
//!
//! The crate holds the data model (chain metadata, rounds, errors), the
//! verification state threaded through every fetch, and the orchestration
//! decisions: boot-time cross-validation of endpoints, health-based endpoint
//! selection, and resolution of raced fetches. The network calls themselves
//! are left to a transport collaborator; this crate computes what to ask for
//! and what to trust.

pub mod endpoints;
pub mod model;

pub use endpoints::{Endpoint, Endpoints, State};
pub use model::{Config, Error, Info, Random, MAX_CONNS};
