//! Continuing-education hour tracker: a verified core.
//!
//! The heart of the crate is the course recommendation engine: free-text
//! interests are sanitized, scored against a fixed course catalog, and turned
//! into exactly four recommendations, optionally enriched by an external
//! generative-text call with a deterministic fallback path.

pub mod auth;
pub mod catalog;
pub mod compose;
pub mod enrich;
pub mod fallback;
pub mod hours;
pub mod queries;
pub mod response;
pub mod sanitize;
pub mod scorer;
pub mod states;
pub mod text;
pub mod unicode;
