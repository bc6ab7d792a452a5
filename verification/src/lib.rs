//! Universal connector core: a fan-out orchestrator over pluggable data
//! sources, fronted by a two-tier cache.
//!
//! A structured query arrives from an upstream classifier; the
//! orchestrator answers it from the cache when it can, and otherwise
//! selects the applicable sources, has each fetched concurrently under
//! its own deadline, reduces the outcomes into one response under
//! partial-failure semantics, and writes the response back to the cache
//! when at least one source succeeded.
//!
//! Everything here is plain computation with a verified contract. The
//! surrounding runtime — HTTP, the shared tier's network backend, the
//! async dispatch — hands outcomes in as values and carries commands
//! (shared-tier writes and deletions) back out.

pub mod adapters;
pub mod cache;
pub mod codec;
pub mod config;
pub mod models;
pub mod orchestrator;
pub mod store;
pub mod text;
