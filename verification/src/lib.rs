//! Verified core of a client for a remote project-management service.
//!
//! The library covers the session lifecycle (credential obfuscation,
//! persistence model, in-memory cache) and the resilient API client
//! (request building, response repair and normalization, outcome
//! classification).  All I/O — the network transport, the file system,
//! the clock — stays outside; the library states and proves what is
//! computed and decided between those edges.

pub mod codec;
pub mod jsonval;
pub mod unicode;
pub mod entities;
pub mod normalize;
pub mod strutil;
pub mod store;
pub mod cache;
pub mod client;
