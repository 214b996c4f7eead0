//! A verified core for a JSON-RPC tool-invocation bridge in front of a
//! project-management REST API.
//!
//! The library holds the logic that is worth proving: cache-key derivation,
//! the response cache with its time-to-live and invalidation rules, the
//! token-bucket rate limiter, request building and HTTP outcome
//! classification, the cache-aware operation layer, the enumeration scanner,
//! the tool registry, and the JSON-RPC session state machine.  Anything that
//! must touch the network, the clock or the process environment stays in the
//! surrounding (unverified) binary, which drives these functions and hands
//! them plain values.

pub mod cache;
pub mod client;
pub mod config;
pub mod dates;
pub mod error;
pub mod formatting;
pub mod json;
pub mod laws;
pub mod limiter;
pub mod models;
pub mod ops;
pub mod protocol;
pub mod registry;
pub mod request;
pub mod scan;
pub mod server;
pub mod stats;
pub mod text;
pub mod tools;
pub mod validation;
