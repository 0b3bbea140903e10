//! Resolve a MAC address's vendor by matching its OUI (the first six
//! hexadecimal digits) against a semicolon-delimited reference table.
//!
//! The library normalizes a raw MAC address string into a canonical
//! six-character uppercase OUI, scans a two-column table (OUI; vendor)
//! for an exact match, and models the surrounding plumbing decisions
//! (argument arity, table path resolution, error reporting) as pure
//! functions. File and environment access stay with the caller.

pub mod cli;
pub mod config;
pub mod errors;
pub mod lookup;
pub mod normalize;
pub mod split;
