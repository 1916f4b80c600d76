//! The pure part of the client: configuration, the conversions between the
//! request and response types and the wire schema, and the rules of deferred
//! completions.

pub mod config;
pub mod conversions;
pub mod operations;
