//! Core of a WHOIS lookup backend.
//!
//! The library builds the upstream request that a configured provider adapter
//! prescribes for a domain query, interprets the upstream's HTTP response into
//! the verbatim JSON payload or a classified error, and renders each error in
//! its one boundary string form. Network transport and host telemetry stay
//! outside; they exchange plain values with this crate.

pub mod decimal;
pub mod error;
pub mod json;
pub mod request;
pub mod resolver;
pub mod telemetry;
