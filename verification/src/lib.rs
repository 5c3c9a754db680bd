//! A verified core for a forwarding HTTP proxy.
//!
//! Inbound requests are rewritten to address a fixed configured downstream
//! target, optionally relayed through a secondary ("via") proxy, and the
//! downstream's response is passed back unmodified; any per-request failure
//! is mapped to a fixed internal-server-error response.

pub mod config;
pub mod forward;
pub mod uri;
