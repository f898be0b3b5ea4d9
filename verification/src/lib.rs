//! Credential lifecycle for a set of internal services: session tokens,
//! credential extraction, role enforcement and the requests forwarded to the
//! remote services.

pub mod jwt;
pub mod server;
