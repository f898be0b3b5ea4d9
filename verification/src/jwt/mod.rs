//! Session tokens, roles and the identity derived from a request.

pub mod auth;
pub mod signing;
pub mod guard;
pub mod extractor;
