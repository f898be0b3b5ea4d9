//! What the services around the core exchange with it: rejections and the
//! requests forwarded to the remote services.

pub mod response;
pub mod grpc;
