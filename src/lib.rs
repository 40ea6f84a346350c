//! Client side of forward-proxy connections: plaintext targets pass through the proxy
//! stream, encrypted targets are reached through an HTTP `CONNECT` tunnel whose response
//! head is read incrementally into a bounded buffer.

pub mod bytes;
pub mod connector;
pub mod proxy;
pub mod request;
pub mod tunnel;
