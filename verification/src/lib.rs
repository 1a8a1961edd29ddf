//! Server-side core of the STUN binding protocol: wire-format encoding of
//! STUN headers and attributes, request validation, and construction of
//! binding responses carrying the peer's transport address.

pub mod address;
pub mod attributes;
pub mod errors;
pub mod handlers;
pub mod message;
pub mod server;
pub mod wire;
