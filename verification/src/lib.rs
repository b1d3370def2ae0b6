//! A minimal request/response server core, verified.
//!
//! Clients send a tagged-union request (`ClientMessage`): an echo payload, an
//! addition request, or nothing at all. The server answers each request with
//! at most one response (`ServerMessage`). This crate holds the decision
//! logic: what one poll of a connection yields, how a request is dispatched
//! to a response, and how the server's lifecycle state (running flag and task
//! registry) evolves under accept, stop, and shutdown-drain events. The
//! transport, the wire codec, and the threads that run connections live
//! outside the verified core and drive it event by event.

pub mod handler;
pub mod laws;
pub mod message;
pub mod server;
