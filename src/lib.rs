//! A transport-agnostic, typed request/response RPC engine.
//!
//! The verified core holds the message/pattern algebra, the service mapper,
//! the decisions of the client and server engines, the composition of two
//! transports, the length-delimited framing of envelopes and the queue of the
//! in-process transport.
pub mod pattern;
pub mod mapper;
pub mod client;
pub mod server;
pub mod transport;
