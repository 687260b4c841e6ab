//! Per-peer connection layer of a peer-to-peer mesh: request/response and
//! one-way delivery over streams of one multiplexed connection.
//!
//! The crate holds the decisions of that layer: how a transport failure is
//! classified, how a message is framed on the wire, which counters a call
//! moves, and what a call does next after each completed stream operation.
//! The stream operations themselves are performed by the caller.
pub mod call;
pub mod connection_handle;
pub mod error;
pub mod frame;
pub mod message;
pub mod metrics;
