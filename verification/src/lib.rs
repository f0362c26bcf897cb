//! A local TCP-to-SSH-tunnel proxy core.
//!
//! The library holds the verified decision logic of the proxy: how a tunnel
//! is constructed step by step (dial, handshake, authenticate, bind, signal
//! readiness), how one accepted connection relays request/response pairs
//! between a local stream and a forwarding channel, how reads are accumulated
//! in fixed-size chunks, and how teardown stays idempotent.  The surrounding
//! binary performs the actual socket and SSH work and feeds each outcome back
//! into these state machines as an event.

pub mod errors;
pub mod endpoint;
pub mod chunks;
pub mod bridge;
pub mod setup;
pub mod listener;
pub mod tunnel;
