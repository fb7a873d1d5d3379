//! Bridge between a host-side asynchronous caller and a remote streaming
//! chat service.
//!
//! The verified core models the conversation as plain data: a codec that
//! turns duck-typed caller records into strictly typed input events and
//! inbound protocol events into host-facing output records, two bridge
//! state machines that pull those events one at a time, and a session
//! coordinator that wires one chat invocation together. The asynchronous
//! plumbing around the core (the host runtime, the RPC transport) hands
//! these functions plain values and takes plain values back.

pub mod bridge;
pub mod codec;
pub mod input;
pub mod output;
pub mod session;
