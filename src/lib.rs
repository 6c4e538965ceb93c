//! An echo chamber: a single chat room in which every text message that a
//! client sends is relayed, prefixed with its sender's identity, to every
//! connected client, the sender included.
//!
//! The library holds the decisions of the relay: the identity allocator, the
//! wording of every frame the server sends, and the per-connection session
//! state machine that turns hub and client events into actions. Running the
//! connections, the broadcast channel and the timers is left to the caller.

pub mod frame;
pub mod identity;
pub mod laws;
pub mod session;
pub mod text;
