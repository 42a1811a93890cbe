//! Off-chain coordinator for a timed on-chain auction protocol.
//!
//! The library holds the verified core: the auction lifecycle state machine
//! with its at-most-once closing guarantee, the character publish pipeline
//! with its resumability and idempotence guarantees, and the protocol
//! configuration command layer.  All chain RPC, content-store and generator
//! traffic is performed by the surrounding application, which feeds the
//! resulting events back into the state machine.

pub mod config;
pub mod coordinator;
pub mod pipeline;
pub mod types;
