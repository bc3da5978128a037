//! An access-controlled price registry.
//!
//! One owner identity, fixed at initialization, may mutate the registry:
//! it can point the registry at a new oracle service or ask it to save the
//! rate that the oracle reports for a symbol. Any caller may read the owner,
//! the oracle reference, or a cached rate. All state lives in an explicit
//! [`state::Registry`] record that the host passes into each call; the host
//! itself — persistence, wire encoding, and the remote oracle — stays outside.

pub mod access;
pub mod codec;
pub mod contract;
pub mod error;
pub mod identity;
pub mod laws;
pub mod msg;
pub mod state;
pub mod struct_types;
