//! Decision logic of an IBC gateway that relays attested cross-chain
//! messages: replay protection, channel authorisation and construction of the
//! outbound packet, each with a machine-checked contract.

pub mod contract;
pub mod error;
pub mod ibc;
pub mod laws;
pub mod msg;
pub mod state;
pub mod wormhole;
