//! Messages that the gateway accepts, and the relay instruction that an
//! attested message carries.

use vstd::prelude::*;

verus! {

/// Sets the gateway up: names the wormhole core contract that verifies messages.
#[derive(Clone, Debug, PartialEq, Eq)]
pub struct InstantiateMsg {
    pub wormhole_contract: String,
}

/// What the gateway can be asked to do.
#[derive(Clone, Debug, PartialEq, Eq)]
pub enum ExecuteMsg {
    /// Relay the attested message held in `data`.
    SubmitVaa { data: Vec<u8> },
}

/// The relay instruction in the payload of an attested message.
#[derive(Clone, Debug, PartialEq, Eq)]
pub struct Payload {
    /// The channel to send on.
    pub channel_id: String,
    /// The bytes to deliver, sent on as they are.
    pub packet: Vec<u8>,
}

} // verus!
