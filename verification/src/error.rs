//! Errors that the gateway reports to its caller.

use vstd::prelude::*;
use vstd::string::*;
use cosmwasm_std::StdError;
use crate::wormhole::WormholeContractError;

verus! {

/// A generic error: nothing but a human-readable reason.
#[derive(Clone, Debug, PartialEq, Eq)]
pub struct GenericErr {
    pub msg: String,
}

/// The text that a `cosmwasm_std::StdError` displays: the kind of error and
/// what its fields hold, as its `Display` writes them.
pub uninterp spec fn std_error_display(e: StdError) -> Seq<char>;

/// `ToString::to_string` on a `cosmwasm_std::StdError`: the text that the
/// error displays.
#[verifier::external_body]
pub(crate) fn std_error_text(e: &StdError) -> (text: String)
    ensures
        text@ == std_error_display(*e),
{
    e.to_string()
}

/// Why a submission was turned down. Every rejection ends the submission.
#[derive(Clone, Debug, PartialEq, Eq)]
pub enum ContractError {
    /// The attestation verifier turned the message down; its error is passed
    /// on untouched.
    Verifier(GenericErr),
    /// The store failed while the submission was worked on; the text of its
    /// error is kept.
    Storage(GenericErr),
    /// A rejection from the wormhole error set: a replayed message, or one
    /// whose payload is no relay instruction.
    Wormhole(WormholeContractError),
    /// The relay instruction names a channel that is not registered.
    UnregisteredChannel { channel_id: String },
}

/// The words that precede the channel id in the reason for an unregistered channel.
pub open spec fn unregistered_channel_prefix() -> Seq<char> {
    "unregistered channel id "@
}

impl ContractError {
    /// A failure of the store as a rejection whose reason is the text that
    /// the store's error displays.
    pub fn storage(e: StdError) -> (rejection: ContractError)
        ensures
            rejection is Storage,
            rejection->Storage_0.msg@ == std_error_display(e),
            rejection.reason() == std_error_display(e),
    {
        ContractError::Storage(GenericErr { msg: std_error_text(&e) })
    }

    /// The reason string of this rejection.
    pub open spec fn reason(self) -> Seq<char> {
        match self {
            ContractError::Verifier(e) => e.msg@,
            ContractError::Storage(e) => e.msg@,
            ContractError::Wormhole(w) => w.name(),
            ContractError::UnregisteredChannel { channel_id } => unregistered_channel_prefix()
                + channel_id@,
        }
    }

    /// The human-readable reason of this rejection.
    pub fn message(&self) -> (text: String)
        ensures
            text@ == self.reason(),
    {
        match self {
            ContractError::Verifier(e) => e.msg.clone(),
            ContractError::Storage(e) => e.msg.clone(),
            ContractError::Wormhole(w) => w.message(),
            ContractError::UnregisteredChannel { channel_id } => {
                String::from_str("unregistered channel id ").concat(channel_id.as_str())
            },
        }
    }

    /// This rejection as a generic error carrying its reason.
    pub fn generic_err(&self) -> (e: GenericErr)
        ensures
            e.msg@ == self.reason(),
    {
        GenericErr { msg: self.message() }
    }
}

} // verus!
