//! The wormhole core contract as this gateway sees it: its messages, the
//! verified message it hands back, the archive of messages already relayed,
//! and its error set.

use vstd::prelude::*;
use vstd::string::*;
use cosmwasm_std::{MemoryStorage, StdError};
use crate::error::GenericErr;
use crate::state::{channel_failures, channel_flags};

verus! {

/// Messages that the wormhole core contract executes.
#[derive(Clone, Debug, PartialEq, Eq)]
pub enum WormholeExecuteMsg {
    SubmitVAA { vaa: Vec<u8> },
    PostMessage { message: Vec<u8>, nonce: u32 },
}

/// Queries that the wormhole core contract answers.
#[derive(Clone, Debug, PartialEq, Eq)]
pub enum WormholeQueryMsg {
    GuardianSetInfo {  },
    VerifyVAA { vaa: Vec<u8>, block_time: u64 },
    GetState {  },
    QueryAddressHex { address: String },
}

/// A message whose guardian signatures the verifier has accepted.
#[derive(Clone, Debug, PartialEq, Eq)]
pub struct ParsedVAA {
    pub version: u8,
    pub guardian_set_index: u32,
    pub timestamp: u32,
    pub nonce: u32,
    pub len_signers: u8,
    pub emitter_chain: u16,
    pub emitter_address: Vec<u8>,
    pub sequence: u64,
    pub consistency_level: u8,
    pub payload: Vec<u8>,
    /// Digest of the message body: the identity of the message.
    pub hash: Vec<u8>,
}

/// The flags of the replay archive held in `storage`: each hash under which
/// the `guardian_set` map holds an entry that reads back as a flag, with that
/// flag. An entry that does not read back as a flag is no part of it.
pub uninterp spec fn guardian_set_flags(storage: MemoryStorage) -> Map<Seq<u8>, bool>;

/// The hashes that `storage` records as executed: those flagged `true`.
pub open spec fn archived(storage: MemoryStorage) -> Set<Seq<u8>> {
    Set::new(
        |hash: Seq<u8>|
            guardian_set_flags(storage).dom().contains(hash) && guardian_set_flags(storage)[hash],
    )
}

/// `cw_storage_plus::Map::save` on the `guardian_set` map: writes `flag` under
/// `hash`. The call fails only where the value does not serialise, which a
/// flag always does (as `true` or `false`), and the in-memory store takes
/// every value that is not empty: so it succeeds. Afterwards the archive holds
/// that entry and its other entries are as before. The channel registry lives
/// under another namespace: its entries, readable or not, stay as they were.
#[verifier::external_body]
pub(crate) fn guardian_set_save(storage: &mut MemoryStorage, hash: &[u8], flag: bool) -> (res:
    Result<(), StdError>)
    ensures
        res is Ok,
        guardian_set_flags(*final(storage)) == guardian_set_flags(*old(storage)).insert(
            hash@,
            flag,
        ),
        channel_flags(*final(storage)) == channel_flags(*old(storage)),
        channel_failures(*final(storage)) == channel_failures(*old(storage)),
{
    cw_storage_plus::Map::<&[u8], bool>::new("guardian_set").save(storage, hash, &flag)
}

/// `cw_storage_plus::Map::load` on the `guardian_set` map: reads the flag
/// under `hash`. It succeeds exactly where the archive holds a flag for the
/// hash, and then gives that flag; it fails where there is no entry or the
/// entry does not read back as a flag.
#[verifier::external_body]
pub(crate) fn guardian_set_load(storage: &MemoryStorage, hash: &[u8]) -> (res: Result<
    bool,
    StdError,
>)
    ensures
        res is Ok <==> guardian_set_flags(*storage).dom().contains(hash@),
        res is Ok ==> res->Ok_0 == guardian_set_flags(*storage)[hash@],
{
    cw_storage_plus::Map::<&[u8], bool>::new("guardian_set").load(storage, hash)
}

/// Records `hash` as executed, which always succeeds: afterwards the archive
/// holds `hash` besides all that it held before, and the channel registry is
/// as it was.
pub fn vaa_archive_add(storage: &mut MemoryStorage, hash: &[u8]) -> (res: Result<(), StdError>)
    ensures
        res is Ok,
        archived(*final(storage)) == archived(*old(storage)).insert(hash@),
        archived(*old(storage)).subset_of(archived(*final(storage))),
        channel_flags(*final(storage)) == channel_flags(*old(storage)),
        channel_failures(*final(storage)) == channel_failures(*old(storage)),
{
    let res = guardian_set_save(storage, hash, true);
    proof {
        assert(archived(*storage) =~= archived(*old(storage)).insert(hash@));
    }
    res
}

/// Tells whether `hash` is recorded as executed. A hash whose entry cannot be
/// read counts as not recorded.
pub fn vaa_archive_check(storage: &MemoryStorage, hash: &[u8]) -> (found: bool)
    ensures
        found == archived(*storage).contains(hash@),
{
    match guardian_set_load(storage, hash) {
        Ok(flag) => flag,
        Err(_) => false,
    }
}

/// The reasons for which the wormhole contracts turn a request down.
#[derive(Clone, Copy, Debug, PartialEq, Eq)]
pub enum WormholeContractError {
    /// Invalid VAA version
    InvalidVersion,
    /// Guardian set with this index does not exist
    InvalidGuardianSetIndex,
    /// Guardian set expiration date is zero or in the past
    GuardianSetExpired,
    /// Not enough signers on the VAA
    NoQuorum,
    /// Wrong guardian index order, order must be ascending
    WrongGuardianIndexOrder,
    /// Some problem with signature decoding from bytes
    CannotDecodeSignature,
    /// Some problem with public key recovery from the signature
    CannotRecoverKey,
    /// Recovered pubkey from signature does not match guardian address
    GuardianSignatureError,
    /// VAA action code not recognized
    InvalidVAAAction,
    /// VAA guardian set is not current
    NotCurrentGuardianSet,
    /// Only 128-bit amounts are supported
    AmountTooHigh,
    /// Amount should be higher than zero
    AmountTooLow,
    /// Source and target chain ids must be different
    SameSourceAndTarget,
    /// Target chain id must be the same as the current chain id
    WrongTargetChain,
    /// Wrapped asset init hook sent twice for the same asset id
    AssetAlreadyRegistered,
    /// Guardian set must increase in steps of 1
    GuardianSetIndexIncreaseError,
    /// VAA was already executed
    VaaAlreadyExecuted,
    /// Message sender not permitted to execute this operation
    PermissionDenied,
    /// Could not decode target address from canonical to human-readable form
    WrongTargetAddressFormat,
    /// More signatures than active guardians found
    TooManySignatures,
    /// Wrapped asset not found in the registry
    AssetNotFound,
    /// Generic error when there is a problem with VAA structure
    InvalidVAA,
    /// Thrown when fee is enabled for the action, but was not sent with the transaction
    FeeTooLow,
    /// Registering asset outside of the wormhole
    RegistrationForbidden,
}

impl WormholeContractError {
    /// The name under which this error is reported.
    pub open spec fn name(self) -> Seq<char> {
        match self {
            WormholeContractError::InvalidVersion => "InvalidVersion"@,
            WormholeContractError::InvalidGuardianSetIndex => "InvalidGuardianSetIndex"@,
            WormholeContractError::GuardianSetExpired => "GuardianSetExpired"@,
            WormholeContractError::NoQuorum => "NoQuorum"@,
            WormholeContractError::WrongGuardianIndexOrder => "WrongGuardianIndexOrder"@,
            WormholeContractError::CannotDecodeSignature => "CannotDecodeSignature"@,
            WormholeContractError::CannotRecoverKey => "CannotRecoverKey"@,
            WormholeContractError::GuardianSignatureError => "GuardianSignatureError"@,
            WormholeContractError::InvalidVAAAction => "InvalidVAAAction"@,
            WormholeContractError::NotCurrentGuardianSet => "NotCurrentGuardianSet"@,
            WormholeContractError::AmountTooHigh => "AmountTooHigh"@,
            WormholeContractError::AmountTooLow => "AmountTooLow"@,
            WormholeContractError::SameSourceAndTarget => "SameSourceAndTarget"@,
            WormholeContractError::WrongTargetChain => "WrongTargetChain"@,
            WormholeContractError::AssetAlreadyRegistered => "AssetAlreadyRegistered"@,
            WormholeContractError::GuardianSetIndexIncreaseError => "GuardianSetIndexIncreaseError"@,
            WormholeContractError::VaaAlreadyExecuted => "VaaAlreadyExecuted"@,
            WormholeContractError::PermissionDenied => "PermissionDenied"@,
            WormholeContractError::WrongTargetAddressFormat => "WrongTargetAddressFormat"@,
            WormholeContractError::TooManySignatures => "TooManySignatures"@,
            WormholeContractError::AssetNotFound => "AssetNotFound"@,
            WormholeContractError::InvalidVAA => "InvalidVAA"@,
            WormholeContractError::FeeTooLow => "FeeTooLow"@,
            WormholeContractError::RegistrationForbidden => "RegistrationForbidden"@,
        }
    }

    /// The name of this error as text.
    pub fn message(&self) -> (text: String)
        ensures
            text@ == self.name(),
    {
        match self {
            WormholeContractError::InvalidVersion => String::from_str("InvalidVersion"),
            WormholeContractError::InvalidGuardianSetIndex => String::from_str("InvalidGuardianSetIndex"),
            WormholeContractError::GuardianSetExpired => String::from_str("GuardianSetExpired"),
            WormholeContractError::NoQuorum => String::from_str("NoQuorum"),
            WormholeContractError::WrongGuardianIndexOrder => String::from_str("WrongGuardianIndexOrder"),
            WormholeContractError::CannotDecodeSignature => String::from_str("CannotDecodeSignature"),
            WormholeContractError::CannotRecoverKey => String::from_str("CannotRecoverKey"),
            WormholeContractError::GuardianSignatureError => String::from_str("GuardianSignatureError"),
            WormholeContractError::InvalidVAAAction => String::from_str("InvalidVAAAction"),
            WormholeContractError::NotCurrentGuardianSet => String::from_str("NotCurrentGuardianSet"),
            WormholeContractError::AmountTooHigh => String::from_str("AmountTooHigh"),
            WormholeContractError::AmountTooLow => String::from_str("AmountTooLow"),
            WormholeContractError::SameSourceAndTarget => String::from_str("SameSourceAndTarget"),
            WormholeContractError::WrongTargetChain => String::from_str("WrongTargetChain"),
            WormholeContractError::AssetAlreadyRegistered => String::from_str("AssetAlreadyRegistered"),
            WormholeContractError::GuardianSetIndexIncreaseError => String::from_str("GuardianSetIndexIncreaseError"),
            WormholeContractError::VaaAlreadyExecuted => String::from_str("VaaAlreadyExecuted"),
            WormholeContractError::PermissionDenied => String::from_str("PermissionDenied"),
            WormholeContractError::WrongTargetAddressFormat => String::from_str("WrongTargetAddressFormat"),
            WormholeContractError::TooManySignatures => String::from_str("TooManySignatures"),
            WormholeContractError::AssetNotFound => String::from_str("AssetNotFound"),
            WormholeContractError::InvalidVAA => String::from_str("InvalidVAA"),
            WormholeContractError::FeeTooLow => String::from_str("FeeTooLow"),
            WormholeContractError::RegistrationForbidden => String::from_str("RegistrationForbidden"),
        }
    }

    /// This error as a generic error whose reason is the error's name.
    pub fn generic_err(&self) -> (e: GenericErr)
        ensures
            e.msg@ == self.name(),
    {
        GenericErr { msg: self.message() }
    }

    /// This error as a failed result, whatever the type of a success.
    pub fn std_err<T>(&self) -> (res: Result<T, GenericErr>)
        ensures
            res is Err,
            res->Err_0.msg@ == self.name(),
    {
        Err(self.generic_err())
    }
}

/// No two errors share a name: the name tells which error it is.
pub proof fn lemma_names_differ(a: WormholeContractError, b: WormholeContractError)
    requires
        a != b,
    ensures
        a.name() != b.name(),
{
    reveal_strlit("InvalidVersion");
    reveal_strlit("InvalidGuardianSetIndex");
    reveal_strlit("GuardianSetExpired");
    reveal_strlit("NoQuorum");
    reveal_strlit("WrongGuardianIndexOrder");
    reveal_strlit("CannotDecodeSignature");
    reveal_strlit("CannotRecoverKey");
    reveal_strlit("GuardianSignatureError");
    reveal_strlit("InvalidVAAAction");
    reveal_strlit("NotCurrentGuardianSet");
    reveal_strlit("AmountTooHigh");
    reveal_strlit("AmountTooLow");
    reveal_strlit("SameSourceAndTarget");
    reveal_strlit("WrongTargetChain");
    reveal_strlit("AssetAlreadyRegistered");
    reveal_strlit("GuardianSetIndexIncreaseError");
    reveal_strlit("VaaAlreadyExecuted");
    reveal_strlit("PermissionDenied");
    reveal_strlit("WrongTargetAddressFormat");
    reveal_strlit("TooManySignatures");
    reveal_strlit("AssetNotFound");
    reveal_strlit("InvalidVAA");
    reveal_strlit("FeeTooLow");
    reveal_strlit("RegistrationForbidden");
    assert("InvalidVersion"@.len() == 14);
    assert("InvalidGuardianSetIndex"@.len() == 23);
    assert("GuardianSetExpired"@.len() == 18);
    assert("NoQuorum"@.len() == 8);
    assert("WrongGuardianIndexOrder"@.len() == 23);
    assert("CannotDecodeSignature"@.len() == 21);
    assert("CannotRecoverKey"@.len() == 16);
    assert("GuardianSignatureError"@.len() == 22);
    assert("InvalidVAAAction"@.len() == 16);
    assert("NotCurrentGuardianSet"@.len() == 21);
    assert("AmountTooHigh"@.len() == 13);
    assert("AmountTooLow"@.len() == 12);
    assert("SameSourceAndTarget"@.len() == 19);
    assert("WrongTargetChain"@.len() == 16);
    assert("AssetAlreadyRegistered"@.len() == 22);
    assert("GuardianSetIndexIncreaseError"@.len() == 29);
    assert("VaaAlreadyExecuted"@.len() == 18);
    assert("PermissionDenied"@.len() == 16);
    assert("WrongTargetAddressFormat"@.len() == 24);
    assert("TooManySignatures"@.len() == 17);
    assert("AssetNotFound"@.len() == 13);
    assert("InvalidVAA"@.len() == 10);
    assert("FeeTooLow"@.len() == 9);
    assert("RegistrationForbidden"@.len() == 21);
    assert("InvalidGuardianSetIndex"@[0] == 'I');
    assert("WrongGuardianIndexOrder"@[0] == 'W');
    assert("GuardianSetExpired"@[0] == 'G');
    assert("VaaAlreadyExecuted"@[0] == 'V');
    assert("CannotDecodeSignature"@[0] == 'C');
    assert("NotCurrentGuardianSet"@[0] == 'N');
    assert("RegistrationForbidden"@[0] == 'R');
    assert("CannotRecoverKey"@[0] == 'C');
    assert("InvalidVAAAction"@[0] == 'I');
    assert("WrongTargetChain"@[0] == 'W');
    assert("PermissionDenied"@[0] == 'P');
    assert("GuardianSignatureError"@[0] == 'G');
    assert("AssetAlreadyRegistered"@[0] == 'A');
    assert("AmountTooHigh"@[1] == 'm');
    assert("AssetNotFound"@[1] == 's');
}

} // verus!
