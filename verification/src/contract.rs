//! The relay pipeline: what the gateway does with a submitted message.

use vstd::prelude::*;
use vstd::slice::slice_to_vec;
use crate::error::{std_error_display, ContractError, GenericErr};
use crate::ibc::{
    timestamp_plus_days,
    timestamp_seconds,
    SendPacket,
    NANOS_PER_DAY,
    NANOS_PER_SECOND,
    PACKET_LIFETIME_DAYS,
};
use crate::msg::{ExecuteMsg, InstantiateMsg, Payload};
use crate::state::{
    channel_failures,
    channel_flags,
    channel_registered,
    channels_may_load,
    Config,
};
use crate::wormhole::{
    archived,
    vaa_archive_add,
    vaa_archive_check,
    ParsedVAA,
    WormholeContractError,
    WormholeQueryMsg,
};
use cosmwasm_std::{MemoryStorage, StdError};

verus! {

/// A smart query to send to the contract at `contract_addr`.
#[derive(Clone, Debug, PartialEq, Eq)]
pub struct VerifierQuery {
    pub contract_addr: String,
    pub msg: WormholeQueryMsg,
}

/// How a submission ends, over plain values.
pub enum Verdict {
    /// The verifier turned the message down, for `reason`.
    Unverified { reason: Seq<char> },
    /// Turned down with an error of the wormhole set.
    Refused { error: WormholeContractError },
    /// The relay instruction names a channel that is not registered.
    Unregistered { channel_id: Seq<char> },
    /// The channel's entry in the store could not be read; `reason` is the
    /// text of the store's error.
    Failed { reason: Seq<char> },
    /// A packet goes out.
    Relayed { channel_id: Seq<char>, data: Seq<u8>, timeout: int },
}

/// The verdict on a submission at `block_time` (nanoseconds), given the hashes
/// recorded so far, the channel registry, its entries that cannot be read
/// (each with the text of the error that reading it gives), the verifier's
/// answer and what the payload of the verified message decodes to.
pub open spec fn relay_verdict(
    archive: Set<Seq<u8>>,
    channels: Map<Seq<char>, bool>,
    failures: Map<Seq<char>, Seq<char>>,
    block_time: u64,
    verified: Result<ParsedVAA, GenericErr>,
    decoded: Option<Payload>,
) -> Verdict {
    match verified {
        Err(e) => Verdict::Unverified { reason: e.msg@ },
        Ok(vaa) => if archive.contains(vaa.hash@) {
            Verdict::Refused { error: WormholeContractError::VaaAlreadyExecuted }
        } else {
            match decoded {
                None => Verdict::Refused { error: WormholeContractError::InvalidVAA },
                Some(payload) => if failures.dom().contains(payload.channel_id@) {
                    Verdict::Failed { reason: failures[payload.channel_id@] }
                } else if !channel_registered(channels, payload.channel_id@) {
                    Verdict::Unregistered { channel_id: payload.channel_id@ }
                } else {
                    Verdict::Relayed {
                        channel_id: payload.channel_id@,
                        data: payload.packet@,
                        timeout: block_time + PACKET_LIFETIME_DAYS * NANOS_PER_DAY,
                    }
                },
            }
        },
    }
}

/// The recorded hashes after a submission: a verified message is recorded,
/// whatever becomes of it afterwards; nothing else changes.
pub open spec fn archive_after(archive: Set<Seq<u8>>, verified: Result<ParsedVAA, GenericErr>) -> Set<
    Seq<u8>,
> {
    match verified {
        Err(_) => archive,
        Ok(vaa) => archive.insert(vaa.hash@),
    }
}

/// What a result of the pipeline says, over plain values.
pub open spec fn verdict_of(res: Result<SendPacket, ContractError>) -> Verdict {
    match res {
        Ok(packet) => Verdict::Relayed {
            channel_id: packet.channel_id@,
            data: packet.data@,
            timeout: packet.timeout as int,
        },
        Err(ContractError::Verifier(e)) => Verdict::Unverified { reason: e.msg@ },
        Err(ContractError::Storage(e)) => Verdict::Failed { reason: e.msg@ },
        Err(ContractError::Wormhole(error)) => Verdict::Refused { error },
        Err(ContractError::UnregisteredChannel { channel_id }) => Verdict::Unregistered {
            channel_id: channel_id@,
        },
    }
}

/// Sets the gateway up: the configuration holds the verifier named in `msg`.
pub fn instantiate(msg: InstantiateMsg) -> (config: Config)
    ensures
        config.wormhole_contract@ == msg.wormhole_contract@,
{
    Config { wormhole_contract: msg.wormhole_contract }
}

/// The query that has the verifier check `data` at `block_time` (seconds).
pub fn verify_vaa_query(config: &Config, block_time: u64, data: &[u8]) -> (query: VerifierQuery)
    ensures
        query.contract_addr@ == config.wormhole_contract@,
        query.msg is VerifyVAA,
        query.msg->VerifyVAA_vaa@ == data@,
        query.msg->VerifyVAA_block_time == block_time,
{
    VerifierQuery {
        contract_addr: config.wormhole_contract.clone(),
        msg: WormholeQueryMsg::VerifyVAA { vaa: slice_to_vec(data), block_time },
    }
}

/// Starts the execution of `msg` at `block_time` (nanoseconds): a submitted
/// message is first put to the verifier, with the block time in whole seconds.
pub fn execute(config: &Config, block_time: u64, msg: ExecuteMsg) -> (query: VerifierQuery)
    ensures
        query.contract_addr@ == config.wormhole_contract@,
        query.msg is VerifyVAA,
        query.msg->VerifyVAA_vaa@ == msg->SubmitVaa_data@,
        query.msg->VerifyVAA_block_time == block_time / NANOS_PER_SECOND,
{
    match msg {
        ExecuteMsg::SubmitVaa { data } => verify_vaa_query(
            config,
            timestamp_seconds(block_time),
            data.as_slice(),
        ),
    }
}

/// What becomes of a submission once the store has been asked to record its
/// hash: it goes on if the store did so, and ends with the store's failure,
/// under the text that the store's error displays, if it did not.
pub fn recorded(outcome: Result<(), StdError>) -> (res: Result<(), ContractError>)
    ensures
        res is Ok <==> outcome is Ok,
        res is Err ==> res->Err_0 is Storage,
        res is Err ==> res->Err_0.reason() == std_error_display(outcome->Err_0),
{
    match outcome {
        Ok(()) => Ok(()),
        Err(e) => Err(ContractError::storage(e)),
    }
}

/// Records `hash` unless it is recorded already; a recorded hash is refused
/// as already executed. Recording always succeeds: afterwards the archive
/// holds `hash` besides all that it held before, and the channel registry is
/// as it was.
pub fn check_and_record(storage: &mut MemoryStorage, hash: &[u8]) -> (res: Result<
    (),
    ContractError,
>)
    ensures
        res is Ok <==> !archived(*old(storage)).contains(hash@),
        res is Err ==> res->Err_0 == ContractError::Wormhole(
            WormholeContractError::VaaAlreadyExecuted,
        ),
        archived(*final(storage)) == archived(*old(storage)).insert(hash@),
        archived(*old(storage)).subset_of(archived(*final(storage))),
        channel_flags(*final(storage)) == channel_flags(*old(storage)),
        channel_failures(*final(storage)) == channel_failures(*old(storage)),
{
    if vaa_archive_check(storage, hash) {
        assert(archived(*storage) =~= archived(*storage).insert(hash@));
        return Err(ContractError::Wormhole(WormholeContractError::VaaAlreadyExecuted));
    }
    recorded(vaa_archive_add(storage, hash))
}

/// Lets a relay instruction pass only if the registry's entry for its
/// channel, as read from the store, says that the channel is registered: a
/// missing entry and an entry that says no both stop it. A failed read ends
/// the submission with the store's failure, under the text that the store's
/// error displays.
pub fn authorize(entry: Result<Option<bool>, StdError>, payload: Payload) -> (res: Result<
    Payload,
    ContractError,
>)
    ensures
        res is Ok <==> entry == Ok::<Option<bool>, StdError>(Some(true)),
        res is Ok ==> res->Ok_0 == payload,
        entry is Err ==> res is Err && res->Err_0 is Storage,
        entry is Err ==> res->Err_0.reason() == std_error_display(entry->Err_0),
        entry is Ok && !(res is Ok) ==> res->Err_0 == (ContractError::UnregisteredChannel {
            channel_id: payload.channel_id,
        }),
{
    match entry {
        Err(e) => Err(ContractError::storage(e)),
        Ok(Some(true)) => Ok(payload),
        Ok(_) => Err(ContractError::UnregisteredChannel { channel_id: payload.channel_id }),
    }
}

/// The packet for a relay instruction accepted at `block_time` (nanoseconds):
/// the instruction's bytes as they are, to its channel, to be delivered within
/// the packet lifetime.
pub fn send_packet(payload: Payload, block_time: u64) -> (packet: SendPacket)
    requires
        block_time + PACKET_LIFETIME_DAYS * NANOS_PER_DAY <= u64::MAX,
    ensures
        packet.channel_id == payload.channel_id,
        packet.data == payload.packet,
        packet.timeout == block_time + PACKET_LIFETIME_DAYS * NANOS_PER_DAY,
{
    SendPacket {
        channel_id: payload.channel_id,
        data: payload.packet,
        timeout: timestamp_plus_days(block_time, PACKET_LIFETIME_DAYS),
    }
}

/// Tells, without changing anything, whether a submission would end in a
/// packet: the time of submission has no part in that. A caller learns from
/// it whether `submit_vaa` needs the timeout to fit.
pub fn would_relay(
    storage: &MemoryStorage,
    verified: &Result<ParsedVAA, GenericErr>,
    decoded: &Option<Payload>,
) -> (relays: bool)
    ensures
        forall|block_time: u64|
            relays == (#[trigger] relay_verdict(
                archived(*storage),
                channel_flags(*storage),
                channel_failures(*storage),
                block_time,
                *verified,
                *decoded,
            ) is Relayed),
{
    match verified {
        Err(_) => false,
        Ok(vaa) => {
            if vaa_archive_check(storage, vaa.hash.as_slice()) {
                false
            } else {
                match decoded {
                    None => false,
                    Some(payload) => match channels_may_load(storage, payload.channel_id.clone()) {
                        Ok(Some(flag)) => flag,
                        _ => false,
                    },
                }
            }
        },
    }
}

/// Takes a submission through the pipeline. `verified` is the verifier's
/// answer on the submitted bytes, `decoded` is what the payload of the
/// verified message decodes to, `block_time` is the time of submission in
/// nanoseconds.
///
/// A message that the verifier turned down changes nothing. A verified message
/// is recorded first, which always succeeds; it is refused as already executed
/// if it was recorded before, as an invalid message if its payload did not
/// decode, and as bound for an unregistered channel if its channel is not
/// registered. Otherwise its packet goes out, to be delivered within the
/// packet lifetime.
///
/// Reading the channel's entry fails only where the entry is there and holds
/// no flag. The submission then ends with that failure, under the text of the
/// store's error; the hash stays recorded and no packet goes out.
pub fn submit_vaa(
    storage: &mut MemoryStorage,
    block_time: u64,
    verified: Result<ParsedVAA, GenericErr>,
    decoded: Option<Payload>,
) -> (res: Result<SendPacket, ContractError>)
    requires
        relay_verdict(
            archived(*old(storage)),
            channel_flags(*old(storage)),
            channel_failures(*old(storage)),
            block_time,
            verified,
            decoded,
        ) is Relayed ==> block_time + PACKET_LIFETIME_DAYS * NANOS_PER_DAY <= u64::MAX,
    ensures
        verdict_of(res) == relay_verdict(
            archived(*old(storage)),
            channel_flags(*old(storage)),
            channel_failures(*old(storage)),
            block_time,
            verified,
            decoded,
        ),
        archived(*final(storage)) == archive_after(archived(*old(storage)), verified),
        archived(*old(storage)).subset_of(archived(*final(storage))),
        channel_flags(*final(storage)) == channel_flags(*old(storage)),
        channel_failures(*final(storage)) == channel_failures(*old(storage)),
        res is Ok ==> res->Ok_0.timeout == block_time + PACKET_LIFETIME_DAYS * NANOS_PER_DAY,
{
    let vaa = match verified {
        Ok(vaa) => vaa,
        Err(e) => {
            return Err(ContractError::Verifier(e));
        },
    };
    match check_and_record(storage, vaa.hash.as_slice()) {
        Ok(()) => {},
        Err(e) => {
            return Err(e);
        },
    }
    let payload = match decoded {
        Some(payload) => payload,
        None => {
            return Err(ContractError::Wormhole(WormholeContractError::InvalidVAA));
        },
    };
    let entry = channels_may_load(storage, payload.channel_id.clone());
    match authorize(entry, payload) {
        Ok(payload) => Ok(send_packet(payload, block_time)),
        Err(e) => Err(e),
    }
}

} // verus!
