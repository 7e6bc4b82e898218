//! What holds of every submission, stated over the pipeline's verdict and
//! the archive it leaves behind.

use vstd::prelude::*;
use crate::contract::{archive_after, relay_verdict, Verdict};
use crate::error::GenericErr;
use crate::msg::Payload;
use crate::state::channel_registered;
use crate::wormhole::{ParsedVAA, WormholeContractError};

verus! {

/// A fresh message is relayed: where the verifier accepted the message, its
/// hash is not recorded yet, its payload decoded, and the channel it names is
/// registered and its entry can be read, the verdict is a packet to that
/// channel with the payload's bytes as they are, and the hash is recorded.
pub proof fn lemma_fresh_message_relayed(
    archive: Set<Seq<u8>>,
    channels: Map<Seq<char>, bool>,
    failures: Map<Seq<char>, Seq<char>>,
    block_time: u64,
    vaa: ParsedVAA,
    payload: Payload,
)
    requires
        !archive.contains(vaa.hash@),
        channel_registered(channels, payload.channel_id@),
        !failures.dom().contains(payload.channel_id@),
    ensures
        relay_verdict(archive, channels, failures, block_time, Ok(vaa), Some(payload)) == (
        Verdict::Relayed {
            channel_id: payload.channel_id@,
            data: payload.packet@,
            timeout: block_time + 86_400 * 1_000_000_000,
        }),
        archive_after(archive, Ok(vaa)).contains(vaa.hash@),
{
}

/// A verified message is relayed at most once. After a first submission of a
/// message that the verifier accepted, every later submission of a message
/// with the same hash that the verifier accepts again is refused as already
/// executed: whatever became of the first, whatever the channels, the time and
/// the decoded payload are by then. So of the two verdicts at most the first
/// is a packet.
pub proof fn lemma_resubmission_refused(
    archive: Set<Seq<u8>>,
    first: ParsedVAA,
    channels_then: Map<Seq<char>, bool>,
    failures_then: Map<Seq<char>, Seq<char>>,
    time_then: u64,
    decoded_then: Option<Payload>,
    second: ParsedVAA,
    channels_now: Map<Seq<char>, bool>,
    failures_now: Map<Seq<char>, Seq<char>>,
    time_now: u64,
    decoded_now: Option<Payload>,
)
    requires
        second.hash@ == first.hash@,
    ensures
        relay_verdict(
            archive_after(archive, Ok(first)),
            channels_now,
            failures_now,
            time_now,
            Ok(second),
            decoded_now,
        ) == (Verdict::Refused { error: WormholeContractError::VaaAlreadyExecuted }),
        !(relay_verdict(
            archive,
            channels_then,
            failures_then,
            time_then,
            Ok(first),
            decoded_then,
        ) is Relayed && relay_verdict(
            archive_after(archive, Ok(first)),
            channels_now,
            failures_now,
            time_now,
            Ok(second),
            decoded_now,
        ) is Relayed),
{
}

/// Two submissions of one fresh message to a registered channel give exactly
/// one packet: the first verdict is the packet, the second is the refusal of
/// a message already executed.
pub proof fn lemma_submitted_twice_relayed_once(
    archive: Set<Seq<u8>>,
    channels: Map<Seq<char>, bool>,
    failures: Map<Seq<char>, Seq<char>>,
    vaa: ParsedVAA,
    payload: Payload,
    time_first: u64,
    time_second: u64,
)
    requires
        !archive.contains(vaa.hash@),
        channel_registered(channels, payload.channel_id@),
        !failures.dom().contains(payload.channel_id@),
    ensures
        relay_verdict(archive, channels, failures, time_first, Ok(vaa), Some(payload)) is Relayed,
        relay_verdict(
            archive_after(archive, Ok(vaa)),
            channels,
            failures,
            time_second,
            Ok(vaa),
            Some(payload),
        ) == (Verdict::Refused { error: WormholeContractError::VaaAlreadyExecuted }),
{
}

/// A refusal lasts: once a hash is recorded, a verified message with that
/// hash is refused after any number of further submissions.
pub proof fn lemma_recorded_stays_refused(
    archive: Set<Seq<u8>>,
    between: Result<ParsedVAA, GenericErr>,
    vaa: ParsedVAA,
    channels: Map<Seq<char>, bool>,
    failures: Map<Seq<char>, Seq<char>>,
    block_time: u64,
    decoded: Option<Payload>,
)
    requires
        archive.contains(vaa.hash@),
    ensures
        archive_after(archive, between).contains(vaa.hash@),
        relay_verdict(
            archive_after(archive, between),
            channels,
            failures,
            block_time,
            Ok(vaa),
            decoded,
        ) == (Verdict::Refused { error: WormholeContractError::VaaAlreadyExecuted }),
{
}

/// No packet goes out to a channel that is not registered, whether its entry
/// is missing or says no, and whatever the verifier answered.
pub proof fn lemma_unregistered_never_relayed(
    archive: Set<Seq<u8>>,
    channels: Map<Seq<char>, bool>,
    failures: Map<Seq<char>, Seq<char>>,
    block_time: u64,
    verified: Result<ParsedVAA, GenericErr>,
    payload: Payload,
)
    requires
        !channel_registered(channels, payload.channel_id@),
    ensures
        !(relay_verdict(archive, channels, failures, block_time, verified, Some(payload))
            is Relayed),
{
}

/// A fresh verified message for a channel that is not registered, whose entry
/// is missing or says no, is rejected as bound for that unregistered channel,
/// and its hash is recorded all the same.
pub proof fn lemma_unregistered_rejected_and_recorded(
    archive: Set<Seq<u8>>,
    channels: Map<Seq<char>, bool>,
    failures: Map<Seq<char>, Seq<char>>,
    block_time: u64,
    vaa: ParsedVAA,
    payload: Payload,
)
    requires
        !archive.contains(vaa.hash@),
        !channel_registered(channels, payload.channel_id@),
        !failures.dom().contains(payload.channel_id@),
    ensures
        relay_verdict(archive, channels, failures, block_time, Ok(vaa), Some(payload)) == (
        Verdict::Unregistered { channel_id: payload.channel_id@ }),
        archive_after(archive, Ok(vaa)).contains(vaa.hash@),
{
}

/// A fresh verified message whose payload did not decode is rejected as an
/// invalid message, and its hash is recorded all the same.
pub proof fn lemma_undecodable_rejected_and_recorded(
    archive: Set<Seq<u8>>,
    channels: Map<Seq<char>, bool>,
    failures: Map<Seq<char>, Seq<char>>,
    block_time: u64,
    vaa: ParsedVAA,
)
    requires
        !archive.contains(vaa.hash@),
    ensures
        relay_verdict(archive, channels, failures, block_time, Ok(vaa), None) == (
        Verdict::Refused { error: WormholeContractError::InvalidVAA }),
        archive_after(archive, Ok(vaa)).contains(vaa.hash@),
{
}

/// A packet that goes out goes to a registered channel, the one that the
/// decoded payload names, and carries the payload's bytes as they are.
pub proof fn lemma_relayed_is_authorized(
    archive: Set<Seq<u8>>,
    channels: Map<Seq<char>, bool>,
    failures: Map<Seq<char>, Seq<char>>,
    block_time: u64,
    verified: Result<ParsedVAA, GenericErr>,
    decoded: Option<Payload>,
)
    requires
        relay_verdict(archive, channels, failures, block_time, verified, decoded) is Relayed,
    ensures
        verified is Ok,
        !archive.contains(verified->Ok_0.hash@),
        decoded is Some,
        channel_registered(channels, decoded->Some_0.channel_id@),
        relay_verdict(
            archive,
            channels,
            failures,
            block_time,
            verified,
            decoded,
        )->Relayed_channel_id == decoded->Some_0.channel_id@,
        relay_verdict(archive, channels, failures, block_time, verified, decoded)->Relayed_data
            == decoded->Some_0.packet@,
{
}

/// The archive only grows: a submission leaves every recorded hash recorded,
/// and records the hash of every message that the verifier accepted.
pub proof fn lemma_archive_monotonic(archive: Set<Seq<u8>>, verified: Result<ParsedVAA, GenericErr>)
    ensures
        archive.subset_of(archive_after(archive, verified)),
        verified is Ok ==> archive_after(archive, verified).contains(verified->Ok_0.hash@),
{
}

/// What the verifier turns down is never relayed and never recorded: the
/// verdict is the verifier's own reason, and the archive stays as it was.
pub proof fn lemma_unverified_never_relayed(
    archive: Set<Seq<u8>>,
    channels: Map<Seq<char>, bool>,
    failures: Map<Seq<char>, Seq<char>>,
    block_time: u64,
    rejection: GenericErr,
    decoded: Option<Payload>,
)
    ensures
        relay_verdict(archive, channels, failures, block_time, Err(rejection), decoded) == (
        Verdict::Unverified { reason: rejection.msg@ }),
        archive_after(archive, Err(rejection)) == archive,
{
}

/// Every packet that goes out times out exactly one day after the time of
/// submission: 86,400 seconds of a thousand million nanoseconds each.
pub proof fn lemma_timeout_one_day(
    archive: Set<Seq<u8>>,
    channels: Map<Seq<char>, bool>,
    failures: Map<Seq<char>, Seq<char>>,
    block_time: u64,
    verified: Result<ParsedVAA, GenericErr>,
    decoded: Option<Payload>,
)
    requires
        relay_verdict(archive, channels, failures, block_time, verified, decoded) is Relayed,
    ensures
        relay_verdict(
            archive,
            channels,
            failures,
            block_time,
            verified,
            decoded,
        )->Relayed_timeout == block_time + 86_400 * 1_000_000_000,
{
}

} // verus!
