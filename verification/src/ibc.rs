//! The packet that the gateway hands to the transport, and the block time it
//! is stamped with.

use vstd::prelude::*;

verus! {

/// Nanoseconds in a day.
pub const NANOS_PER_DAY: u64 = 86_400_000_000_000;

/// Nanoseconds in a second.
pub const NANOS_PER_SECOND: u64 = 1_000_000_000;

/// How long after its submission a packet may still be delivered, in days.
pub const PACKET_LIFETIME_DAYS: u64 = 1;

/// A request to the transport to send `data` on `channel_id`.
#[derive(Clone, Debug, PartialEq, Eq)]
pub struct SendPacket {
    pub channel_id: String,
    pub data: Vec<u8>,
    /// Block time after which the packet is no longer delivered, in
    /// nanoseconds since the epoch.
    pub timeout: u64,
}

/// `cosmwasm_std::Timestamp::plus_days` on a time given in nanoseconds since
/// the epoch: the time `days` days later. That method multiplies the days out
/// to nanoseconds and adds them with a checked addition; the precondition
/// keeps both within `u64`.
#[verifier::external_body]
pub(crate) fn timestamp_plus_days(nanos: u64, days: u64) -> (later: u64)
    requires
        nanos + days * NANOS_PER_DAY <= u64::MAX,
    ensures
        later == nanos + days * NANOS_PER_DAY,
{
    cosmwasm_std::Timestamp::from_nanos(nanos).plus_days(days).nanos()
}

/// `cosmwasm_std::Timestamp::seconds` on a time given in nanoseconds since the
/// epoch: the whole seconds in it.
#[verifier::external_body]
pub(crate) fn timestamp_seconds(nanos: u64) -> (seconds: u64)
    ensures
        seconds == nanos / NANOS_PER_SECOND,
{
    cosmwasm_std::Timestamp::from_nanos(nanos).seconds()
}

} // verus!
