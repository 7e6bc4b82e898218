//! What the gateway keeps between submissions: its configuration, and the
//! store that holds the registry of channels it may send on.

use vstd::prelude::*;
use cosmwasm_std::{MemoryStorage, StdError};
use crate::error::std_error_display;

verus! {

/// Set once when the gateway is set up, read on every submission.
#[derive(Clone, Debug, PartialEq, Eq)]
pub struct Config {
    /// Address of the wormhole core contract that verifies attested messages.
    pub wormhole_contract: String,
}

/// `cosmwasm_std::MemoryStorage`: a key-value store held in memory.
#[verifier::external_type_specification]
#[verifier::external_body]
pub struct ExMemoryStorage(cosmwasm_std::MemoryStorage);

/// `cosmwasm_std::StdError`: what the store's accessors fail with.
#[verifier::external_type_specification]
#[verifier::external_body]
pub struct ExStdError(cosmwasm_std::StdError);

/// The channel registry held in `storage`: each channel id under which the
/// `channels` map holds an entry that reads back as a flag, with that flag. An
/// entry that does not read back as a flag is no part of it.
pub uninterp spec fn channel_flags(storage: MemoryStorage) -> Map<Seq<char>, bool>;

/// A channel may be sent on only if it has an entry and the entry says so.
pub open spec fn channel_registered(channels: Map<Seq<char>, bool>, id: Seq<char>) -> bool {
    channels.dom().contains(id) && channels[id]
}

/// The entries of the channel registry held in `storage` that cannot be read:
/// each channel id under which the `channels` map holds bytes that do not read
/// back as a flag, with the text of the error that reading the entry gives.
pub uninterp spec fn channel_failures(storage: MemoryStorage) -> Map<Seq<char>, Seq<char>>;

/// `cw_storage_plus::Map::may_load` on the `channels` map: reads the entry of
/// `channel_id`. It gives the flag exactly where the registry holds one for
/// the channel, and none where the store holds nothing under the channel's
/// key. It fails exactly where the store holds bytes there that do not read
/// back as a flag, and the error then displays the text held for the channel
/// among the unreadable entries.
#[verifier::external_body]
pub(crate) fn channels_may_load(storage: &MemoryStorage, channel_id: String) -> (res: Result<
    Option<bool>,
    StdError,
>)
    ensures
        (res is Ok && res->Ok_0 is Some) <==> channel_flags(*storage).dom().contains(channel_id@),
        (res is Ok && res->Ok_0 is Some) ==> res->Ok_0->Some_0 == channel_flags(
            *storage,
        )[channel_id@],
        res is Err <==> channel_failures(*storage).dom().contains(channel_id@),
        res is Err ==> std_error_display(res->Err_0) == channel_failures(*storage)[channel_id@],
{
    cw_storage_plus::Map::<String, bool>::new("channels").may_load(storage, channel_id)
}

} // verus!
