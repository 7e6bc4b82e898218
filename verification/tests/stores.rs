use cosmwasm_std::{MemoryStorage, StdError, Storage};
use ibc_gateway::error::{ContractError, GenericErr};
use ibc_gateway::wormhole::{vaa_archive_add, vaa_archive_check, WormholeContractError};

#[test]
fn new_archive_holds_nothing() {
    let archive = MemoryStorage::new();
    assert!(!vaa_archive_check(&archive, &[]));
    assert!(!vaa_archive_check(&archive, &[0]));
}

#[test]
fn archive_add_then_check() {
    let mut archive = MemoryStorage::new();
    assert_eq!(vaa_archive_add(&mut archive, &[1, 2, 3]), Ok(()));
    assert!(vaa_archive_check(&archive, &[1, 2, 3]));
    assert!(!vaa_archive_check(&archive, &[1, 2]));
    assert!(!vaa_archive_check(&archive, &[1, 2, 3, 0]));
    assert!(!vaa_archive_check(&archive, &[3, 2, 1]));
}

#[test]
fn archive_add_twice_keeps_the_entry() {
    let mut archive = MemoryStorage::new();
    assert_eq!(vaa_archive_add(&mut archive, &[9]), Ok(()));
    assert_eq!(vaa_archive_add(&mut archive, &[9]), Ok(()));
    assert_eq!(vaa_archive_add(&mut archive, &[]), Ok(()));
    assert!(vaa_archive_check(&archive, &[9]));
    assert!(vaa_archive_check(&archive, &[]));
}

#[test]
fn archive_is_the_guardian_set_map() {
    let mut archive = MemoryStorage::new();
    let map: cw_storage_plus::Map<&[u8], bool> = cw_storage_plus::Map::new("guardian_set");
    assert_eq!(vaa_archive_add(&mut archive, &[1, 2, 3]), Ok(()));
    assert_eq!(map.load(&archive, &[1, 2, 3]), Ok(true));
    assert_eq!(map.may_load(&archive, &[1, 2]), Ok(None));
    map.save(&mut archive, &[4], &true).unwrap();
    map.save(&mut archive, &[5], &false).unwrap();
    assert!(vaa_archive_check(&archive, &[4]));
    assert!(!vaa_archive_check(&archive, &[5]));
}

#[test]
fn unreadable_archive_entry_counts_as_not_recorded() {
    let mut archive = MemoryStorage::new();
    let map: cw_storage_plus::Map<&[u8], bool> = cw_storage_plus::Map::new("guardian_set");
    archive.set(&map.key(&[7]), b"7");
    assert!(!vaa_archive_check(&archive, &[7]));
    assert_eq!(vaa_archive_add(&mut archive, &[7]), Ok(()));
    assert!(vaa_archive_check(&archive, &[7]));
}

#[test]
fn archive_and_channels_do_not_share_keys() {
    let mut storage = MemoryStorage::new();
    let channels: cw_storage_plus::Map<String, bool> = cw_storage_plus::Map::new("channels");
    channels.save(&mut storage, "ab".to_string(), &true).unwrap();
    assert!(!vaa_archive_check(&storage, b"ab"));
    assert_eq!(vaa_archive_add(&mut storage, b"cd"), Ok(()));
    assert_eq!(channels.may_load(&storage, "cd".to_string()), Ok(None));
    assert_eq!(channels.may_load(&storage, "ab".to_string()), Ok(Some(true)));
}

#[test]
fn wormhole_error_names() {
    let all = [
        (WormholeContractError::InvalidVersion, "InvalidVersion"),
        (WormholeContractError::InvalidGuardianSetIndex, "InvalidGuardianSetIndex"),
        (WormholeContractError::GuardianSetExpired, "GuardianSetExpired"),
        (WormholeContractError::NoQuorum, "NoQuorum"),
        (WormholeContractError::WrongGuardianIndexOrder, "WrongGuardianIndexOrder"),
        (WormholeContractError::CannotDecodeSignature, "CannotDecodeSignature"),
        (WormholeContractError::CannotRecoverKey, "CannotRecoverKey"),
        (WormholeContractError::GuardianSignatureError, "GuardianSignatureError"),
        (WormholeContractError::InvalidVAAAction, "InvalidVAAAction"),
        (WormholeContractError::NotCurrentGuardianSet, "NotCurrentGuardianSet"),
        (WormholeContractError::AmountTooHigh, "AmountTooHigh"),
        (WormholeContractError::AmountTooLow, "AmountTooLow"),
        (WormholeContractError::SameSourceAndTarget, "SameSourceAndTarget"),
        (WormholeContractError::WrongTargetChain, "WrongTargetChain"),
        (WormholeContractError::AssetAlreadyRegistered, "AssetAlreadyRegistered"),
        (WormholeContractError::GuardianSetIndexIncreaseError, "GuardianSetIndexIncreaseError"),
        (WormholeContractError::VaaAlreadyExecuted, "VaaAlreadyExecuted"),
        (WormholeContractError::PermissionDenied, "PermissionDenied"),
        (WormholeContractError::WrongTargetAddressFormat, "WrongTargetAddressFormat"),
        (WormholeContractError::TooManySignatures, "TooManySignatures"),
        (WormholeContractError::AssetNotFound, "AssetNotFound"),
        (WormholeContractError::InvalidVAA, "InvalidVAA"),
        (WormholeContractError::FeeTooLow, "FeeTooLow"),
        (WormholeContractError::RegistrationForbidden, "RegistrationForbidden"),
    ];
    for (error, name) in all {
        assert_eq!(error.message(), name);
        assert_eq!(error.generic_err(), GenericErr { msg: name.to_string() });
    }
}

#[test]
fn std_err_is_an_error_with_the_name() {
    let res: Result<u32, GenericErr> = WormholeContractError::VaaAlreadyExecuted.std_err();
    assert_eq!(res, Err(GenericErr { msg: "VaaAlreadyExecuted".to_string() }));
    let other: Result<String, GenericErr> = WormholeContractError::InvalidVAA.std_err();
    assert_eq!(other.unwrap_err().msg, "InvalidVAA");
}

#[test]
fn contract_error_reasons() {
    let passed_on = ContractError::Verifier(GenericErr { msg: "GuardianSetExpired".to_string() });
    assert_eq!(passed_on.message(), "GuardianSetExpired");
    let unregistered = ContractError::UnregisteredChannel { channel_id: "channel-7".to_string() };
    assert_eq!(unregistered.message(), "unregistered channel id channel-7");
    assert_eq!(
        unregistered.generic_err(),
        GenericErr { msg: "unregistered channel id channel-7".to_string() }
    );
    let empty = ContractError::UnregisteredChannel { channel_id: String::new() };
    assert_eq!(empty.message(), "unregistered channel id ");
    assert_eq!(ContractError::Wormhole(WormholeContractError::InvalidVAA).message(), "InvalidVAA");
    assert_eq!(
        ContractError::Wormhole(WormholeContractError::NoQuorum).generic_err().msg,
        "NoQuorum"
    );
    let failure = ContractError::Storage(GenericErr { msg: "bool not found".to_string() });
    assert_eq!(failure.message(), "bool not found");
}

#[test]
fn storage_rejection_keeps_the_text_of_the_store_error() {
    assert_eq!(
        ContractError::storage(StdError::generic_err("disk full")),
        ContractError::Storage(GenericErr { msg: "Generic error: disk full".to_string() })
    );
    let missing = ContractError::storage(StdError::not_found("bool"));
    assert_eq!(missing.message(), "bool not found");
    assert_eq!(missing.message(), StdError::not_found("bool").to_string());
}

#[test]
fn archive_add_succeeds_on_every_hash() {
    let mut archive = MemoryStorage::new();
    let long = vec![0xffu8; 4096];
    let hashes: [&[u8]; 4] = [&[], &[0], &[1, 2, 3], &long];
    for hash in hashes {
        assert_eq!(vaa_archive_add(&mut archive, hash), Ok(()));
        assert!(vaa_archive_check(&archive, hash));
        assert_eq!(vaa_archive_add(&mut archive, hash), Ok(()));
        assert!(vaa_archive_check(&archive, hash));
    }
    for hash in hashes {
        assert!(vaa_archive_check(&archive, hash));
    }
}
