use internet_identity_interface::anchor::Anchor;
use internet_identity_interface::devices::{DeviceError, DeviceUpdate};
use internet_identity_interface::registration::RegistrationState;
use internet_identity_interface::tentative::RegistrationError;
use internet_identity_interface::types::{
    AddTentativeDeviceResponse, DeviceData, DeviceProtection, KeyType, MetadataEntry, Purpose,
    VerifyTentativeDeviceResponse,
};

fn device(key: u8, protection: DeviceProtection) -> DeviceData {
    DeviceData {
        pubkey: vec![key, key, key],
        alias: format!("device {}", key),
        credential_id: None,
        purpose: Purpose::Authentication,
        key_type: KeyType::CrossPlatform,
        protection,
        origin: Some(String::from("https://identity.example")),
        metadata: None,
    }
}

fn anchor_with(keys: &[u8]) -> Anchor {
    let mut anchor = Anchor::new(10_000, device(keys[0], DeviceProtection::Unprotected)).unwrap();
    for k in &keys[1..] {
        anchor
            .add_device(&vec![keys[0]; 3], device(*k, DeviceProtection::Unprotected), 1, 10)
            .unwrap();
    }
    anchor
}

fn pending_anchor(now: u64) -> Anchor {
    let mut anchor = anchor_with(&[1]);
    let expiration = anchor.open_registration(&vec![1; 3], String::from("123456"), now, 900).unwrap();
    assert_eq!(expiration, now + 900);
    let answer = anchor.submit_tentative_device(device(2, DeviceProtection::Unprotected), now + 1);
    match answer {
        Ok(AddTentativeDeviceResponse::AddedTentatively {
            verification_code,
            device_registration_timeout,
        }) => {
            assert_eq!(verification_code, "123456");
            assert_eq!(device_registration_timeout, now + 900);
        }
        other => panic!("unexpected answer {:?}", other),
    }
    anchor
}

#[test]
fn new_anchor_holds_its_first_device() {
    let anchor = anchor_with(&[1]);
    assert_eq!(anchor.anchor_number, 10_000);
    assert_eq!(anchor.list_devices().len(), 1);
    assert_eq!(anchor.list_devices()[0].pubkey, vec![1, 1, 1]);
    assert_eq!(anchor.list_devices()[0].last_usage, None);
    assert!(matches!(anchor.registration, RegistrationState::Closed));
}

#[test]
fn new_anchor_rejects_reserved_metadata() {
    let mut d = device(1, DeviceProtection::Unprotected);
    d.metadata = Some(vec![(String::from("alias"), MetadataEntry::String(String::from("x")))]);
    assert_eq!(Anchor::new(1, d).err(), Some(DeviceError::ReservedMetadataKey));
}

#[test]
fn add_device_records_use_of_the_caller_only() {
    let mut anchor = anchor_with(&[1]);
    let r = anchor.add_device(&vec![1; 3], device(2, DeviceProtection::Unprotected), 77, 10);
    assert_eq!(r, Ok(()));
    let devices = anchor.list_devices();
    assert_eq!(devices.len(), 2);
    assert_eq!(devices[0].last_usage, Some(77));
    assert_eq!(devices[1].pubkey, vec![2, 2, 2]);
    assert_eq!(devices[1].last_usage, None);
    assert_eq!(devices[1].alias, "device 2");
}

#[test]
fn add_device_duplicate_key() {
    let mut anchor = anchor_with(&[1, 2]);
    let r = anchor.add_device(&vec![1; 3], device(2, DeviceProtection::Unprotected), 5, 10);
    assert_eq!(r, Err(DeviceError::DuplicateKey));
    assert_eq!(anchor.list_devices().len(), 2);
}

#[test]
fn add_device_unknown_caller() {
    let mut anchor = anchor_with(&[1]);
    let r = anchor.add_device(&vec![9; 3], device(2, DeviceProtection::Unprotected), 5, 10);
    assert_eq!(r, Err(DeviceError::Unauthorized));
    assert_eq!(anchor.list_devices().len(), 1);
    assert_eq!(anchor.list_devices()[0].last_usage, None);
}

#[test]
fn add_device_reserved_metadata_key() {
    let mut anchor = anchor_with(&[1]);
    let mut d = device(2, DeviceProtection::Unprotected);
    d.metadata = Some(vec![
        (String::from("usage"), MetadataEntry::String(String::from("phone"))),
        (String::from("origin"), MetadataEntry::Bytes(vec![1, 2])),
    ]);
    assert_eq!(anchor.add_device(&vec![1; 3], d, 5, 10), Err(DeviceError::ReservedMetadataKey));
}

#[test]
fn add_device_accepts_nested_metadata() {
    let mut anchor = anchor_with(&[1]);
    let mut d = device(2, DeviceProtection::Unprotected);
    d.metadata = Some(vec![(
        String::from("details"),
        MetadataEntry::NestedMap(vec![(
            String::from("alias"),
            MetadataEntry::String(String::from("inner")),
        )]),
    )]);
    assert_eq!(anchor.add_device(&vec![1; 3], d, 5, 10), Ok(()));
}

#[test]
fn add_device_anchor_full() {
    let mut anchor = anchor_with(&[1, 2]);
    let r = anchor.add_device(&vec![1; 3], device(3, DeviceProtection::Unprotected), 5, 2);
    assert_eq!(r, Err(DeviceError::AnchorFull));
    let r = anchor.add_device(&vec![1; 3], device(3, DeviceProtection::Unprotected), 5, 3);
    assert_eq!(r, Ok(()));
}

#[test]
fn add_device_refuses_key_of_waiting_device() {
    let mut anchor = pending_anchor(100);
    let r = anchor.add_device(&vec![1; 3], device(2, DeviceProtection::Unprotected), 150, 10);
    assert_eq!(r, Err(DeviceError::DuplicateKey));
    let r = anchor.add_device(&vec![1; 3], device(2, DeviceProtection::Unprotected), 1000, 10);
    assert_eq!(r, Ok(()));
    assert!(matches!(anchor.registration, RegistrationState::Closed));
}

#[test]
fn remove_protected_device_as_other_device_is_unauthorized() {
    let mut anchor = anchor_with(&[1]);
    anchor.add_device(&vec![1; 3], device(2, DeviceProtection::Protected), 1, 10).unwrap();
    let r = anchor.remove_device(&vec![1; 3], &vec![2; 3], 9);
    assert_eq!(r, Err(DeviceError::Unauthorized));
    assert_eq!(anchor.list_devices().len(), 2);
    let r = anchor.remove_device(&vec![2; 3], &vec![2; 3], 9);
    assert_eq!(r, Ok(()));
    assert_eq!(anchor.list_devices().len(), 1);
    assert_eq!(anchor.list_devices()[0].pubkey, vec![1, 1, 1]);
}

#[test]
fn remove_unprotected_device_as_other_device() {
    let mut anchor = anchor_with(&[1, 2, 3]);
    let r = anchor.remove_device(&vec![3; 3], &vec![2; 3], 42);
    assert_eq!(r, Ok(()));
    let devices = anchor.list_devices();
    assert_eq!(devices.len(), 2);
    assert_eq!(devices[0].pubkey, vec![1, 1, 1]);
    assert_eq!(devices[1].pubkey, vec![3, 3, 3]);
    assert_eq!(devices[1].last_usage, Some(42));
}

#[test]
fn remove_last_credential_is_refused() {
    let mut anchor = anchor_with(&[1]);
    let r = anchor.remove_device(&vec![1; 3], &vec![1; 3], 9);
    assert_eq!(r, Err(DeviceError::LastCredential));
    assert_eq!(anchor.list_devices().len(), 1);
}

#[test]
fn remove_unknown_device() {
    let mut anchor = anchor_with(&[1, 2]);
    assert_eq!(anchor.remove_device(&vec![1; 3], &vec![7; 3], 9), Err(DeviceError::DeviceNotFound));
    assert_eq!(anchor.remove_device(&vec![7; 3], &vec![1; 3], 9), Err(DeviceError::Unauthorized));
}

#[test]
fn update_device_changes_target_and_touches_caller() {
    let mut anchor = anchor_with(&[1, 2]);
    let update = DeviceUpdate {
        alias: String::from("renamed"),
        protection: DeviceProtection::Protected,
        metadata: None,
    };
    assert_eq!(anchor.update_device(&vec![1; 3], &vec![2; 3], update, 500), Ok(()));
    let devices = anchor.list_devices();
    assert_eq!(devices[0].last_usage, Some(500));
    assert_eq!(devices[1].alias, "renamed");
    assert_eq!(devices[1].protection, DeviceProtection::Protected);
    assert_eq!(devices[1].last_usage, None);
    assert_eq!(devices[1].pubkey, vec![2, 2, 2]);
    let again = DeviceUpdate {
        alias: String::from("again"),
        protection: DeviceProtection::Unprotected,
        metadata: None,
    };
    assert_eq!(
        anchor.update_device(&vec![1; 3], &vec![2; 3], again, 501),
        Err(DeviceError::Unauthorized)
    );
    assert_eq!(anchor.list_devices()[1].alias, "renamed");
}

#[test]
fn update_device_reserved_metadata_key() {
    let mut anchor = anchor_with(&[1, 2]);
    let update = DeviceUpdate {
        alias: String::from("renamed"),
        protection: DeviceProtection::Unprotected,
        metadata: Some(vec![(String::from("pubkey"), MetadataEntry::Bytes(vec![0]))]),
    };
    assert_eq!(
        anchor.update_device(&vec![1; 3], &vec![2; 3], update, 500),
        Err(DeviceError::ReservedMetadataKey)
    );
}

#[test]
fn open_registration_twice_is_already_in_progress() {
    let mut anchor = anchor_with(&[1]);
    assert_eq!(anchor.open_registration(&vec![1; 3], String::from("111111"), 100, 900), Ok(1000));
    assert_eq!(
        anchor.open_registration(&vec![1; 3], String::from("222222"), 100, 900),
        Err(RegistrationError::AlreadyInProgress)
    );
    assert_eq!(
        anchor.open_registration(&vec![1; 3], String::from("222222"), 999, 900),
        Err(RegistrationError::AlreadyInProgress)
    );
    match &anchor.registration {
        RegistrationState::Open { expiration, code } => {
            assert_eq!(*expiration, 1000);
            assert_eq!(code, "111111");
        }
        other => panic!("unexpected state {:?}", other),
    }
}

#[test]
fn open_registration_after_expiry_opens_anew() {
    let mut anchor = anchor_with(&[1]);
    assert_eq!(anchor.open_registration(&vec![1; 3], String::from("111111"), 100, 900), Ok(1000));
    assert_eq!(anchor.open_registration(&vec![1; 3], String::from("222222"), 1000, 50), Ok(1050));
}

#[test]
fn open_registration_by_stranger_is_unauthorized() {
    let mut anchor = anchor_with(&[1]);
    assert_eq!(
        anchor.open_registration(&vec![4; 3], String::from("111111"), 100, 900),
        Err(RegistrationError::Unauthorized)
    );
    assert!(matches!(anchor.registration, RegistrationState::Closed));
}

#[test]
fn submit_without_window_is_mode_off() {
    let mut anchor = anchor_with(&[1]);
    let r = anchor.submit_tentative_device(device(2, DeviceProtection::Unprotected), 5);
    assert!(matches!(r, Ok(AddTentativeDeviceResponse::DeviceRegistrationModeOff)));
}

#[test]
fn submit_after_expiry_is_mode_off() {
    let mut anchor = anchor_with(&[1]);
    anchor.open_registration(&vec![1; 3], String::from("111111"), 100, 900).unwrap();
    let r = anchor.submit_tentative_device(device(2, DeviceProtection::Unprotected), 1000);
    assert!(matches!(r, Ok(AddTentativeDeviceResponse::DeviceRegistrationModeOff)));
    assert!(matches!(anchor.registration, RegistrationState::Closed));
}

#[test]
fn submit_second_device_is_refused() {
    let mut anchor = pending_anchor(100);
    let r = anchor.submit_tentative_device(device(3, DeviceProtection::Unprotected), 200);
    assert!(matches!(r, Ok(AddTentativeDeviceResponse::AnotherDeviceTentativelyAdded)));
    match &anchor.registration {
        RegistrationState::PendingVerification { device, retries_left, .. } => {
            assert_eq!(device.pubkey, vec![2, 2, 2]);
            assert_eq!(*retries_left, 3);
        }
        other => panic!("unexpected state {:?}", other),
    }
}

#[test]
fn submit_existing_key_is_duplicate() {
    let mut anchor = anchor_with(&[1, 2]);
    anchor.open_registration(&vec![1; 3], String::from("111111"), 100, 900).unwrap();
    let r = anchor.submit_tentative_device(device(2, DeviceProtection::Unprotected), 200);
    assert!(matches!(r, Err(DeviceError::DuplicateKey)));
    assert!(matches!(anchor.registration, RegistrationState::Open { .. }));
}

#[test]
fn verify_right_code_adds_the_device() {
    let mut anchor = pending_anchor(100);
    let r = anchor.verify_tentative_device(&String::from("123456"), 500);
    assert!(matches!(r, VerifyTentativeDeviceResponse::Verified));
    assert!(matches!(anchor.registration, RegistrationState::Closed));
    let devices = anchor.list_devices();
    assert_eq!(devices.len(), 2);
    assert_eq!(devices[1].pubkey, vec![2, 2, 2]);
    assert_eq!(devices[1].key_type, KeyType::CrossPlatform);
    assert_eq!(devices[1].protection, DeviceProtection::Unprotected);
    assert_eq!(devices[1].last_usage, None);
}

#[test]
fn verify_right_code_after_two_wrong_ones() {
    let mut anchor = pending_anchor(100);
    anchor.verify_tentative_device(&String::from("000000"), 200);
    anchor.verify_tentative_device(&String::from("000001"), 201);
    let r = anchor.verify_tentative_device(&String::from("123456"), 202);
    assert!(matches!(r, VerifyTentativeDeviceResponse::Verified));
    assert_eq!(anchor.list_devices().len(), 2);
    assert!(matches!(anchor.registration, RegistrationState::Closed));
}

#[test]
fn three_wrong_codes_close_the_window() {
    let mut anchor = pending_anchor(100);
    let r = anchor.verify_tentative_device(&String::from("000000"), 200);
    assert!(matches!(r, VerifyTentativeDeviceResponse::WrongCode { retries_left: 2 }));
    let r = anchor.verify_tentative_device(&String::from("000000"), 201);
    assert!(matches!(r, VerifyTentativeDeviceResponse::WrongCode { retries_left: 1 }));
    assert!(matches!(
        anchor.registration,
        RegistrationState::PendingVerification { retries_left: 1, .. }
    ));
    let r = anchor.verify_tentative_device(&String::from("000000"), 202);
    assert!(matches!(r, VerifyTentativeDeviceResponse::WrongCode { retries_left: 0 }));
    assert!(matches!(anchor.registration, RegistrationState::Closed));
    let r = anchor.verify_tentative_device(&String::from("123456"), 203);
    assert!(matches!(r, VerifyTentativeDeviceResponse::DeviceRegistrationModeOff));
    assert_eq!(anchor.list_devices().len(), 1);
}

#[test]
fn verify_after_expiry_is_mode_off_even_with_right_code() {
    let mut anchor = pending_anchor(100);
    let r = anchor.verify_tentative_device(&String::from("123456"), 1000);
    assert!(matches!(r, VerifyTentativeDeviceResponse::DeviceRegistrationModeOff));
    assert!(matches!(anchor.registration, RegistrationState::Closed));
    assert_eq!(anchor.list_devices().len(), 1);
}

#[test]
fn verify_just_before_expiry_is_accepted() {
    let mut anchor = pending_anchor(100);
    let r = anchor.verify_tentative_device(&String::from("123456"), 999);
    assert!(matches!(r, VerifyTentativeDeviceResponse::Verified));
}

#[test]
fn verify_without_submitted_device() {
    let mut anchor = anchor_with(&[1]);
    anchor.open_registration(&vec![1; 3], String::from("111111"), 100, 900).unwrap();
    let r = anchor.verify_tentative_device(&String::from("111111"), 200);
    assert!(matches!(r, VerifyTentativeDeviceResponse::NoDeviceToVerify));
    assert!(matches!(anchor.registration, RegistrationState::Open { .. }));
}

#[test]
fn exit_registration_closes_the_window() {
    let mut anchor = pending_anchor(100);
    assert_eq!(anchor.exit_registration(&vec![8; 3]), Err(RegistrationError::Unauthorized));
    assert!(matches!(anchor.registration, RegistrationState::PendingVerification { .. }));
    assert_eq!(anchor.exit_registration(&vec![1; 3]), Ok(()));
    assert!(matches!(anchor.registration, RegistrationState::Closed));
    let r = anchor.verify_tentative_device(&String::from("123456"), 200);
    assert!(matches!(r, VerifyTentativeDeviceResponse::DeviceRegistrationModeOff));
}

#[test]
fn info_shows_live_registration_only() {
    let info = pending_anchor(100).into_info(500);
    assert_eq!(info.devices.len(), 1);
    let reg = info.device_registration.unwrap();
    assert_eq!(reg.expiration, 1000);
    assert_eq!(reg.tentative_device.unwrap().pubkey, vec![2, 2, 2]);
    let info = pending_anchor(100).into_info(1000);
    assert!(info.device_registration.is_none());
    assert_eq!(info.openid_credentials, Some(vec![]));
}

#[test]
fn device_clone_copies_every_level_of_metadata() {
    let mut d = device(4, DeviceProtection::Protected);
    d.credential_id = Some(vec![9, 8, 7]);
    d.metadata = Some(vec![
        (String::from("usage"), MetadataEntry::String(String::from("phone"))),
        (
            String::from("details"),
            MetadataEntry::NestedMap(vec![
                (String::from("raw"), MetadataEntry::Bytes(vec![1, 2, 3])),
                (
                    String::from("deeper"),
                    MetadataEntry::NestedMap(vec![(
                        String::from("leaf"),
                        MetadataEntry::String(String::from("x")),
                    )]),
                ),
            ]),
        ),
    ]);
    let copy = d.clone();
    assert_eq!(copy, d);
    let mut anchor = anchor_with(&[1]);
    anchor.add_device(&vec![1; 3], d, 3, 10).unwrap();
    let bound = anchor.list_devices()[1].clone();
    assert_eq!(bound, anchor.list_devices()[1]);
    assert_eq!(bound.pubkey, copy.pubkey);
    assert_eq!(bound.metadata, copy.metadata);
    assert_eq!(bound.credential_id, Some(vec![9, 8, 7]));
    assert_eq!(bound.last_usage, None);
}

#[test]
fn submit_with_reserved_metadata_key_is_refused() {
    let mut anchor = anchor_with(&[1]);
    anchor.open_registration(&vec![1; 3], String::from("111111"), 100, 900).unwrap();
    let mut d = device(2, DeviceProtection::Unprotected);
    d.metadata = Some(vec![(String::from("key_type"), MetadataEntry::String(String::from("x")))]);
    let r = anchor.submit_tentative_device(d, 200);
    assert!(matches!(r, Err(DeviceError::ReservedMetadataKey)));
    assert!(matches!(anchor.registration, RegistrationState::Open { expiration: 1000, .. }));
}
