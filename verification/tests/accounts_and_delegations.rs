use candid::Principal;
use internet_identity_interface::accounts::{
    check_max_accounts, validate_account_name, AccountRegistry,
};
use internet_identity_interface::anchor::Anchor;
use internet_identity_interface::delegation::DelegationIssuer;
use internet_identity_interface::devices::{bytes_eq, reserved_key, str_eq};
use internet_identity_interface::types::{
    AccountDelegationError, AccountInfo, AccountNameValidationError, AccountUpdate,
    AnchorCredentials, AuthorizationKey, CheckMaxAccountError, CreateAccountError, DeviceData, DeviceProtection,
    DummyAuthConfig, GetAccountsError, InternetIdentityInit, KeyType, OpenIdConfig, Purpose,
    OpenIdCredentialData, UpdateAccountError,
};

fn anchor() -> Anchor {
    Anchor::new(
        42,
        DeviceData {
            pubkey: vec![1, 2, 3],
            alias: String::from("laptop"),
            credential_id: Some(vec![9]),
            purpose: Purpose::Authentication,
            key_type: KeyType::Platform,
            protection: DeviceProtection::Unprotected,
            origin: None,
            metadata: None,
        },
    )
    .unwrap()
}

fn caller() -> AuthorizationKey {
    AuthorizationKey::DeviceKey(vec![1, 2, 3])
}

fn stranger() -> AuthorizationKey {
    AuthorizationKey::DeviceKey(vec![0])
}

fn principal() -> Principal {
    Principal::from_slice(&[7, 7, 7])
}

fn origin() -> String {
    String::from("https://app.example")
}

#[test]
fn accounts_up_to_the_maximum_then_limit_reached() {
    let a = anchor();
    let mut reg = AccountRegistry::new();
    for i in 0..3u64 {
        let r = reg.create_account(&a, &caller(), principal(), origin(), format!("acc {}", i), 3, 20);
        assert_eq!(
            r,
            Ok(AccountInfo {
                account_number: Some(1 + i),
                origin: origin(),
                last_used: None,
                name: Some(format!("acc {}", i)),
            })
        );
    }
    let r = reg.create_account(&a, &caller(), principal(), origin(), String::from("one more"), 3, 20);
    assert_eq!(r, Err(CreateAccountError::AccountLimitReached));
    let other = reg.create_account(
        &a,
        &caller(),
        principal(),
        String::from("https://other.example"),
        String::from("elsewhere"),
        3,
        20,
    );
    assert_eq!(other.unwrap().account_number, Some(4));
    assert_eq!(reg.count_accounts(&origin()), 3);
}

#[test]
fn create_account_name_too_long() {
    let a = anchor();
    let mut reg = AccountRegistry::new();
    let r = reg.create_account(&a, &caller(), principal(), origin(), String::from("abcdef"), 3, 5);
    assert_eq!(r, Err(CreateAccountError::NameTooLong));
    let r = reg.create_account(&a, &caller(), principal(), origin(), String::from("abcde"), 3, 5);
    assert!(r.is_ok());
}

#[test]
fn create_account_unauthorized_carries_the_principal() {
    let a = anchor();
    let mut reg = AccountRegistry::new();
    let r = reg.create_account(&a, &stranger(), principal(), origin(), String::from("x"), 3, 5);
    assert_eq!(r, Err(CreateAccountError::Unauthorized(principal())));
    assert_eq!(reg.named.len(), 0);
    let e = CreateAccountError::Unauthorized(principal());
    assert_eq!(e.clone(), CreateAccountError::Unauthorized(Principal::from_slice(&[7, 7, 7])));
    assert_ne!(e.clone(), CreateAccountError::Unauthorized(Principal::anonymous()));
}

#[test]
fn get_accounts_starts_with_the_default_account() {
    let a = anchor();
    let mut reg = AccountRegistry::new();
    let listed = reg.get_accounts(&a, &caller(), principal(), &origin()).unwrap();
    assert_eq!(
        listed,
        vec![AccountInfo { account_number: None, origin: origin(), last_used: None, name: None }]
    );
    reg.create_account(&a, &caller(), principal(), origin(), String::from("first"), 3, 20).unwrap();
    reg.create_account(
        &a,
        &caller(),
        principal(),
        String::from("https://other.example"),
        String::from("other"),
        3,
        20,
    )
    .unwrap();
    reg.create_account(&a, &caller(), principal(), origin(), String::from("second"), 3, 20).unwrap();
    let listed = reg.get_accounts(&a, &caller(), principal(), &origin()).unwrap();
    assert_eq!(listed.len(), 3);
    assert_eq!(listed.iter().filter(|x| x.account_number.is_none()).count(), 1);
    assert_eq!(listed[0].account_number, None);
    assert_eq!(listed[1].name, Some(String::from("first")));
    assert_eq!(listed[1].account_number, Some(1));
    assert_eq!(listed[2].name, Some(String::from("second")));
    assert_eq!(listed[2].account_number, Some(3));
}

#[test]
fn get_accounts_unauthorized() {
    let a = anchor();
    let reg = AccountRegistry::new();
    let r = reg.get_accounts(&a, &stranger(), principal(), &origin());
    assert_eq!(r, Err(GetAccountsError::Unauthorized(principal())));
}

#[test]
fn update_account_renames_a_created_account() {
    let a = anchor();
    let mut reg = AccountRegistry::new();
    reg.create_account(&a, &caller(), principal(), origin(), String::from("first"), 3, 20).unwrap();
    let update = AccountUpdate { name: Some(String::from("renamed")) };
    let r = reg.update_account(&a, &caller(), principal(), origin(), Some(1), update, 20);
    assert_eq!(r.unwrap().name, Some(String::from("renamed")));
    let keep = AccountUpdate { name: None };
    let r = reg.update_account(&a, &caller(), principal(), origin(), Some(1), keep, 20);
    assert_eq!(r.unwrap().name, Some(String::from("renamed")));
    let listed = reg.get_accounts(&a, &caller(), principal(), &origin()).unwrap();
    assert_eq!(listed[1].name, Some(String::from("renamed")));
    assert_eq!(listed[1].account_number, Some(1));
}

#[test]
fn update_account_stores_the_default_account() {
    let a = anchor();
    let mut reg = AccountRegistry::new();
    let update = AccountUpdate { name: Some(String::from("main")) };
    let r = reg.update_account(&a, &caller(), principal(), origin(), None, update, 20).unwrap();
    assert_eq!(
        r,
        AccountInfo {
            account_number: Some(1),
            origin: origin(),
            last_used: None,
            name: Some(String::from("main")),
        }
    );
    let again = AccountUpdate { name: Some(String::from("main 2")) };
    let r = reg.update_account(&a, &caller(), principal(), origin(), None, again, 20).unwrap();
    assert_eq!(r.account_number, Some(1));
    assert_eq!(r.name, Some(String::from("main 2")));
    let listed = reg.get_accounts(&a, &caller(), principal(), &origin()).unwrap();
    assert_eq!(listed.len(), 1);
    assert_eq!(listed[0].name, Some(String::from("main 2")));
    assert_eq!(reg.next_account_number, 2);
}

#[test]
fn update_account_errors() {
    let a = anchor();
    let mut reg = AccountRegistry::new();
    let long = AccountUpdate { name: Some(String::from("much too long")) };
    let r = reg.update_account(&a, &caller(), principal(), origin(), None, long, 4);
    assert_eq!(r, Err(UpdateAccountError::NameTooLong));
    let no_change = AccountUpdate { name: None };
    let r = reg.update_account(&a, &stranger(), principal(), origin(), None, no_change, 4);
    assert_eq!(r, Err(UpdateAccountError::Unauthorized(principal())));
    let missing = AccountUpdate { name: None };
    let r = reg.update_account(&a, &caller(), principal(), origin(), Some(17), missing, 4);
    assert!(matches!(r, Err(UpdateAccountError::InternalCanisterError(_))));
    assert_eq!(reg.defaults.len(), 0);
}

#[test]
fn account_checks_and_conversions() {
    assert!(check_max_accounts(2, 3).is_ok());
    assert!(matches!(check_max_accounts(3, 3), Err(CheckMaxAccountError::AccountLimitReached)));
    assert!(validate_account_name(&String::from("abc"), 3).is_ok());
    assert!(matches!(
        validate_account_name(&String::from("abcd"), 3),
        Err(AccountNameValidationError::NameTooLong)
    ));
    assert_eq!(
        CreateAccountError::from(CheckMaxAccountError::AccountLimitReached),
        CreateAccountError::AccountLimitReached
    );
    assert_eq!(
        CreateAccountError::from(AccountNameValidationError::NameTooLong),
        CreateAccountError::NameTooLong
    );
    assert_eq!(
        UpdateAccountError::from(CheckMaxAccountError::AccountLimitReached),
        UpdateAccountError::AccountLimitReached
    );
    assert_eq!(
        UpdateAccountError::from(AccountNameValidationError::NameTooLong),
        UpdateAccountError::NameTooLong
    );
}

#[test]
fn prepared_delegation_is_fetched_with_its_expiration() {
    let a = anchor();
    let mut issuer = DelegationIssuer::new();
    let prepared = issuer
        .prepare_delegation(
            &a,
            &caller(),
            principal(),
            vec![0xAA, 0xBB],
            vec![5, 5],
            origin(),
            None,
            None,
            10_000,
            8_000,
        )
        .ok()
        .unwrap();
    assert_eq!(prepared.user_key, vec![0xAA, 0xBB]);
    assert_eq!(prepared.expiration, 8_000);
    let other = issuer.get_delegation(
        &a,
        &caller(),
        principal(),
        vec![6, 6],
        &origin(),
        None,
        prepared.expiration,
        100,
        vec![1],
    );
    assert!(matches!(other, Err(AccountDelegationError::NoSuchDelegation)));
    let wrong_expiration =
        issuer.get_delegation(&a, &caller(), principal(), vec![5, 5], &origin(), None, 10_000, 100, vec![1]);
    assert!(matches!(wrong_expiration, Err(AccountDelegationError::NoSuchDelegation)));
    let signed = issuer
        .get_delegation(
            &a,
            &caller(),
            principal(),
            vec![5, 5],
            &origin(),
            None,
            prepared.expiration,
            100,
            vec![0xC0, 0xDE],
        )
        .ok()
        .unwrap();
    assert_eq!(signed.delegation.expiration, prepared.expiration);
    assert_eq!(signed.delegation.pubkey, vec![5, 5]);
    assert!(signed.delegation.targets.is_none());
    assert_eq!(signed.signature, vec![0xC0, 0xDE]);
    assert_eq!(issuer.pending.len(), 0);
}

#[test]
fn delegation_keeps_requested_expiration_below_the_ceiling() {
    let a = anchor();
    let mut issuer = DelegationIssuer::new();
    let prepared = issuer
        .prepare_delegation(&a, &caller(), principal(), vec![1], vec![5], origin(), Some(2), None, 700, 8_000)
        .ok()
        .unwrap();
    assert_eq!(prepared.expiration, 700);
    let wrong_account =
        issuer.get_delegation(&a, &caller(), principal(), vec![5], &origin(), None, 700, 100, vec![]);
    assert!(matches!(wrong_account, Err(AccountDelegationError::NoSuchDelegation)));
    let expired =
        issuer.get_delegation(&a, &caller(), principal(), vec![5], &origin(), Some(2), 700, 700, vec![]);
    assert!(matches!(expired, Err(AccountDelegationError::NoSuchDelegation)));
    let ok = issuer.get_delegation(&a, &caller(), principal(), vec![5], &origin(), Some(2), 700, 699, vec![]);
    assert!(ok.is_ok());
}

#[test]
fn delegation_carries_its_targets_and_is_superseded() {
    let a = anchor();
    let mut issuer = DelegationIssuer::new();
    let targets = vec![Principal::from_slice(&[1]), Principal::from_slice(&[2, 2])];
    issuer
        .prepare_delegation(&a, &caller(), principal(), vec![1], vec![5], origin(), None, None, 700, 8_000)
        .ok()
        .unwrap();
    issuer
        .prepare_delegation(
            &a,
            &caller(),
            principal(),
            vec![1],
            vec![5],
            origin(),
            None,
            Some(targets.clone()),
            900,
            8_000,
        )
        .ok()
        .unwrap();
    assert_eq!(issuer.pending.len(), 1);
    let old = issuer.get_delegation(&a, &caller(), principal(), vec![5], &origin(), None, 700, 1, vec![]);
    assert!(matches!(old, Err(AccountDelegationError::NoSuchDelegation)));
    let signed = issuer
        .get_delegation(&a, &caller(), principal(), vec![5], &origin(), None, 900, 1, vec![3])
        .ok()
        .unwrap();
    assert_eq!(signed.delegation.targets, Some(targets));
}

#[test]
fn delegation_calls_by_strangers_are_unauthorized() {
    let a = anchor();
    let mut issuer = DelegationIssuer::new();
    let r = issuer.prepare_delegation(
        &a,
        &stranger(),
        principal(),
        vec![1],
        vec![5],
        origin(),
        None,
        None,
        700,
        8_000,
    );
    assert!(matches!(r, Err(AccountDelegationError::Unauthorized(p)) if p == principal()));
    assert_eq!(issuer.pending.len(), 0);
    let r = issuer.get_delegation(&a, &stranger(), principal(), vec![5], &origin(), None, 700, 1, vec![]);
    assert!(matches!(r, Err(AccountDelegationError::Unauthorized(p)) if p == principal()));
}

#[test]
fn byte_and_string_comparisons() {
    assert!(bytes_eq(&vec![1, 2, 3], &vec![1, 2, 3]));
    assert!(!bytes_eq(&vec![1, 2, 3], &vec![1, 2, 4]));
    assert!(!bytes_eq(&vec![1, 2, 3], &vec![1, 2]));
    assert!(bytes_eq(&vec![], &vec![]));
    assert!(str_eq("alias", "alias"));
    assert!(!str_eq("alias", "Alias"));
    for key in [
        "pubkey",
        "alias",
        "credential_id",
        "purpose",
        "key_type",
        "protection",
        "origin",
        "last_usage",
        "metadata",
    ] {
        assert!(reserved_key(&String::from(key)));
    }
    assert!(!reserved_key(&String::from("usage")));
    assert!(!reserved_key(&String::from("")));
}

#[test]
fn defaults_are_empty() {
    let c = AnchorCredentials::default();
    assert!(c.credentials.is_empty() && c.recovery_credentials.is_empty() && c.recovery_phrases.is_empty());
    assert_eq!(OpenIdConfig::default().client_id, "");
    assert!(!DummyAuthConfig::default().prompt_for_index);
    let init = InternetIdentityInit::default();
    assert_eq!(init.assigned_user_number_range, None);
    assert_eq!(init.captcha_config, None);
    assert_eq!(init.dummy_auth, None);
}

#[test]
fn openid_credential_authorizes_account_calls() {
    let mut a = anchor();
    let key = AuthorizationKey::OpenIdCredentialKey((
        String::from("https://accounts.example"),
        String::from("subject-1"),
    ));
    let mut reg = AccountRegistry::new();
    let r = reg.get_accounts(&a, &key, principal(), &origin());
    assert_eq!(r, Err(GetAccountsError::Unauthorized(principal())));
    assert!(!a.is_authorized(&key));
    a.openid_credentials.push(OpenIdCredentialData {
        iss: String::from("https://accounts.example"),
        sub: String::from("subject-1"),
        aud: String::from("client"),
        last_usage_timestamp: None,
    });
    assert!(a.is_authorized(&key));
    let other_subject = AuthorizationKey::OpenIdCredentialKey((
        String::from("https://accounts.example"),
        String::from("subject-2"),
    ));
    assert!(!a.is_authorized(&other_subject));
    assert!(a.is_authorized(&caller()));
    assert!(!a.is_authorized(&stranger()));
    let r = reg.create_account(&a, &key, principal(), origin(), String::from("mine"), 3, 20);
    assert_eq!(r.unwrap().account_number, Some(1));
}

#[test]
fn account_numbers_can_run_out() {
    let a = anchor();
    let mut reg = AccountRegistry::new();
    reg.next_account_number = u64::MAX;
    let r = reg.create_account(&a, &caller(), principal(), origin(), String::from("x"), 3, 20);
    assert_eq!(
        r,
        Err(CreateAccountError::InternalCanisterError(String::from("account numbers are used up")))
    );
    let update = AccountUpdate { name: Some(String::from("main")) };
    let r = reg.update_account(&a, &caller(), principal(), origin(), None, update, 20);
    assert_eq!(
        r,
        Err(UpdateAccountError::InternalCanisterError(String::from("account numbers are used up")))
    );
    let update = AccountUpdate { name: Some(String::from("main")) };
    let r = reg.update_account(&a, &caller(), principal(), origin(), Some(3), update, 20);
    assert_eq!(
        r,
        Err(UpdateAccountError::InternalCanisterError(String::from("no such account")))
    );
    assert_eq!(reg.next_account_number, u64::MAX);
    assert!(reg.named.is_empty() && reg.defaults.is_empty());
}
