//! The data carried by the public interface of the identity service.

use vstd::prelude::*;

verus! {

pub type AnchorNumber = u64;

pub type CredentialId = Vec<u8>;

pub type PublicKey = Vec<u8>;

pub type DeviceKey = PublicKey;

pub type UserKey = PublicKey;

pub type SessionKey = PublicKey;

pub type CanisterSigPublicKeyDer = PublicKey;

pub type FrontendHostname = String;

pub type ApplicationNumber = u64;

/// Nanoseconds since the epoch.
pub type Timestamp = u64;

pub type Signature = Vec<u8>;

pub type DeviceConfirmationCode = String;

pub type FailedAttemptsCounter = u8;

pub type AccountNumber = u64;

pub type ChallengeKey = String;

/// Issuer and subject of an OpenID credential.
pub type OpenIdCredentialKey = (String, String);

/// `candid::Principal`, carried through unread: the library never looks
/// inside a principal, it only hands one back in an answer.
#[verifier::external_type_specification]
#[verifier::external_body]
pub struct ExPrincipal(candid::Principal);

/// `Clone::clone` of `candid::Principal`. A principal is `Copy`, and its
/// derived clone returns the value it was given.
pub assume_specification[ <candid::Principal as Clone>::clone ](p: &candid::Principal) -> (r:
    candid::Principal)
    ensures
        r == *p,
;

/// The entries of a metadata map, in the order in which they were given.
pub type MetadataMap = Vec<(String, MetadataEntry)>;

#[derive(Eq, PartialEq, Debug)]
pub struct DeviceData {
    pub pubkey: DeviceKey,
    pub alias: String,
    pub credential_id: Option<CredentialId>,
    pub purpose: Purpose,
    pub key_type: KeyType,
    pub protection: DeviceProtection,
    pub origin: Option<String>,
    /// Additional device information. The names of the fields above are
    /// reserved and cannot be used as keys.
    pub metadata: Option<MetadataMap>,
}

#[derive(Eq, PartialEq, Debug)]
pub struct DeviceWithUsage {
    pub pubkey: DeviceKey,
    pub alias: String,
    pub credential_id: Option<CredentialId>,
    pub purpose: Purpose,
    pub key_type: KeyType,
    pub protection: DeviceProtection,
    pub origin: Option<String>,
    pub last_usage: Option<Timestamp>,
    pub metadata: Option<MetadataMap>,
}

#[derive(Eq, PartialEq, Clone, Copy, Debug)]
pub enum Purpose {
    Recovery,
    Authentication,
}

#[derive(Clone, Debug)]
pub enum RegisterResponse {
    Registered { user_number: AnchorNumber },
    CanisterFull,
    BadChallenge,
}

#[derive(Eq, PartialEq, Clone, Copy, Debug)]
pub enum KeyType {
    Unknown,
    Platform,
    CrossPlatform,
    SeedPhrase,
    BrowserStorageKey,
}

#[derive(Eq, PartialEq, Clone, Copy, Debug)]
pub enum DeviceProtection {
    Protected,
    Unprotected,
}

#[derive(Eq, PartialEq, Debug)]
pub enum MetadataEntry {
    String(String),
    Bytes(Vec<u8>),
    NestedMap(MetadataMap),
}

#[derive(Clone, Debug, Eq, PartialEq)]
pub struct Challenge {
    pub png_base64: String,
    pub challenge_key: ChallengeKey,
}

/// The user's attempt at a challenge.
#[derive(Clone, Debug)]
pub struct ChallengeAttempt {
    pub chars: String,
    pub key: ChallengeKey,
}

#[derive(Clone, Debug)]
pub struct Delegation {
    pub pubkey: PublicKey,
    pub expiration: Timestamp,
    pub targets: Option<Vec<candid::Principal>>,
}

#[derive(Clone, Debug)]
pub struct SignedDelegation {
    pub delegation: Delegation,
    pub signature: Signature,
}

#[derive(Clone, Debug)]
pub enum GetDelegationResponse {
    SignedDelegation(SignedDelegation),
    NoSuchDelegation,
}

#[derive(Clone, Debug)]
pub enum AddTentativeDeviceResponse {
    AddedTentatively {
        verification_code: DeviceConfirmationCode,
        device_registration_timeout: Timestamp,
    },
    DeviceRegistrationModeOff,
    AnotherDeviceTentativelyAdded,
}

#[derive(Clone, Debug)]
pub enum VerifyTentativeDeviceResponse {
    Verified,
    WrongCode { retries_left: u8 },
    DeviceRegistrationModeOff,
    NoDeviceToVerify,
}

#[derive(Clone, Debug)]
pub struct DeviceRegistrationInfo {
    pub expiration: Timestamp,
    pub tentative_device: Option<DeviceData>,
}

#[derive(Eq, PartialEq, Clone, Debug)]
pub struct OpenIdCredentialData {
    pub iss: String,
    pub sub: String,
    pub aud: String,
    pub last_usage_timestamp: Option<Timestamp>,
}

#[derive(Clone, Debug)]
pub struct IdentityAnchorInfo {
    pub devices: Vec<DeviceWithUsage>,
    pub device_registration: Option<DeviceRegistrationInfo>,
    pub openid_credentials: Option<Vec<OpenIdCredentialData>>,
    pub name: Option<String>,
}

#[derive(Clone, Debug, Eq, PartialEq)]
pub struct WebAuthnCredential {
    pub pubkey: DeviceKey,
    pub credential_id: CredentialId,
}

#[derive(Clone, Debug, Eq, PartialEq)]
pub struct AnchorCredentials {
    pub credentials: Vec<WebAuthnCredential>,
    pub recovery_credentials: Vec<WebAuthnCredential>,
    pub recovery_phrases: Vec<PublicKey>,
}

/// Arguments that can be supplied on install and upgrade.
///
/// `None` keeps the previous value of a field. Where a field holds a second
/// `Option`, `Some(None)` switches the feature off.
#[derive(Clone, Debug, Eq, PartialEq)]
pub struct InternetIdentityInit {
    pub assigned_user_number_range: Option<(AnchorNumber, AnchorNumber)>,
    pub archive_config: Option<ArchiveConfig>,
    pub canister_creation_cycles_cost: Option<u64>,
    pub register_rate_limit: Option<RateLimitConfig>,
    pub captcha_config: Option<CaptchaConfig>,
    pub related_origins: Option<Vec<String>>,
    pub new_flow_origins: Option<Vec<String>>,
    pub openid_google: Option<Option<OpenIdConfig>>,
    pub analytics_config: Option<Option<AnalyticsConfig>>,
    pub fetch_root_key: Option<bool>,
    pub enable_dapps_explorer: Option<bool>,
    pub is_production: Option<bool>,
    pub dummy_auth: Option<Option<DummyAuthConfig>>,
    pub feature_flag_continue_from_another_device: Option<bool>,
}

#[derive(Debug, Eq, PartialEq)]
pub struct InternetIdentityStats {
    pub assigned_user_number_range: (AnchorNumber, AnchorNumber),
    pub users_registered: u64,
    pub archive_info: ArchiveInfo,
    pub canister_creation_cycles_cost: u64,
    pub storage_layout_version: u8,
    /// For each kind of aggregation, the weight of each of its sub-keys.
    pub event_aggregations: Vec<(String, Vec<(String, u64)>)>,
}

/// Information about the archive.
#[derive(Clone, Debug, Eq, PartialEq)]
pub struct ArchiveInfo {
    pub archive_canister: Option<candid::Principal>,
    pub archive_config: Option<ArchiveConfig>,
}

/// Configuration of a rate limit.
#[derive(Clone, Copy, Debug, Eq, PartialEq)]
pub struct RateLimitConfig {
    /// Time it takes for a token to be replenished.
    pub time_per_token_ns: u64,
    /// How many tokens are held at most.
    pub max_tokens: u64,
}

#[derive(Clone, Copy, Debug, Eq, PartialEq)]
pub struct CaptchaConfig {
    pub max_unsolved_captchas: u64,
    pub captcha_trigger: CaptchaTrigger,
}

#[derive(Clone, Debug, Eq, PartialEq)]
pub enum AnalyticsConfig {
    Plausible {
        domain: Option<String>,
        hash_mode: Option<bool>,
        track_localhost: Option<bool>,
        api_host: Option<String>,
    },
}

#[derive(Clone, Copy, Debug, Eq, PartialEq)]
pub enum CaptchaTrigger {
    Dynamic {
        threshold_pct: u16,
        current_rate_sampling_interval_s: u64,
        reference_rate_sampling_interval_s: u64,
    },
    Static(StaticCaptchaTrigger),
}

#[derive(Clone, Copy, Debug, Eq, PartialEq)]
pub enum StaticCaptchaTrigger {
    CaptchaEnabled,
    CaptchaDisabled,
}

/// Configuration of the archive to be used on the next deployment.
#[derive(Clone, Debug, Eq, PartialEq)]
pub struct ArchiveConfig {
    /// Hash of the module that may be deployed to the archive.
    pub module_hash: [u8; 32],
    /// How many entries may wait for the archive before new anchor
    /// operations are refused.
    pub entries_buffer_limit: u64,
    /// Interval at which the archive fetches the waiting entries.
    pub polling_interval_ns: u64,
    /// Most entries fetched in a single call.
    pub entries_fetch_limit: u16,
}

#[derive(Clone, Debug)]
pub enum DeployArchiveResult {
    Success(candid::Principal),
    CreationInProgress,
    Failed(String),
}

#[derive(Clone, Debug, Eq, PartialEq)]
pub struct OpenIdConfig {
    pub client_id: String,
}

pub enum AuthorizationKey {
    DeviceKey(DeviceKey),
    OpenIdCredentialKey(OpenIdCredentialKey),
}

#[derive(Clone, Debug, Eq, PartialEq)]
pub struct DeviceKeyWithAnchor {
    pub pubkey: DeviceKey,
    pub anchor_number: AnchorNumber,
}

#[derive(Clone, Debug, Eq, PartialEq)]
pub struct AccountInfo {
    /// `None` is the default account of the origin.
    pub account_number: Option<AccountNumber>,
    pub origin: FrontendHostname,
    pub last_used: Option<Timestamp>,
    pub name: Option<String>,
}

#[derive(Clone, Debug, Eq, PartialEq)]
pub struct AccountUpdate {
    pub name: Option<String>,
}

#[derive(Clone, Debug, Eq, PartialEq)]
pub enum CreateAccountError {
    InternalCanisterError(String),
    AccountLimitReached,
    Unauthorized(candid::Principal),
    NameTooLong,
}

#[derive(Clone, Debug, Eq, PartialEq)]
pub enum UpdateAccountError {
    InternalCanisterError(String),
    AccountLimitReached,
    Unauthorized(candid::Principal),
    NameTooLong,
}

#[derive(Clone, Debug, Eq, PartialEq)]
pub enum GetAccountsError {
    InternalCanisterError(String),
    Unauthorized(candid::Principal),
}

pub struct PrepareAccountDelegation {
    pub user_key: UserKey,
    pub expiration: Timestamp,
}

#[derive(Debug)]
pub enum AccountDelegationError {
    Unauthorized(candid::Principal),
    InternalCanisterError(String),
    NoSuchDelegation,
}

#[derive(Debug)]
pub enum CheckMaxAccountError {
    AccountLimitReached,
}

#[derive(Debug)]
pub enum AccountNameValidationError {
    NameTooLong,
}

#[derive(Clone, Debug, Eq, PartialEq)]
pub struct DummyAuthConfig {
    pub prompt_for_index: bool,
}

impl Clone for InternetIdentityStats {
    fn clone(&self) -> Self {
        InternetIdentityStats {
            assigned_user_number_range: (
                self.assigned_user_number_range.0,
                self.assigned_user_number_range.1,
            ),
            users_registered: self.users_registered,
            archive_info: self.archive_info.clone(),
            canister_creation_cycles_cost: self.canister_creation_cycles_cost,
            storage_layout_version: self.storage_layout_version,
            event_aggregations: self.event_aggregations.clone(),
        }
    }
}

impl From<CheckMaxAccountError> for CreateAccountError {
    fn from(err: CheckMaxAccountError) -> (r: Self)
        ensures
            r == CreateAccountError::AccountLimitReached,
    {
        match err {
            CheckMaxAccountError::AccountLimitReached => CreateAccountError::AccountLimitReached,
        }
    }
}

impl vstd::std_specs::convert::FromSpecImpl<CheckMaxAccountError> for CreateAccountError {
    open spec fn obeys_from_spec() -> bool {
        true
    }

    open spec fn from_spec(err: CheckMaxAccountError) -> Self {
        CreateAccountError::AccountLimitReached
    }
}

impl From<AccountNameValidationError> for CreateAccountError {
    fn from(err: AccountNameValidationError) -> (r: Self)
        ensures
            r == CreateAccountError::NameTooLong,
    {
        match err {
            AccountNameValidationError::NameTooLong => CreateAccountError::NameTooLong,
        }
    }
}

impl vstd::std_specs::convert::FromSpecImpl<AccountNameValidationError> for CreateAccountError {
    open spec fn obeys_from_spec() -> bool {
        true
    }

    open spec fn from_spec(err: AccountNameValidationError) -> Self {
        CreateAccountError::NameTooLong
    }
}

impl From<CheckMaxAccountError> for UpdateAccountError {
    fn from(err: CheckMaxAccountError) -> (r: Self)
        ensures
            r == UpdateAccountError::AccountLimitReached,
    {
        match err {
            CheckMaxAccountError::AccountLimitReached => UpdateAccountError::AccountLimitReached,
        }
    }
}

impl vstd::std_specs::convert::FromSpecImpl<CheckMaxAccountError> for UpdateAccountError {
    open spec fn obeys_from_spec() -> bool {
        true
    }

    open spec fn from_spec(err: CheckMaxAccountError) -> Self {
        UpdateAccountError::AccountLimitReached
    }
}

impl From<AccountNameValidationError> for UpdateAccountError {
    fn from(err: AccountNameValidationError) -> (r: Self)
        ensures
            r == UpdateAccountError::NameTooLong,
    {
        match err {
            AccountNameValidationError::NameTooLong => UpdateAccountError::NameTooLong,
        }
    }
}

impl vstd::std_specs::convert::FromSpecImpl<AccountNameValidationError> for UpdateAccountError {
    open spec fn obeys_from_spec() -> bool {
        true
    }

    open spec fn from_spec(err: AccountNameValidationError) -> Self {
        UpdateAccountError::NameTooLong
    }
}

/// What a metadata entry holds, as a value.
pub enum MetadataValue {
    Text(Seq<char>),
    Bytes(Seq<u8>),
    Nested(Seq<(Seq<char>, MetadataValue)>),
}

/// What a metadata entry holds.
pub open spec fn entry_value(e: MetadataEntry) -> MetadataValue
    decreases e,
{
    match e {
        MetadataEntry::String(s) => MetadataValue::Text(s@),
        MetadataEntry::Bytes(b) => MetadataValue::Bytes(b@),
        MetadataEntry::NestedMap(m) => MetadataValue::Nested(map_value(m)),
    }
}

/// What a metadata map holds: its keys and what their entries hold, in order.
pub open spec fn map_value(m: MetadataMap) -> Seq<(Seq<char>, MetadataValue)>
    decreases m,
{
    Seq::new(
        m@.len(),
        |i: int|
            if 0 <= i < m@.len() {
                (m@[i].0@, entry_value(m@[i].1))
            } else {
                (Seq::empty(), MetadataValue::Text(Seq::empty()))
            },
    )
}

/// What a device is, as a value: the same for a device as it is handed in
/// and as it is bound to an anchor, where it also has a time of last use.
pub struct DeviceModel {
    pub pubkey: Seq<u8>,
    pub alias: Seq<char>,
    pub credential_id: Option<Seq<u8>>,
    pub purpose: Purpose,
    pub key_type: KeyType,
    pub protection: DeviceProtection,
    pub origin: Option<Seq<char>>,
    pub last_usage: Option<Timestamp>,
    pub metadata: Option<Seq<(Seq<char>, MetadataValue)>>,
}

/// What an optional byte string holds.
pub open spec fn bytes_value(b: Option<Vec<u8>>) -> Option<Seq<u8>> {
    match b {
        Some(v) => Some(v@),
        None => None,
    }
}

/// What an optional string holds.
pub open spec fn text_value(t: Option<String>) -> Option<Seq<char>> {
    match t {
        Some(v) => Some(v@),
        None => None,
    }
}

/// What an optional metadata map holds.
pub open spec fn metadata_value(m: Option<MetadataMap>) -> Option<Seq<(Seq<char>, MetadataValue)>> {
    match m {
        Some(v) => Some(map_value(v)),
        None => None,
    }
}

impl View for DeviceData {
    type V = DeviceModel;

    open spec fn view(&self) -> DeviceModel {
        DeviceModel {
            pubkey: self.pubkey@,
            alias: self.alias@,
            credential_id: bytes_value(self.credential_id),
            purpose: self.purpose,
            key_type: self.key_type,
            protection: self.protection,
            origin: text_value(self.origin),
            last_usage: None,
            metadata: metadata_value(self.metadata),
        }
    }
}

impl View for DeviceWithUsage {
    type V = DeviceModel;

    open spec fn view(&self) -> DeviceModel {
        DeviceModel {
            pubkey: self.pubkey@,
            alias: self.alias@,
            credential_id: bytes_value(self.credential_id),
            purpose: self.purpose,
            key_type: self.key_type,
            protection: self.protection,
            origin: text_value(self.origin),
            last_usage: self.last_usage,
            metadata: metadata_value(self.metadata),
        }
    }
}

/// A copy of a byte string.
pub fn clone_bytes(b: &Vec<u8>) -> (r: Vec<u8>)
    ensures
        r@ == b@,
{
    let mut out: Vec<u8> = Vec::new();
    let mut i: usize = 0;
    while i < b.len()
        invariant
            i <= b@.len(),
            out@ == b@.take(i as int),
        decreases b@.len() - i,
    {
        out.push(b[i]);
        assert(out@ =~= b@.take(i + 1));
        i += 1;
    }
    assert(b@.take(i as int) =~= b@);
    out
}

/// A copy of a metadata entry, level by level.
pub fn clone_entry(e: &MetadataEntry) -> (r: MetadataEntry)
    ensures
        entry_value(r) == entry_value(*e),
    decreases e,
{
    match e {
        MetadataEntry::String(s) => MetadataEntry::String(s.clone()),
        MetadataEntry::Bytes(b) => MetadataEntry::Bytes(clone_bytes(b)),
        MetadataEntry::NestedMap(inner) => MetadataEntry::NestedMap(clone_metadata(inner)),
    }
}

/// A copy of a metadata map, entry by entry and level by level.
pub fn clone_metadata(m: &MetadataMap) -> (r: MetadataMap)
    ensures
        map_value(r) == map_value(*m),
    decreases m,
{
    let mut out: MetadataMap = Vec::new();
    let mut i: usize = 0;
    while i < m.len()
        invariant
            i <= m@.len(),
            out@.len() == i,
            forall|j: int|
                0 <= j < i ==> (#[trigger] out@[j]).0@ == m@[j].0@ && entry_value(out@[j].1)
                    == entry_value(m@[j].1),
        decreases m@.len() - i,
    {
        let value = clone_entry(&m[i].1);
        out.push((m[i].0.clone(), value));
        i += 1;
    }
    assert(map_value(out) =~= map_value(*m));
    out
}

impl Clone for MetadataEntry {
    fn clone(&self) -> (r: Self)
        ensures
            entry_value(r) == entry_value(*self),
    {
        clone_entry(self)
    }
}

/// A copy of an optional byte string.
pub fn clone_optional_bytes(b: &Option<Vec<u8>>) -> (r: Option<Vec<u8>>)
    ensures
        bytes_value(r) == bytes_value(*b),
{
    match b {
        Some(v) => Some(clone_bytes(v)),
        None => None,
    }
}

/// A copy of an optional string.
pub fn clone_optional_text(t: &Option<String>) -> (r: Option<String>)
    ensures
        r == *t,
{
    match t {
        Some(v) => Some(v.clone()),
        None => None,
    }
}

/// A copy of an optional metadata map.
pub fn clone_optional_metadata(m: &Option<MetadataMap>) -> (r: Option<MetadataMap>)
    ensures
        metadata_value(r) == metadata_value(*m),
{
    match m {
        Some(v) => Some(clone_metadata(v)),
        None => None,
    }
}

impl Clone for DeviceData {
    fn clone(&self) -> (r: Self)
        ensures
            r@ == self@,
    {
        DeviceData {
            pubkey: clone_bytes(&self.pubkey),
            alias: self.alias.clone(),
            credential_id: clone_optional_bytes(&self.credential_id),
            purpose: self.purpose,
            key_type: self.key_type,
            protection: self.protection,
            origin: clone_optional_text(&self.origin),
            metadata: clone_optional_metadata(&self.metadata),
        }
    }
}

impl Clone for DeviceWithUsage {
    fn clone(&self) -> (r: Self)
        ensures
            r@ == self@,
    {
        DeviceWithUsage {
            pubkey: clone_bytes(&self.pubkey),
            alias: self.alias.clone(),
            credential_id: clone_optional_bytes(&self.credential_id),
            purpose: self.purpose,
            key_type: self.key_type,
            protection: self.protection,
            origin: clone_optional_text(&self.origin),
            last_usage: self.last_usage,
            metadata: clone_optional_metadata(&self.metadata),
        }
    }
}

impl Default for AnchorCredentials {
    fn default() -> (r: Self)
        ensures
            r.credentials@.len() == 0,
            r.recovery_credentials@.len() == 0,
            r.recovery_phrases@.len() == 0,
    {
        AnchorCredentials {
            credentials: Vec::new(),
            recovery_credentials: Vec::new(),
            recovery_phrases: Vec::new(),
        }
    }
}

impl Default for OpenIdConfig {
    fn default() -> (r: Self)
        ensures
            r.client_id@.len() == 0,
    {
        OpenIdConfig { client_id: String::new() }
    }
}

impl Default for DummyAuthConfig {
    fn default() -> (r: Self)
        ensures
            r == (DummyAuthConfig { prompt_for_index: false }),
    {
        DummyAuthConfig { prompt_for_index: false }
    }
}

impl Default for InternetIdentityInit {
    fn default() -> (r: Self)
        ensures
            r == (InternetIdentityInit {
                assigned_user_number_range: None,
                archive_config: None,
                canister_creation_cycles_cost: None,
                register_rate_limit: None,
                captcha_config: None,
                related_origins: None,
                new_flow_origins: None,
                openid_google: None,
                analytics_config: None,
                fetch_root_key: None,
                enable_dapps_explorer: None,
                is_production: None,
                dummy_auth: None,
                feature_flag_continue_from_another_device: None,
            }),
    {
        InternetIdentityInit {
            assigned_user_number_range: None,
            archive_config: None,
            canister_creation_cycles_cost: None,
            register_rate_limit: None,
            captcha_config: None,
            related_origins: None,
            new_flow_origins: None,
            openid_google: None,
            analytics_config: None,
            fetch_root_key: None,
            enable_dapps_explorer: None,
            is_production: None,
            dummy_auth: None,
            feature_flag_continue_from_another_device: None,
        }
    }
}

} // verus!
