//! Which device of an anchor a caller is: a caller is known by its
//! principal, and a device by the principal that its public key stands for.

use crate::anchor::Anchor;
use crate::devices::{bytes_eq, has_key};
use crate::search::{first_index, lemma_first_index};
use crate::types::{clone_bytes, AuthorizationKey, DeviceWithUsage, OpenIdCredentialData};
use vstd::prelude::*;

verus! {

/// The bytes of the self-authenticating principal of the public key `key`.
pub uninterp spec fn self_authenticating_bytes(key: Seq<u8>) -> Seq<u8>;

/// `candid::Principal::self_authenticating`, with the principal given as
/// the bytes of `Principal::as_slice`. The principal is a digest of the key
/// followed by a tag, so it depends on the key alone; nothing more is
/// claimed of it here.
#[verifier::external_body]
fn self_authenticating(key: &Vec<u8>) -> (r: Vec<u8>)
    ensures
        r@ == self_authenticating_bytes(key@),
{
    candid::Principal::self_authenticating(key).as_slice().to_vec()
}

/// The device authenticates as the principal with the bytes `principal`.
pub open spec fn authenticates_as(principal: Seq<u8>) -> spec_fn(DeviceWithUsage) -> bool {
    |d: DeviceWithUsage| self_authenticating_bytes(d.pubkey@) == principal
}

/// The item has the bytes `wanted`.
pub open spec fn has_bytes(wanted: Seq<u8>) -> spec_fn(Vec<u8>) -> bool {
    |item: Vec<u8>| item@ == wanted
}

/// The principals of the devices, in the order of the devices.
pub fn device_principals(devs: &Vec<DeviceWithUsage>) -> (r: Vec<Vec<u8>>)
    ensures
        r@.len() == devs@.len(),
        forall|i: int|
            0 <= i < devs@.len() ==> (#[trigger] r@[i])@ == self_authenticating_bytes(
                devs@[i].pubkey@,
            ),
{
    let mut out: Vec<Vec<u8>> = Vec::new();
    let mut i: usize = 0;
    while i < devs.len()
        invariant
            i <= devs@.len(),
            out@.len() == i,
            forall|j: int|
                0 <= j < i ==> (#[trigger] out@[j])@ == self_authenticating_bytes(devs@[j].pubkey@),
        decreases devs@.len() - i,
    {
        out.push(self_authenticating(&devs[i].pubkey));
        i += 1;
    }
    out
}

/// The position of the first item with the bytes of `wanted`, if any.
pub fn find_bytes(items: &Vec<Vec<u8>>, wanted: &Vec<u8>) -> (r: Option<usize>)
    ensures
        match r {
            Some(i) => i < items@.len() && i == first_index(items@, has_bytes(wanted@)),
            None => first_index(items@, has_bytes(wanted@)) == items@.len(),
        },
{
    let mut i: usize = 0;
    while i < items.len()
        invariant
            i <= items@.len(),
            forall|j: int| 0 <= j < i ==> !has_bytes(wanted@)(#[trigger] items@[j]),
        decreases items@.len() - i,
    {
        if bytes_eq(&items[i], wanted) {
            proof {
                lemma_first_index(items@, has_bytes(wanted@));
                assert(has_bytes(wanted@)(items@[i as int]));
            }
            return Some(i);
        }
        i += 1;
    }
    proof {
        lemma_first_index(items@, has_bytes(wanted@));
    }
    None
}

/// Looking for a device by its principal among the devices is looking for
/// the principal among the principals of the devices.
pub proof fn lemma_principal_positions(
    devs: Seq<DeviceWithUsage>,
    principals: Seq<Vec<u8>>,
    wanted: Seq<u8>,
)
    requires
        principals.len() == devs.len(),
        forall|i: int|
            0 <= i < devs.len() ==> (#[trigger] principals[i])@ == self_authenticating_bytes(
                devs[i].pubkey@,
            ),
    ensures
        first_index(devs, authenticates_as(wanted)) == first_index(principals, has_bytes(wanted)),
    decreases devs.len(),
{
    if devs.len() > 0 {
        assert(principals[0]@ == self_authenticating_bytes(devs[0].pubkey@));
        let d = devs.drop_first();
        let p = principals.drop_first();
        assert forall|i: int| 0 <= i < d.len() implies (#[trigger] p[i])@
            == self_authenticating_bytes(d[i].pubkey@) by {
            assert(p[i] == principals[i + 1]);
            assert(d[i] == devs[i + 1]);
        }
        lemma_principal_positions(d, p, wanted);
    }
}

/// Some credential in `credentials` has the issuer `iss` and the subject `sub`.
pub open spec fn has_credential(
    credentials: Seq<OpenIdCredentialData>,
    iss: Seq<char>,
    sub: Seq<char>,
) -> bool {
    exists|i: int|
        0 <= i < credentials.len() && (#[trigger] credentials[i]).iss@ == iss
            && credentials[i].sub@ == sub
}

/// Whether some credential has the issuer `iss` and the subject `sub`.
pub fn credential_known(credentials: &Vec<OpenIdCredentialData>, iss: &String, sub: &String) -> (r:
    bool)
    ensures
        r == has_credential(credentials@, iss@, sub@),
{
    let mut i: usize = 0;
    while i < credentials.len()
        invariant
            i <= credentials@.len(),
            forall|j: int|
                0 <= j < i ==> !((#[trigger] credentials@[j]).iss@ == iss@ && credentials@[j].sub@
                    == sub@),
        decreases credentials@.len() - i,
    {
        if credentials[i].iss == *iss && credentials[i].sub == *sub {
            assert(credentials@[i as int].iss@ == iss@);
            return true;
        }
        i += 1;
    }
    false
}

impl Anchor {
    /// The key is the public key of a device of the anchor, or the issuer
    /// and subject of one of its OpenID credentials.
    pub open spec fn authorizes(self, key: AuthorizationKey) -> bool {
        match key {
            AuthorizationKey::DeviceKey(k) => has_key(self.devices@, k@),
            AuthorizationKey::OpenIdCredentialKey(k) => has_credential(
                self.openid_credentials@,
                k.0@,
                k.1@,
            ),
        }
    }

    /// Whether a caller who authenticated with `key` acts for the anchor.
    pub fn is_authorized(&self, key: &AuthorizationKey) -> (r: bool)
        ensures
            r == self.authorizes(*key),
    {
        match key {
            AuthorizationKey::DeviceKey(k) => self.is_device(k),
            AuthorizationKey::OpenIdCredentialKey(k) => credential_known(
                &self.openid_credentials,
                &k.0,
                &k.1,
            ),
        }
    }

    /// The position of the device that a caller is, if it is one: the
    /// first device whose public key stands for the principal of the caller,
    /// given by its bytes.
    pub fn authenticate(&self, caller_principal: &Vec<u8>) -> (r: Option<usize>)
        ensures
            match r {
                Some(i) => i < self.devices@.len() && i == first_index(
                    self.devices@,
                    authenticates_as(caller_principal@),
                ),
                None => first_index(self.devices@, authenticates_as(caller_principal@))
                    == self.devices@.len(),
            },
    {
        let principals = device_principals(&self.devices);
        proof {
            lemma_principal_positions(self.devices@, principals@, caller_principal@);
        }
        find_bytes(&principals, caller_principal)
    }

    /// The key with which a caller authenticates, if the caller is a
    /// device of the anchor: the public key of the first device that stands
    /// for the principal of the caller. The anchor authorizes that key.
    pub fn authorization_of(&self, caller_principal: &Vec<u8>) -> (r: Option<AuthorizationKey>)
        ensures
            match r {
                Some(AuthorizationKey::DeviceKey(k)) => first_index(
                    self.devices@,
                    authenticates_as(caller_principal@),
                ) < self.devices@.len() && k@ == self.devices@[first_index(
                    self.devices@,
                    authenticates_as(caller_principal@),
                )].pubkey@ && self.authorizes(AuthorizationKey::DeviceKey(k)),
                Some(_) => false,
                None => first_index(self.devices@, authenticates_as(caller_principal@))
                    == self.devices@.len(),
            },
    {
        match self.authenticate(caller_principal) {
            Some(i) => {
                let k = clone_bytes(&self.devices[i].pubkey);
                assert(self.devices@[i as int].pubkey@ == k@);
                Some(AuthorizationKey::DeviceKey(k))
            },
            None => None,
        }
    }
}

} // verus!
