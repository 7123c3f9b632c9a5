//! An anchor: its devices, and the changes that an authenticated device
//! may make to them.

use crate::devices::{
    bytes_eq, find_device, has_key, key_index, lemma_key_index, metadata_has_reserved_key,
    has_reserved_key, spec_updated, spec_with_usage, touch, touched_at, unique_keys, with_usage,
    DeviceError, DeviceUpdate,
};
use crate::registration::RegistrationState;
use crate::types::{
    AnchorNumber, DeviceData, DeviceKey, DeviceProtection, DeviceRegistrationInfo,
    DeviceWithUsage, IdentityAnchorInfo, OpenIdCredentialData, Timestamp,
};
use vstd::prelude::*;

verus! {

/// The identity of a user: a number, the devices that authenticate it, and
/// the one flow, if any, by which a further device is being added.
pub struct Anchor {
    pub anchor_number: AnchorNumber,
    pub devices: Vec<DeviceWithUsage>,
    pub registration: RegistrationState,
    pub openid_credentials: Vec<OpenIdCredentialData>,
    pub name: Option<String>,
}

/// Why `add_device` refuses, if it does. The checks come in this order:
/// the caller, the key, the metadata, the room left.
pub open spec fn spec_add_error(
    anchor: Anchor,
    caller: Seq<u8>,
    device: DeviceData,
    now: Timestamp,
    max_devices: usize,
) -> Option<DeviceError> {
    if !has_key(anchor.devices@, caller) {
        Some(DeviceError::Unauthorized)
    } else if has_key(anchor.devices@, device.pubkey@) || anchor.registration.effective(
        now,
    ).pending_key() == Some(device.pubkey@) {
        Some(DeviceError::DuplicateKey)
    } else if has_reserved_key(device.metadata) {
        Some(DeviceError::ReservedMetadataKey)
    } else if anchor.devices@.len() >= max_devices {
        Some(DeviceError::AnchorFull)
    } else {
        None
    }
}

/// Why `remove_device` refuses, if it does.
pub open spec fn spec_remove_error(anchor: Anchor, caller: Seq<u8>, key: Seq<u8>) -> Option<
    DeviceError,
> {
    let devs = anchor.devices@;
    if !has_key(devs, caller) {
        Some(DeviceError::Unauthorized)
    } else if !has_key(devs, key) {
        Some(DeviceError::DeviceNotFound)
    } else if devs[key_index(devs, key)].protection == DeviceProtection::Protected && caller
        != key {
        Some(DeviceError::Unauthorized)
    } else if devs.len() == 1 {
        Some(DeviceError::LastCredential)
    } else {
        None
    }
}

/// Why `update_device` refuses, if it does.
pub open spec fn spec_update_error(
    anchor: Anchor,
    caller: Seq<u8>,
    key: Seq<u8>,
    update: DeviceUpdate,
) -> Option<DeviceError> {
    let devs = anchor.devices@;
    if !has_key(devs, caller) {
        Some(DeviceError::Unauthorized)
    } else if !has_key(devs, key) {
        Some(DeviceError::DeviceNotFound)
    } else if devs[key_index(devs, key)].protection == DeviceProtection::Protected && caller
        != key {
        Some(DeviceError::Unauthorized)
    } else if has_reserved_key(update.metadata) {
        Some(DeviceError::ReservedMetadataKey)
    } else {
        None
    }
}

/// What a flow shows of itself at `now`: nothing where its window is
/// closed or has run out, else when it runs out and the device that waits.
pub open spec fn spec_registration_info(reg: RegistrationState, now: Timestamp) -> Option<
    DeviceRegistrationInfo,
> {
    match reg.effective(now) {
        RegistrationState::Closed => None,
        RegistrationState::Open { expiration, .. } => Some(
            DeviceRegistrationInfo { expiration, tentative_device: None },
        ),
        RegistrationState::PendingVerification { expiration, device, .. } => Some(
            DeviceRegistrationInfo { expiration, tentative_device: Some(device) },
        ),
    }
}

/// Recording a use changes no public key.
pub proof fn lemma_touched_keys(devs: Seq<DeviceWithUsage>, i: int, now: Timestamp)
    requires
        0 <= i < devs.len(),
    ensures
        touched_at(devs, i, now).len() == devs.len(),
        forall|j: int|
            0 <= j < devs.len() ==> (#[trigger] touched_at(devs, i, now)[j]).pubkey
                == devs[j].pubkey,
        forall|j: int|
            0 <= j < devs.len() ==> (#[trigger] touched_at(devs, i, now)[j]).protection
                == devs[j].protection,
        unique_keys(devs) ==> unique_keys(touched_at(devs, i, now)),
        forall|k: Seq<u8>| has_key(devs, k) <==> has_key(touched_at(devs, i, now), k),
{
    let t = touched_at(devs, i, now);
    assert forall|k: Seq<u8>| has_key(devs, k) <==> has_key(t, k) by {
        if has_key(devs, k) {
            let j = choose|j: int| 0 <= j < devs.len() && (#[trigger] devs[j]).pubkey@ == k;
            assert(t[j].pubkey@ == k);
        }
        if has_key(t, k) {
            let j = choose|j: int| 0 <= j < t.len() && (#[trigger] t[j]).pubkey@ == k;
            assert(devs[j].pubkey@ == k);
        }
    }
    if unique_keys(devs) {
        assert forall|a: int, b: int| 0 <= a < t.len() && 0 <= b < t.len() && a != b implies (
        #[trigger] t[a]).pubkey@ != (#[trigger] t[b]).pubkey@ by {
            assert(devs[a].pubkey@ != devs[b].pubkey@);
        }
    }
}

/// A protected device is removed by itself and by no other device of the
/// anchor: a call by another device is refused as unauthorized, and a call by
/// the device itself is accepted wherever it is not the last credential.
pub proof fn lemma_protected_removal(anchor: Anchor, caller: Seq<u8>, key: Seq<u8>)
    requires
        anchor.wf(),
        has_key(anchor.devices@, caller),
        has_key(anchor.devices@, key),
        anchor.devices@[key_index(anchor.devices@, key)].protection == DeviceProtection::Protected,
    ensures
        caller != key ==> spec_remove_error(anchor, caller, key) == Some(DeviceError::Unauthorized),
        caller == key && anchor.devices@.len() > 1 ==> spec_remove_error(anchor, caller, key)
            == None::<DeviceError>,
{
}

impl Anchor {
    /// The devices have distinct keys, the flow that adds a device is in
    /// order, and the device that waits in it is not yet on the anchor.
    pub open spec fn wf(self) -> bool {
        &&& unique_keys(self.devices@)
        &&& self.registration.wf()
        &&& match self.registration.pending_key() {
            Some(k) => !has_key(self.devices@, k),
            None => true,
        }
    }

    /// A new anchor with its first device.
    pub fn new(anchor_number: AnchorNumber, device: DeviceData) -> (r: Result<Anchor, DeviceError>)
        ensures
            match r {
                Ok(a) => !has_reserved_key(device.metadata) && a.wf() && a.anchor_number
                    == anchor_number && a.devices@ == seq![spec_with_usage(device)]
                    && a.registration == RegistrationState::Closed && a.name == None::<String>
                    && a.openid_credentials@.len() == 0,
                Err(e) => has_reserved_key(device.metadata) && e
                    == DeviceError::ReservedMetadataKey,
            },
    {
        if metadata_has_reserved_key(&device.metadata) {
            return Err(DeviceError::ReservedMetadataKey);
        }
        let mut devices: Vec<DeviceWithUsage> = Vec::new();
        devices.push(with_usage(device));
        assert(devices@ =~= seq![spec_with_usage(device)]);
        Ok(
            Anchor {
                anchor_number,
                devices,
                registration: RegistrationState::Closed,
                openid_credentials: Vec::new(),
                name: None,
            },
        )
    }

    /// The devices of the anchor, in the order in which they were added.
    pub fn list_devices(&self) -> (r: &Vec<DeviceWithUsage>)
        ensures
            r@ == self.devices@,
    {
        &self.devices
    }

    /// What the anchor shows of itself at `now`: its devices, its name,
    /// and the flow that adds a device, if its window is open at `now`.
    pub fn into_info(self, now: Timestamp) -> (r: IdentityAnchorInfo)
        ensures
            r.devices == self.devices,
            r.name == self.name,
            r.openid_credentials == Some(self.openid_credentials),
            r.device_registration == spec_registration_info(self.registration, now),
    {
        let device_registration = match self.registration {
            RegistrationState::Closed => None,
            RegistrationState::Open { expiration, .. } => if now < expiration {
                Some(DeviceRegistrationInfo { expiration, tentative_device: None })
            } else {
                None
            },
            RegistrationState::PendingVerification { expiration, device, .. } => if now
                < expiration {
                Some(DeviceRegistrationInfo { expiration, tentative_device: Some(device) })
            } else {
                None
            },
        };
        IdentityAnchorInfo {
            devices: self.devices,
            device_registration,
            openid_credentials: Some(self.openid_credentials),
            name: self.name,
        }
    }

    /// Whether `key` is the key of a device of the anchor.
    pub fn is_device(&self, key: &DeviceKey) -> (r: bool)
        ensures
            r == has_key(self.devices@, key@),
    {
        find_device(&self.devices, key).is_some()
    }

    /// Adds `device` on behalf of the device `caller`.
    ///
    /// A refused call changes nothing. An accepted one records the use of
    /// `caller`, appends the new device as not yet used, and drops a flow
    /// that has run out.
    pub fn add_device(
        &mut self,
        caller: &DeviceKey,
        device: DeviceData,
        now: Timestamp,
        max_devices: usize,
    ) -> (r: Result<(), DeviceError>)
        requires
            old(self).wf(),
        ensures
            final(self).wf(),
            match r {
                Err(e) => *final(self) == *old(self) && spec_add_error(
                    *old(self),
                    caller@,
                    device,
                    now,
                    max_devices,
                ) == Some(e),
                Ok(_) => spec_add_error(*old(self), caller@, device, now, max_devices).is_none()
                    && final(self).devices@ == touched_at(
                    old(self).devices@,
                    key_index(old(self).devices@, caller@),
                    now,
                ).push(spec_with_usage(device))
                    && final(self).registration == old(self).registration.effective(now)
                    && final(self).anchor_number == old(self).anchor_number
                    && final(self).name == old(self).name
                    && final(self).openid_credentials
                    == old(self).openid_credentials,
            },
    {
        let ci = match find_device(&self.devices, caller) {
            None => { return Err(DeviceError::Unauthorized); },
            Some(i) => i,
        };
        if find_device(&self.devices, &device.pubkey).is_some() {
            return Err(DeviceError::DuplicateKey);
        }
        if self.registration.pending_key_is(&device.pubkey, now) {
            return Err(DeviceError::DuplicateKey);
        }
        if metadata_has_reserved_key(&device.metadata) {
            return Err(DeviceError::ReservedMetadataKey);
        }
        if self.devices.len() >= max_devices {
            return Err(DeviceError::AnchorFull);
        }
        proof {
            lemma_key_index(self.devices@, caller@);
            lemma_touched_keys(self.devices@, ci as int, now);
        }
        self.registration.prune(now);
        touch(&mut self.devices, ci, now);
        let ghost mid = self.devices@;
        self.devices.push(with_usage(device));
        proof {
            let fin = self.devices@;
            assert forall|a: int, b: int|
                0 <= a < fin.len()
                    && 0 <= b < fin.len()
                    && a != b implies (#[trigger] fin[a]).pubkey@
                != (#[trigger] fin[b]).pubkey@ by {
                if a < mid.len() && b < mid.len() {
                    assert(mid[a].pubkey@ != mid[b].pubkey@);
                } else if a < mid.len() {
                    assert(mid[a].pubkey@ != device.pubkey@);
                } else {
                    assert(mid[b].pubkey@ != device.pubkey@);
                }
            }
            match self.registration.pending_key() {
                Some(k) => {
                    if has_key(fin, k) {
                        let j = choose|j: int| 0 <= j < fin.len()
                            && (#[trigger] fin[j]).pubkey@ == k;
                        if j < mid.len() {
                            assert(mid[j].pubkey@ == k);
                        }
                    }
                },
                None => {},
            }
        }
        Ok(())
    }

    /// Removes the device with the key `key` on behalf of the device `caller`.
    ///
    /// A protected device is removed only by itself, and the last credential
    /// of an anchor stays. A refused call changes nothing. An accepted one
    /// records the use of `caller` and then takes the device out.
    pub fn remove_device(&mut self, caller: &DeviceKey, key: &DeviceKey, now: Timestamp) -> (r:
        Result<(), DeviceError>)
        requires
            old(self).wf(),
        ensures
            final(self).wf(),
            match r {
                Err(e) => *final(self) == *old(self) && spec_remove_error(
                    *old(self),
                    caller@,
                    key@,
                ) == Some(e),
                Ok(_) => spec_remove_error(*old(self), caller@, key@).is_none()
                    && final(self).devices@ == touched_at(
                    old(self).devices@,
                    key_index(old(self).devices@, caller@),
                    now,
                ).remove(key_index(old(self).devices@, key@))
                    && final(self).registration == old(self).registration
                    && final(self).anchor_number == old(self).anchor_number
                    && final(self).name == old(self).name
                    && final(self).openid_credentials
                    == old(self).openid_credentials,
            },
    {
        let ci = match find_device(&self.devices, caller) {
            None => { return Err(DeviceError::Unauthorized); },
            Some(i) => i,
        };
        let ti = match find_device(&self.devices, key) {
            None => { return Err(DeviceError::DeviceNotFound); },
            Some(i) => i,
        };
        let protected = match self.devices[ti].protection {
            DeviceProtection::Protected => true,
            DeviceProtection::Unprotected => false,
        };
        if protected && !bytes_eq(caller, key) {
            return Err(DeviceError::Unauthorized);
        }
        if self.devices.len() == 1 {
            return Err(DeviceError::LastCredential);
        }
        proof {
            lemma_key_index(self.devices@, caller@);
            lemma_key_index(self.devices@, key@);
            lemma_touched_keys(self.devices@, ci as int, now);
        }
        touch(&mut self.devices, ci, now);
        let ghost mid = self.devices@;
        self.devices.remove(ti);
        proof {
            let fin = self.devices@;
            assert forall|a: int| 0 <= a < fin.len() implies #[trigger] fin[a] == mid[if a
                < ti { a } else { a + 1 }] by {}
            assert forall|a: int, b: int|
                0 <= a < fin.len()
                    && 0 <= b < fin.len()
                    && a != b implies (#[trigger] fin[a]).pubkey@
                != (#[trigger] fin[b]).pubkey@ by {
                let a2 = if a < ti { a } else { a + 1 };
                let b2 = if b < ti { b } else { b + 1 };
                assert(mid[a2].pubkey@ != mid[b2].pubkey@);
            }
            match self.registration.pending_key() {
                Some(k) => {
                    if has_key(fin, k) {
                        let j = choose|j: int| 0 <= j < fin.len()
                            && (#[trigger] fin[j]).pubkey@ == k;
                        let j2 = if j < ti { j } else { j + 1 };
                        assert(mid[j2].pubkey@ == k);
                    }
                },
                None => {},
            }
        }
        Ok(())
    }

    /// Writes `update` into the device with the key `key` on behalf of the
    /// device `caller`.
    ///
    /// A protected device is changed only by itself. A refused call changes
    /// nothing. An accepted one records the use of `caller`, not of the
    /// device that it changes.
    pub fn update_device(
        &mut self,
        caller: &DeviceKey,
        key: &DeviceKey,
        update: DeviceUpdate,
        now: Timestamp,
    ) -> (r: Result<(), DeviceError>)
        requires
            old(self).wf(),
        ensures
            final(self).wf(),
            match r {
                Err(e) => *final(self) == *old(self) && spec_update_error(
                    *old(self),
                    caller@,
                    key@,
                    update,
                ) == Some(e),
                Ok(_) => spec_update_error(*old(self), caller@, key@, update).is_none()
                    && final(self).devices@ == touched_at(
                    old(self).devices@,
                    key_index(old(self).devices@, caller@),
                    now,
                ).update(
                    key_index(old(self).devices@, key@),
                    spec_updated(
                        touched_at(
                            old(self).devices@,
                            key_index(old(self).devices@, caller@),
                            now,
                        )[key_index(old(self).devices@, key@)],
                        update,
                    ),
                )
                    && final(self).registration == old(self).registration
                    && final(self).anchor_number == old(self).anchor_number
                    && final(self).name == old(self).name
                    && final(self).openid_credentials
                    == old(self).openid_credentials,
            },
    {
        let ci = match find_device(&self.devices, caller) {
            None => { return Err(DeviceError::Unauthorized); },
            Some(i) => i,
        };
        let ti = match find_device(&self.devices, key) {
            None => { return Err(DeviceError::DeviceNotFound); },
            Some(i) => i,
        };
        let protected = match self.devices[ti].protection {
            DeviceProtection::Protected => true,
            DeviceProtection::Unprotected => false,
        };
        if protected && !bytes_eq(caller, key) {
            return Err(DeviceError::Unauthorized);
        }
        if metadata_has_reserved_key(&update.metadata) {
            return Err(DeviceError::ReservedMetadataKey);
        }
        proof {
            lemma_key_index(self.devices@, caller@);
            lemma_key_index(self.devices@, key@);
            lemma_touched_keys(self.devices@, ci as int, now);
        }
        touch(&mut self.devices, ci, now);
        let ghost mid = self.devices@;
        let mut d = self.devices.remove(ti);
        d.alias = update.alias;
        d.protection = update.protection;
        d.metadata = update.metadata;
        self.devices.insert(ti, d);
        proof {
            let fin = self.devices@;
            assert(fin =~= mid.update(ti as int, spec_updated(mid[ti as int], update)));
            assert forall|a: int, b: int|
                0 <= a < fin.len()
                    && 0 <= b < fin.len()
                    && a != b implies (#[trigger] fin[a]).pubkey@
                != (#[trigger] fin[b]).pubkey@ by {
                assert(mid[a].pubkey@ != mid[b].pubkey@);
            }
            match self.registration.pending_key() {
                Some(k) => {
                    if has_key(fin, k) {
                        let j = choose|j: int| 0 <= j < fin.len()
                            && (#[trigger] fin[j]).pubkey@ == k;
                        assert(mid[j].pubkey@ == k);
                    }
                },
                None => {},
            }
        }
        Ok(())
    }
}

} // verus!
