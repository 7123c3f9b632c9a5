//! The devices bound to an anchor: who may add, change and remove them.

use crate::search::{first_index, lemma_first_index};
use crate::types::{
    DeviceData, DeviceKey, DeviceProtection, DeviceWithUsage, MetadataEntry, MetadataMap,
    Timestamp,
};
use vstd::prelude::*;

verus! {

/// Why a change to the devices of an anchor was refused.
#[derive(Clone, Copy, Debug, PartialEq, Eq)]
pub enum DeviceError {
    /// The caller is not a device of the anchor, or the device is protected
    /// and the caller is another device.
    Unauthorized,
    /// The anchor already holds a device with this public key.
    DuplicateKey,
    /// The metadata uses the name of a first-class field as a key.
    ReservedMetadataKey,
    /// The anchor holds as many devices as it may.
    AnchorFull,
    /// The anchor holds no device with this public key.
    DeviceNotFound,
    /// The device is the only credential left on the anchor.
    LastCredential,
}

/// What `update_device` writes into a device.
#[derive(Debug)]
pub struct DeviceUpdate {
    pub alias: String,
    pub protection: DeviceProtection,
    pub metadata: Option<MetadataMap>,
}

/// Some device in `devs` has the public key `key`.
pub open spec fn has_key(devs: Seq<DeviceWithUsage>, key: Seq<u8>) -> bool {
    exists|i: int| 0 <= i < devs.len() && (#[trigger] devs[i]).pubkey@ == key
}

/// No two devices in `devs` share a public key.
pub open spec fn unique_keys(devs: Seq<DeviceWithUsage>) -> bool {
    forall|i: int, j: int|
        0 <= i < devs.len() && 0 <= j < devs.len() && i != j ==> (#[trigger] devs[i]).pubkey@ != (
        #[trigger] devs[j]).pubkey@
}

/// The device has the public key `key`.
pub open spec fn with_key(key: Seq<u8>) -> spec_fn(DeviceWithUsage) -> bool {
    |d: DeviceWithUsage| d.pubkey@ == key
}

/// The position of the first device in `devs` with the public key `key`,
/// or the length of `devs` if there is none.
pub open spec fn key_index(devs: Seq<DeviceWithUsage>, key: Seq<u8>) -> int {
    first_index(devs, with_key(key))
}

/// `key_index` is a position in `devs` of a device with the key exactly
/// when there is one, and the length of `devs` otherwise.
pub proof fn lemma_key_index(devs: Seq<DeviceWithUsage>, key: Seq<u8>)
    ensures
        0 <= key_index(devs, key) <= devs.len(),
        has_key(devs, key) <==> key_index(devs, key) < devs.len(),
        key_index(devs, key) < devs.len() ==> devs[key_index(devs, key)].pubkey@ == key,
        forall|j: int| 0 <= j < key_index(devs, key) ==> (#[trigger] devs[j]).pubkey@ != key,
{
    lemma_first_index(devs, with_key(key));
    if has_key(devs, key) {
        let i = choose|i: int| 0 <= i < devs.len() && (#[trigger] devs[i]).pubkey@ == key;
        assert(with_key(key)(devs[i]));
    }
    assert forall|j: int| 0 <= j < key_index(devs, key) implies (#[trigger] devs[j]).pubkey@
        != key by {
        assert(!with_key(key)(devs[j]));
    }
}

/// The device `d` after it was used to authenticate a call at `now`.
pub open spec fn touched(d: DeviceWithUsage, now: Timestamp) -> DeviceWithUsage {
    DeviceWithUsage { last_usage: Some(now), ..d }
}

/// The devices `devs` after the one at position `i` authenticated a call at `now`.
pub open spec fn touched_at(devs: Seq<DeviceWithUsage>, i: int, now: Timestamp) -> Seq<
    DeviceWithUsage,
> {
    devs.update(i, touched(devs[i], now))
}

/// The device that a payload becomes once it is bound to an anchor: the
/// payload as it was given, not yet used.
pub open spec fn spec_with_usage(d: DeviceData) -> DeviceWithUsage {
    DeviceWithUsage {
        pubkey: d.pubkey,
        alias: d.alias,
        credential_id: d.credential_id,
        purpose: d.purpose,
        key_type: d.key_type,
        protection: d.protection,
        origin: d.origin,
        last_usage: None,
        metadata: d.metadata,
    }
}

/// The device `d` after `update` was written into it.
pub open spec fn spec_updated(d: DeviceWithUsage, update: DeviceUpdate) -> DeviceWithUsage {
    DeviceWithUsage {
        alias: update.alias,
        protection: update.protection,
        metadata: update.metadata,
        ..d
    }
}

/// `key` is the name of a first-class field of a device.
pub open spec fn is_reserved_key(key: Seq<char>) -> bool {
    key == "pubkey"@ || key == "alias"@ || key == "credential_id"@ || key == "purpose"@ || key
        == "key_type"@ || key == "protection"@ || key == "origin"@ || key == "last_usage"@ || key
        == "metadata"@
}

/// Some key of the metadata map is reserved.
pub open spec fn has_reserved_key(metadata: Option<MetadataMap>) -> bool {
    match metadata {
        None => false,
        Some(m) => map_has_reserved_key(m@),
    }
}

/// Whether two byte strings are equal.
pub fn bytes_eq(a: &Vec<u8>, b: &Vec<u8>) -> (r: bool)
    ensures
        r == (a@ == b@),
{
    if a.len() != b.len() {
        return false;
    }
    let mut i: usize = 0;
    while i < a.len()
        invariant
            a@.len() == b@.len(),
            i <= a@.len(),
            forall|j: int| 0 <= j < i ==> a@[j] == b@[j],
        decreases a@.len() - i,
    {
        if a[i] != b[i] {
            return false;
        }
        i += 1;
    }
    assert(a@ =~= b@);
    true
}

/// Whether `key` is the name of a first-class field of a device.
pub fn reserved_key(key: &String) -> (r: bool)
    ensures
        r == is_reserved_key(key@),
{
    let k = key.as_str();
    str_eq(k, "pubkey") || str_eq(k, "alias") || str_eq(k, "credential_id") || str_eq(k, "purpose")
        || str_eq(k, "key_type") || str_eq(k, "protection") || str_eq(k, "origin") || str_eq(
        k,
        "last_usage",
    ) || str_eq(k, "metadata")
}

/// Whether two strings are equal.
pub fn str_eq(a: &str, b: &str) -> (r: bool)
    ensures
        r == (a@ == b@),
{
    let x = a.to_owned();
    let y = b.to_owned();
    x == y
}

/// Some key of the map is reserved.
pub open spec fn map_has_reserved_key(m: Seq<(String, MetadataEntry)>) -> bool {
    exists|i: int| 0 <= i < m.len() && is_reserved_key((#[trigger] m[i]).0@)
}

/// Whether some key of the map is reserved.
pub fn map_reserved_key(m: &MetadataMap) -> (r: bool)
    ensures
        r == map_has_reserved_key(m@),
{
    let mut i: usize = 0;
    while i < m.len()
        invariant
            i <= m@.len(),
            forall|j: int| 0 <= j < i ==> !is_reserved_key((#[trigger] m@[j]).0@),
        decreases m@.len() - i,
    {
        if reserved_key(&m[i].0) {
            assert(is_reserved_key(m@[i as int].0@));
            return true;
        }
        i += 1;
    }
    false
}

/// Whether some key of the metadata map is reserved.
pub fn metadata_has_reserved_key(metadata: &Option<MetadataMap>) -> (r: bool)
    ensures
        r == has_reserved_key(*metadata),
{
    match metadata {
        None => false,
        Some(m) => map_reserved_key(m),
    }
}

/// The position of the first device with the public key `key`, if any.
pub fn find_device(devs: &Vec<DeviceWithUsage>, key: &DeviceKey) -> (r: Option<usize>)
    ensures
        match r {
            Some(i) => has_key(devs@, key@) && i < devs@.len() && i == key_index(devs@, key@)
                && devs@[i as int].pubkey@ == key@,
            None => !has_key(devs@, key@),
        },
{
    let mut i: usize = 0;
    while i < devs.len()
        invariant
            i <= devs@.len(),
            forall|j: int| 0 <= j < i ==> (#[trigger] devs@[j]).pubkey@ != key@,
        decreases devs@.len() - i,
    {
        if bytes_eq(&devs[i].pubkey, key) {
            proof {
                lemma_key_index(devs@, key@);
            }
            return Some(i);
        }
        i += 1;
    }
    None
}

/// Binds a payload to an anchor, as a device that was not used yet.
pub fn with_usage(d: DeviceData) -> (r: DeviceWithUsage)
    ensures
        r == spec_with_usage(d),
        r@ == d@,
{
    DeviceWithUsage {
        pubkey: d.pubkey,
        alias: d.alias,
        credential_id: d.credential_id,
        purpose: d.purpose,
        key_type: d.key_type,
        protection: d.protection,
        origin: d.origin,
        last_usage: None,
        metadata: d.metadata,
    }
}

/// Records that the device at position `i` authenticated a call at `now`.
pub fn touch(devs: &mut Vec<DeviceWithUsage>, i: usize, now: Timestamp)
    requires
        i < old(devs)@.len(),
    ensures
        final(devs)@ == touched_at(old(devs)@, i as int, now),
{
    let mut d = devs.remove(i);
    d.last_usage = Some(now);
    devs.insert(i, d);
    assert(devs@ =~= touched_at(old(devs)@, i as int, now));
}

} // verus!
