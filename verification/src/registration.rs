//! The flow by which a new device joins an anchor: a window is opened, a
//! device is submitted, and a confirmation code admits it.

use crate::devices::bytes_eq;
use crate::types::{DeviceConfirmationCode, DeviceData, DeviceKey, Timestamp};
use vstd::prelude::*;

verus! {

/// How many attempts at the confirmation code a submitted device has.
pub const MAX_VERIFICATION_RETRIES: u8 = 3;

/// Where the flow stands. An anchor holds one such value, so at most one
/// device waits on it at a time.
#[derive(Debug)]
pub enum RegistrationState {
    /// No window is open.
    Closed,
    /// A window is open and no device was submitted yet.
    Open { expiration: Timestamp, code: DeviceConfirmationCode },
    /// A device was submitted and waits for the code.
    PendingVerification {
        expiration: Timestamp,
        code: DeviceConfirmationCode,
        device: DeviceData,
        retries_left: u8,
    },
}

impl RegistrationState {
    /// A waiting device has between one and the full number of attempts left.
    pub open spec fn wf(self) -> bool {
        match self {
            RegistrationState::PendingVerification { retries_left, .. } => 1 <= retries_left
                <= MAX_VERIFICATION_RETRIES,
            _ => true,
        }
    }

    /// The window is open at `now`: it was opened and has not run out.
    pub open spec fn live(self, now: Timestamp) -> bool {
        match self {
            RegistrationState::Closed => false,
            RegistrationState::Open { expiration, .. } => now < expiration,
            RegistrationState::PendingVerification { expiration, .. } => now < expiration,
        }
    }

    /// The state as it counts at `now`: a window that has run out is closed.
    pub open spec fn effective(self, now: Timestamp) -> RegistrationState {
        if self.live(now) {
            self
        } else {
            RegistrationState::Closed
        }
    }

    /// The key of the device that waits, if one does.
    pub open spec fn pending_key(self) -> Option<Seq<u8>> {
        match self {
            RegistrationState::PendingVerification { device, .. } => Some(device.pubkey@),
            _ => None,
        }
    }

    /// Whether the window is open at `now`.
    pub fn is_live(&self, now: Timestamp) -> (r: bool)
        ensures
            r == self.live(now),
    {
        match self {
            RegistrationState::Closed => false,
            RegistrationState::Open { expiration, .. } => now < *expiration,
            RegistrationState::PendingVerification { expiration, .. } => now < *expiration,
        }
    }

    /// Closes a window that has run out at `now`.
    pub fn prune(&mut self, now: Timestamp)
        ensures
            *final(self) == old(self).effective(now),
    {
        if !self.is_live(now) {
            *self = RegistrationState::Closed;
        }
    }

    /// Whether a device with the key `key` waits in a window open at `now`.
    pub fn pending_key_is(&self, key: &DeviceKey, now: Timestamp) -> (r: bool)
        ensures
            r == (self.effective(now).pending_key() == Some(key@)),
    {
        match self {
            RegistrationState::PendingVerification { expiration, device, .. } => now < *expiration
                && bytes_eq(&device.pubkey, key),
            _ => false,
        }
    }
}

} // verus!
