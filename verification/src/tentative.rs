//! The steps of the flow that adds a device to an anchor, and what holds of
//! them.

use crate::anchor::Anchor;
use crate::devices::{
    find_device, has_key, has_reserved_key, metadata_has_reserved_key, spec_with_usage,
    with_usage, DeviceError,
};
use crate::registration::{RegistrationState, MAX_VERIFICATION_RETRIES};
use crate::types::{
    AddTentativeDeviceResponse, DeviceConfirmationCode, DeviceData, DeviceKey, DeviceWithUsage,
    Timestamp, VerifyTentativeDeviceResponse,
};
use vstd::prelude::*;

verus! {

/// Why a window was not opened or closed.
#[derive(Clone, Copy, Debug, PartialEq, Eq)]
pub enum RegistrationError {
    /// The caller is not a device of the anchor.
    Unauthorized,
    /// A window is open and has not run out.
    AlreadyInProgress,
}

/// What `open_registration` does: the new state, or why there is none.
pub open spec fn spec_open(
    anchor: Anchor,
    caller: Seq<u8>,
    code: DeviceConfirmationCode,
    now: Timestamp,
    timeout: u64,
) -> Result<RegistrationState, RegistrationError> {
    if !has_key(anchor.devices@, caller) {
        Err(RegistrationError::Unauthorized)
    } else if anchor.registration.live(now) {
        Err(RegistrationError::AlreadyInProgress)
    } else {
        Ok(RegistrationState::Open { expiration: (now + timeout) as u64, code })
    }
}

/// What `submit_tentative_device` does: the new state and the answer.
pub open spec fn spec_submit(anchor: Anchor, device: DeviceData, now: Timestamp) -> (
    RegistrationState,
    Result<AddTentativeDeviceResponse, DeviceError>,
) {
    match anchor.registration.effective(now) {
        RegistrationState::Closed => (
            RegistrationState::Closed,
            Ok(AddTentativeDeviceResponse::DeviceRegistrationModeOff),
        ),
        RegistrationState::PendingVerification { .. } => (
            anchor.registration,
            Ok(AddTentativeDeviceResponse::AnotherDeviceTentativelyAdded),
        ),
        RegistrationState::Open { expiration, code } => if has_key(
            anchor.devices@,
            device.pubkey@,
        ) {
            (anchor.registration, Err(DeviceError::DuplicateKey))
        } else if has_reserved_key(device.metadata) {
            (anchor.registration, Err(DeviceError::ReservedMetadataKey))
        } else {
            (
                RegistrationState::PendingVerification {
                    expiration,
                    code,
                    device,
                    retries_left: MAX_VERIFICATION_RETRIES,
                },
                Ok(
                    AddTentativeDeviceResponse::AddedTentatively {
                        verification_code: code,
                        device_registration_timeout: expiration,
                    },
                ),
            )
        },
    }
}

/// What `verify_tentative_device` does to the flow: the new state and the
/// answer. Whether the window has run out is settled first.
pub open spec fn spec_verify(reg: RegistrationState, code: Seq<char>, now: Timestamp) -> (
    RegistrationState,
    VerifyTentativeDeviceResponse,
) {
    match reg.effective(now) {
        RegistrationState::Closed => (
            RegistrationState::Closed,
            VerifyTentativeDeviceResponse::DeviceRegistrationModeOff,
        ),
        RegistrationState::Open { .. } => (reg, VerifyTentativeDeviceResponse::NoDeviceToVerify),
        RegistrationState::PendingVerification { expiration, code: c, device, retries_left } => if c@
            == code {
            (RegistrationState::Closed, VerifyTentativeDeviceResponse::Verified)
        } else if retries_left > 1 {
            (
                RegistrationState::PendingVerification {
                    expiration,
                    code: c,
                    device,
                    retries_left: (retries_left - 1) as u8,
                },
                VerifyTentativeDeviceResponse::WrongCode { retries_left: (retries_left - 1) as u8 },
            )
        } else {
            (
                RegistrationState::Closed,
                VerifyTentativeDeviceResponse::WrongCode { retries_left: 0 },
            )
        },
    }
}

/// What `verify_tentative_device` does to the devices: the device that
/// waits joins them when the code matches in time, and nothing else changes.
pub open spec fn spec_verify_devices(
    devs: Seq<DeviceWithUsage>,
    reg: RegistrationState,
    code: Seq<char>,
    now: Timestamp,
) -> Seq<DeviceWithUsage> {
    match reg.effective(now) {
        RegistrationState::PendingVerification { code: c, device, .. } => if c@ == code {
            devs.push(spec_with_usage(device))
        } else {
            devs
        },
        _ => devs,
    }
}

impl Anchor {
    /// Opens the window for a new device, on behalf of the device `caller`.
    ///
    /// `code` is the confirmation code that the device will have to give,
    /// and the window runs out `timeout` after `now`. A refused call changes
    /// nothing.
    pub fn open_registration(
        &mut self,
        caller: &DeviceKey,
        code: DeviceConfirmationCode,
        now: Timestamp,
        timeout: u64,
    ) -> (r: Result<Timestamp, RegistrationError>)
        requires
            old(self).wf(),
            now + timeout <= u64::MAX,
        ensures
            final(self).wf(),
            final(self).devices == old(self).devices,
            final(self).anchor_number == old(self).anchor_number,
            final(self).name == old(self).name,
            final(self).openid_credentials == old(self).openid_credentials,
            match r {
                Ok(expiration) => expiration == now + timeout && spec_open(
                    *old(self),
                    caller@,
                    code,
                    now,
                    timeout,
                ) == Ok::<RegistrationState, RegistrationError>(final(self).registration),
                Err(e) => spec_open(*old(self), caller@, code, now, timeout) == Err::<
                    RegistrationState,
                    RegistrationError,
                >(e) && final(self).registration == old(self).registration,
            },
    {
        if find_device(&self.devices, caller).is_none() {
            return Err(RegistrationError::Unauthorized);
        }
        if self.registration.is_live(now) {
            return Err(RegistrationError::AlreadyInProgress);
        }
        let expiration: u64 = now + timeout;
        self.registration = RegistrationState::Open { expiration, code };
        Ok(expiration)
    }

    /// Closes the window, on behalf of the device `caller`. A device that
    /// waits in it is dropped.
    pub fn exit_registration(&mut self, caller: &DeviceKey) -> (r: Result<(), RegistrationError>)
        requires
            old(self).wf(),
        ensures
            final(self).wf(),
            final(self).devices == old(self).devices,
            final(self).anchor_number == old(self).anchor_number,
            final(self).name == old(self).name,
            final(self).openid_credentials == old(self).openid_credentials,
            match r {
                Ok(_) => has_key(old(self).devices@, caller@) && final(self).registration
                    == RegistrationState::Closed,
                Err(e) => !has_key(old(self).devices@, caller@) && e
                    == RegistrationError::Unauthorized
                        && final(self).registration == old(self).registration,
            },
    {
        if find_device(&self.devices, caller).is_none() {
            return Err(RegistrationError::Unauthorized);
        }
        self.registration = RegistrationState::Closed;
        Ok(())
    }

    /// Submits `device` into the open window.
    ///
    /// The device then waits for its confirmation code, with the full
    /// number of attempts. The devices of the anchor do not change.
    pub fn submit_tentative_device(&mut self, device: DeviceData, now: Timestamp) -> (r: Result<
        AddTentativeDeviceResponse,
        DeviceError,
    >)
        requires
            old(self).wf(),
        ensures
            final(self).wf(),
            final(self).devices == old(self).devices,
            final(self).anchor_number == old(self).anchor_number,
            final(self).name == old(self).name,
            final(self).openid_credentials == old(self).openid_credentials,
            final(self).registration == spec_submit(*old(self), device, now).0,
            r == spec_submit(*old(self), device, now).1,
    {
        let mut state = RegistrationState::Closed;
        core::mem::swap(&mut self.registration, &mut state);
        match state {
            RegistrationState::Closed => Ok(AddTentativeDeviceResponse::DeviceRegistrationModeOff),
            RegistrationState::PendingVerification { expiration, code, device: waiting, retries_left } => {
                if now < expiration {
                    self.registration =
                    RegistrationState::PendingVerification {
                        expiration,
                        code,
                        device: waiting,
                        retries_left,
                    };
                    Ok(AddTentativeDeviceResponse::AnotherDeviceTentativelyAdded)
                } else {
                    Ok(AddTentativeDeviceResponse::DeviceRegistrationModeOff)
                }
            },
            RegistrationState::Open { expiration, code } => {
                if !(now < expiration) {
                    Ok(AddTentativeDeviceResponse::DeviceRegistrationModeOff)
                } else if find_device(&self.devices, &device.pubkey).is_some() {
                    self.registration = RegistrationState::Open { expiration, code };
                    Err(DeviceError::DuplicateKey)
                } else if metadata_has_reserved_key(&device.metadata) {
                    self.registration = RegistrationState::Open { expiration, code };
                    Err(DeviceError::ReservedMetadataKey)
                } else {
                    let verification_code = code.clone();
                    self.registration =
                    RegistrationState::PendingVerification {
                        expiration,
                        code,
                        device,
                        retries_left: MAX_VERIFICATION_RETRIES,
                    };
                    Ok(
                        AddTentativeDeviceResponse::AddedTentatively {
                            verification_code,
                            device_registration_timeout: expiration,
                        },
                    )
                }
            },
        }
    }

    /// Checks `code` against the confirmation code of the device that waits.
    ///
    /// The right code in time binds the device to the anchor and closes the
    /// window. A wrong one costs an attempt, and the last attempt closes the
    /// window.
    pub fn verify_tentative_device(&mut self, code: &DeviceConfirmationCode, now: Timestamp) -> (r:
        VerifyTentativeDeviceResponse)
        requires
            old(self).wf(),
        ensures
            final(self).wf(),
            final(self).anchor_number == old(self).anchor_number,
            final(self).name == old(self).name,
            final(self).openid_credentials == old(self).openid_credentials,
            final(self).registration == spec_verify(old(self).registration, code@, now).0,
            r == spec_verify(old(self).registration, code@, now).1,
            final(self).devices@ == spec_verify_devices(
                old(self).devices@,
                old(self).registration,
                code@,
                now,
            ),
    {
        let mut state = RegistrationState::Closed;
        core::mem::swap(&mut self.registration, &mut state);
        match state {
            RegistrationState::Closed => VerifyTentativeDeviceResponse::DeviceRegistrationModeOff,
            RegistrationState::Open { expiration, code: c } => {
                if now < expiration {
                    self.registration = RegistrationState::Open { expiration, code: c };
                    VerifyTentativeDeviceResponse::NoDeviceToVerify
                } else {
                    VerifyTentativeDeviceResponse::DeviceRegistrationModeOff
                }
            },
            RegistrationState::PendingVerification { expiration, code: c, device, retries_left } => {
                if !(now < expiration) {
                    VerifyTentativeDeviceResponse::DeviceRegistrationModeOff
                } else if c == *code {
                    let ghost before = self.devices@;
                    self.devices.push(with_usage(device));
                    proof {
                        let fin = self.devices@;
                        assert forall|a: int, b: int|
                            0 <= a < fin.len() && 0 <= b < fin.len() && a != b implies (
                        #[trigger] fin[a]).pubkey@ != (#[trigger] fin[b]).pubkey@ by {
                            if a < before.len() && b < before.len() {
                                assert(before[a].pubkey@ != before[b].pubkey@);
                            } else if a < before.len() {
                                assert(before[a].pubkey@ != device.pubkey@);
                            } else {
                                assert(before[b].pubkey@ != device.pubkey@);
                            }
                        }
                    }
                    VerifyTentativeDeviceResponse::Verified
                } else if retries_left > 1 {
                    let left: u8 = retries_left - 1;
                    self.registration =
                    RegistrationState::PendingVerification {
                        expiration,
                        code: c,
                        device,
                        retries_left: left,
                    };
                    VerifyTentativeDeviceResponse::WrongCode { retries_left: left }
                } else {
                    VerifyTentativeDeviceResponse::WrongCode { retries_left: 0 }
                }
            },
        }
    }
}

/// A flow starts only where none is under way: a window is opened only on
/// an anchor whose window is closed or has run out, and a device is taken
/// in only where a window is open and no device waits. So an anchor never
/// has two flows, nor two waiting devices.
pub proof fn lemma_one_flow_at_a_time(
    anchor: Anchor,
    caller: Seq<u8>,
    code: DeviceConfirmationCode,
    device: DeviceData,
    now: Timestamp,
    timeout: u64,
)
    requires
        anchor.wf(),
    ensures
        spec_open(anchor, caller, code, now, timeout).is_ok() ==> anchor.registration.effective(now)
            == RegistrationState::Closed,
        (spec_submit(anchor, device, now).1 matches Ok(
            AddTentativeDeviceResponse::AddedTentatively { .. },
        )) ==> (anchor.registration.effective(now) matches RegistrationState::Open { .. })
            && spec_submit(anchor, device, now).0.pending_key() == Some(device.pubkey@),
        anchor.registration.effective(now).pending_key().is_some() ==> spec_submit(
            anchor,
            device,
            now,
        ).0 == anchor.registration && spec_submit(anchor, device, now).1 == Ok::<
            AddTentativeDeviceResponse,
            DeviceError,
        >(AddTentativeDeviceResponse::AnotherDeviceTentativelyAdded),
{
}

/// The right code, given in time, binds the device that waits, whatever
/// number of attempts it has left: the window closes, the answer is
/// `Verified`, and the devices grow by exactly that device.
pub proof fn lemma_right_code_admits(
    devs: Seq<DeviceWithUsage>,
    reg: RegistrationState,
    code: Seq<char>,
    now: Timestamp,
)
    requires
        reg.wf(),
        reg.live(now),
        reg matches RegistrationState::PendingVerification { code: c, .. } && c@ == code,
    ensures
        spec_verify(reg, code, now).0 == RegistrationState::Closed,
        spec_verify(reg, code, now).1 == VerifyTentativeDeviceResponse::Verified,
        reg matches RegistrationState::PendingVerification { device, .. } && spec_verify_devices(
            devs,
            reg,
            code,
            now,
        ) == devs.push(spec_with_usage(device)),
        spec_verify_devices(devs, reg, code, now).len() == devs.len() + 1,
{
}

/// Three wrong codes in a row, each given in time, against a device with
/// three attempts: the answers count down from two to nought, the third
/// closes the window, and a fourth call finds it closed.
pub proof fn lemma_three_wrong_codes(
    reg: RegistrationState,
    c1: Seq<char>,
    c2: Seq<char>,
    c3: Seq<char>,
    c4: Seq<char>,
    t1: Timestamp,
    t2: Timestamp,
    t3: Timestamp,
    t4: Timestamp,
)
    requires
        reg matches RegistrationState::PendingVerification { code, retries_left, .. }
            && retries_left == 3 && code@ != c1 && code@ != c2 && code@ != c3,
        reg.live(t1),
        reg.live(t2),
        reg.live(t3),
    ensures
        spec_verify(reg, c1, t1).1 == (VerifyTentativeDeviceResponse::WrongCode { retries_left: 2 }),
        spec_verify(spec_verify(reg, c1, t1).0, c2, t2).1 == (
        VerifyTentativeDeviceResponse::WrongCode { retries_left: 1 }),
        spec_verify(spec_verify(spec_verify(reg, c1, t1).0, c2, t2).0, c3, t3).1 == (
        VerifyTentativeDeviceResponse::WrongCode { retries_left: 0 }),
        spec_verify(spec_verify(spec_verify(reg, c1, t1).0, c2, t2).0, c3, t3).0
            == RegistrationState::Closed,
        spec_verify(
            spec_verify(spec_verify(spec_verify(reg, c1, t1).0, c2, t2).0, c3, t3).0,
            c4,
            t4,
        ).1 == VerifyTentativeDeviceResponse::DeviceRegistrationModeOff,
{
}

/// A window that was opened is still open at any later time before it runs
/// out, so a second call to open it is refused as already in progress.
pub proof fn lemma_open_twice(
    anchor: Anchor,
    caller: Seq<u8>,
    code: DeviceConfirmationCode,
    now: Timestamp,
    timeout: u64,
    second_caller: Seq<u8>,
    second_code: DeviceConfirmationCode,
    later: Timestamp,
    second_timeout: u64,
)
    requires
        now + timeout <= u64::MAX,
        spec_open(anchor, caller, code, now, timeout).is_ok(),
        later < now + timeout,
        has_key(anchor.devices@, second_caller),
    ensures
        spec_open(
            Anchor { registration: spec_open(anchor, caller, code, now, timeout).unwrap(), ..anchor },
            second_caller,
            second_code,
            later,
            second_timeout,
        ) == Err::<RegistrationState, RegistrationError>(RegistrationError::AlreadyInProgress),
{
}

} // verus!
