//! Cryptographic profile, verification state and the rekey plan of a group.

use vstd::prelude::*;
use crate::planning::domain::DeviceId;
use crate::text::{decimal_spec, push_decimal, push_str};

verus! {

/// How a group derives and distributes its message keys.
#[derive(Debug, Clone, Copy, PartialEq, Eq, Structural)]
pub enum CryptoProfile {
    SignalStyleSenderKeys,
    NoiseHandshakeSenderKeys,
}

pub open spec fn crypto_profile_label_spec(p: CryptoProfile) -> Seq<char> {
    match p {
        CryptoProfile::SignalStyleSenderKeys => "Signal-style sender keys"@,
        CryptoProfile::NoiseHandshakeSenderKeys => "Noise handshake + sender keys"@,
    }
}

impl CryptoProfile {
    /// Human-readable name of the profile.
    pub fn label(&self) -> (r: &'static str)
        ensures
            r@ == crypto_profile_label_spec(*self),
    {
        match self {
            CryptoProfile::SignalStyleSenderKeys => "Signal-style sender keys",
            CryptoProfile::NoiseHandshakeSenderKeys => "Noise handshake + sender keys",
        }
    }
}

/// How far a device's identity has been confirmed.
#[derive(Debug, Clone, Copy, PartialEq, Eq, Structural)]
pub enum VerificationState {
    Pending,
    VerifiedViaQr,
    VerifiedViaSafetyNumber,
}

/// Why a group moves to a new key epoch; each names the member or device.
#[derive(Debug, Clone, PartialEq, Eq)]
pub enum RekeyReason {
    MemberRemoved(String),
    DeviceRevoked(String),
    SafetyNumberChanged(String),
}

/// A scheduled move to a new key epoch.
#[derive(Debug, Clone, PartialEq, Eq)]
pub struct RekeyPlan {
    pub next_epoch: u64,
    pub reason: RekeyReason,
    pub revoked_devices: Vec<DeviceId>,
}

pub open spec fn rekey_reason_text_spec(reason: RekeyReason) -> Seq<char> {
    match reason {
        RekeyReason::MemberRemoved(id) => "member "@ + id@ + " removed"@,
        RekeyReason::DeviceRevoked(id) => "device "@ + id@ + " revoked"@,
        RekeyReason::SafetyNumberChanged(id) => "safety number changed for "@ + id@,
    }
}

/// `epoch <n> rekey scheduled because <reason>`.
pub open spec fn rekey_summary_spec(next_epoch: u64, reason: RekeyReason) -> Seq<char> {
    "epoch "@ + decimal_spec(next_epoch as nat) + " rekey scheduled because "@
        + rekey_reason_text_spec(reason)
}

impl RekeyPlan {
    /// One line that says which epoch comes next and why.
    pub fn summary(&self) -> (r: String)
        ensures
            r@ == rekey_summary_spec(self.next_epoch, self.reason),
    {
        let mut out = String::new();
        push_str(&mut out, "epoch ");
        push_decimal(&mut out, self.next_epoch);
        push_str(&mut out, " rekey scheduled because ");
        match &self.reason {
            RekeyReason::MemberRemoved(id) => {
                push_str(&mut out, "member ");
                push_str(&mut out, id.as_str());
                push_str(&mut out, " removed");
            },
            RekeyReason::DeviceRevoked(id) => {
                push_str(&mut out, "device ");
                push_str(&mut out, id.as_str());
                push_str(&mut out, " revoked");
            },
            RekeyReason::SafetyNumberChanged(id) => {
                push_str(&mut out, "safety number changed for ");
                push_str(&mut out, id.as_str());
            },
        }
        assert(out@ =~= rekey_summary_spec(self.next_epoch, self.reason));
        out
    }
}

/// The security requirements a group is held to.
#[derive(Debug, Clone, Copy, PartialEq, Eq, Structural)]
pub struct SafetyChecklist {
    pub qr_verification_required: bool,
    pub manual_safety_number_supported: bool,
    pub forward_secrecy_required: bool,
    pub local_storage_only: bool,
    pub automatic_rekey_on_member_change: bool,
}

pub open spec fn recommended_checklist_spec() -> SafetyChecklist {
    SafetyChecklist {
        qr_verification_required: true,
        manual_safety_number_supported: true,
        forward_secrecy_required: true,
        local_storage_only: true,
        automatic_rekey_on_member_change: true,
    }
}

impl SafetyChecklist {
    /// Every requirement switched on.
    pub fn recommended() -> (r: SafetyChecklist)
        ensures
            r == recommended_checklist_spec(),
            r.qr_verification_required,
            r.manual_safety_number_supported,
            r.forward_secrecy_required,
            r.local_storage_only,
            r.automatic_rekey_on_member_change,
    {
        SafetyChecklist {
            qr_verification_required: true,
            manual_safety_number_supported: true,
            forward_secrecy_required: true,
            local_storage_only: true,
            automatic_rekey_on_member_change: true,
        }
    }
}

} // verus!
