//! A member profile and the devices it owns.

use vstd::prelude::*;
use crate::device::{
    compare_chars, lex_order_chars, qr_check_spec, qr_refused_as, safety_digest_spec, Device, DeviceView, SafetyNumber,
    VerificationMethod, VerificationStatus,
};
use crate::ids::{CoreError, DeviceId, MemberId};
use crate::text::{is_blank, is_blank_spec, owned};

verus! {

/// The abstract value of a member profile.
pub struct MemberProfileView {
    pub member_id: Seq<char>,
    pub display_name: Seq<char>,
    pub devices: Seq<DeviceView>,
}

/// No two devices of the sequence share a device id.
pub open spec fn unique_device_ids(devices: Seq<DeviceView>) -> bool {
    forall|i: int, j: int| 0 <= i < devices.len() && 0 <= j < devices.len() && i != j ==> #[trigger] devices[i].device_id != #[trigger] devices[j].device_id
}

/// The index of the device with a given id, if there is one.
pub open spec fn device_index(devices: Seq<DeviceView>, device_id: Seq<char>) -> Option<int> {
    if exists|i: int| 0 <= i < devices.len() && #[trigger] devices[i].device_id == device_id {
        Some(choose|i: int| 0 <= i < devices.len() && #[trigger] devices[i].device_id == device_id)
    } else {
        None
    }
}

/// A member and its devices, kept in ascending device-id order.
#[derive(Debug)]
pub struct MemberProfile {
    member_id: MemberId,
    display_name: String,
    devices: Vec<Device>,
}

impl View for MemberProfile {
    type V = MemberProfileView;

    closed spec fn view(&self) -> MemberProfileView {
        MemberProfileView {
            member_id: self.member_id@,
            display_name: self.display_name@,
            devices: self.devices@.map_values(|d: Device| d@),
        }
    }
}

impl MemberProfile {
    /// Device ids are unique.
    pub closed spec fn wf(&self) -> bool {
        unique_device_ids(self@.devices)
    }

    /// A well-formed member has no two devices of one id.
    pub proof fn lemma_unique_devices(&self)
        requires
            self.wf(),
        ensures
            unique_device_ids(self@.devices),
    {
    }

    pub fn new(member_id: MemberId, display_name: &str) -> (r: Result<MemberProfile, CoreError>)
        ensures
            is_blank_spec(display_name@) ==> r == Err::<MemberProfile, CoreError>(CoreError::EmptyDisplayName),
            !is_blank_spec(display_name@) ==> (r matches Ok(p) && p.wf() && p@ == MemberProfileView {
                member_id: member_id@,
                display_name: display_name@,
                devices: Seq::empty(),
            }),
    {
        if is_blank(display_name) {
            return Err(CoreError::EmptyDisplayName);
        }
        let p = MemberProfile { member_id, display_name: owned(display_name), devices: Vec::new() };
        assert(p@.devices =~= Seq::<DeviceView>::empty());
        p
            .ok_wrap()
    }

    fn ok_wrap(self) -> (r: Result<MemberProfile, CoreError>)
        ensures
            r == Ok::<MemberProfile, CoreError>(self),
    {
        Ok(self)
    }

    pub fn member_id(&self) -> (r: &MemberId)
        ensures
            r@ == self@.member_id,
    {
        &self.member_id
    }

    pub fn display_name(&self) -> (r: &str)
        ensures
            r@ == self@.display_name,
    {
        self.display_name.as_str()
    }

    /// The devices, in ascending device-id order.
    pub fn devices(&self) -> (r: &[Device])
        ensures
            r@.map_values(|d: Device| d@) == self@.devices,
    {
        self.devices.as_slice()
    }

    fn find(&self, device_id: &DeviceId) -> (r: Option<usize>)
        requires
            self.wf(),
        ensures
            match r {
                Some(i) => i < self@.devices.len() && self@.devices[i as int].device_id == device_id@
                    && device_index(self@.devices, device_id@) == Some(i as int),
                None => device_index(self@.devices, device_id@) is None,
            },
    {
        let n = self.devices.len();
        let mut i: usize = 0;
        while i < n
            invariant
                n == self.devices@.len(),
                i <= n,
                self.wf(),
                forall|j: int| 0 <= j < i ==> #[trigger] self.devices@[j]@.device_id != device_id@,
            decreases n - i,
        {
            if self.devices[i].device_id().same_as(device_id) {
                proof {
                    assert(self@.devices[i as int].device_id == device_id@);
                    let k = choose|k: int| 0 <= k < self@.devices.len() && #[trigger] self@.devices[k].device_id == device_id@;
                    assert(self@.devices[k].device_id == self@.devices[i as int].device_id);
                    assert(k == i);
                }
                return Some(i);
            }
            i = i + 1;
        }
        proof {
            assert forall|k: int| 0 <= k < self@.devices.len() implies #[trigger] self@.devices[k].device_id != device_id@ by {
                assert(self@.devices[k] == self.devices@[k]@);
            }
        }
        None
    }

    /// The device with the given id, if the member has one.
    pub fn device(&self, device_id: &DeviceId) -> (r: Option<&Device>)
        requires
            self.wf(),
        ensures
            match device_index(self@.devices, device_id@) {
                Some(i) => r matches Some(d) && d@ == self@.devices[i],
                None => r is None,
            },
    {
        match self.find(device_id) {
            Some(i) => Some(&self.devices[i]),
            None => None,
        }
    }

    /// Adds a device of this member: fails when another member owns it or the
    /// id is already present; otherwise inserts it in device-id order.
    pub fn add_device(&mut self, device: Device) -> (r: Result<(), CoreError>)
        requires
            old(self).wf(),
        ensures
            final(self).wf(),
            device@.owner_member_id != old(self)@.member_id ==> (r matches Err(CoreError::ForeignDeviceOwner {
                expected_member_id: e,
                actual_member_id: a,
            }) && e@ == old(self)@.member_id && a@ == device@.owner_member_id && final(self)@ == old(self)@),
            device@.owner_member_id == old(self)@.member_id && device_index(old(self)@.devices, device@.device_id) is Some
                ==> (r matches Err(CoreError::DuplicateDevice(d)) && d@ == device@.device_id && final(self)@ == old(self)@),
            device@.owner_member_id == old(self)@.member_id && device_index(old(self)@.devices, device@.device_id) is None
                ==> r is Ok && exists|p: int| 0 <= p <= old(self)@.devices.len()
                && final(self)@.devices == old(self)@.devices.insert(p, device@)
                && (forall|k: int| 0 <= k < p ==> lex_order_chars(#[trigger] old(self)@.devices[k].device_id, device@.device_id) < 0)
                && (p < old(self)@.devices.len() ==> lex_order_chars(old(self)@.devices[p].device_id, device@.device_id) > 0),
            final(self)@.member_id == old(self)@.member_id,
            final(self)@.display_name == old(self)@.display_name,
    {
        if !device.owner_member_id().same_as(&self.member_id) {
            return Err(CoreError::ForeignDeviceOwner {
                expected_member_id: self.member_id.to_string(),
                actual_member_id: device.owner_member_id().to_string(),
            });
        }
        if let Some(_) = self.find(device.device_id()) {
            return Err(CoreError::DuplicateDevice(device.device_id().to_string()));
        }
        let n = self.devices.len();
        let mut p: usize = 0;
        while p < n && compare_chars(self.devices[p].device_id().as_str(), device.device_id().as_str()) < 0
            invariant
                n == self.devices@.len(),
                p <= n,
                forall|k: int| 0 <= k < p ==> lex_order_chars(#[trigger] self.devices@[k]@.device_id, device@.device_id) < 0,
            decreases n - p,
        {
            p = p + 1;
        }
        proof {
            if p < n {
                assert(self@.devices[p as int].device_id != device@.device_id);
                lemma_lex_order_zero_equal(self@.devices[p as int].device_id, device@.device_id);
            }
        }
        let ghost before = self@.devices;
        self.devices.insert(p, device);
        proof {
            assert(self@.devices =~= before.insert(p as int, device@));
            assert forall|i: int, j: int| 0 <= i < self@.devices.len() && 0 <= j < self@.devices.len() && i != j
                implies #[trigger] self@.devices[i].device_id != #[trigger] self@.devices[j].device_id by {
                if i == p && j != p {
                    let jj = if j < p { j } else { j - 1 };
                    assert(before[jj].device_id != device@.device_id);
                } else if j == p && i != p {
                    let ii = if i < p { i } else { i - 1 };
                    assert(before[ii].device_id != device@.device_id);
                }
            }
            assert(forall|k: int| 0 <= k < p ==> lex_order_chars(#[trigger] before[k].device_id, device@.device_id) < 0) by {
                assert forall|k: int| 0 <= k < p implies lex_order_chars(#[trigger] before[k].device_id, device@.device_id) < 0 by {
                    assert(before[k] == old(self).devices@[k]@);
                }
            }
        }
        Ok(())
    }

    /// The verified devices, in device-id order.
    pub fn verified_devices(&self) -> (r: Vec<&Device>)
        ensures
            r@.map_values(|d: &Device| d@) == self@.devices.filter(|d: DeviceView| d.verification_status is Verified),
    {
        let mut out: Vec<&Device> = Vec::new();
        let n = self.devices.len();
        let mut i: usize = 0;
        while i < n
            invariant
                n == self.devices@.len(),
                i <= n,
                out@.map_values(|d: &Device| d@) == self@.devices.subrange(0, i as int).filter(|d: DeviceView| d.verification_status is Verified),
            decreases n - i,
        {
            let ghost prev = self@.devices.subrange(0, i as int);
            if self.devices[i].is_verified() {
                out.push(&self.devices[i]);
            }
            proof {
                let next = self@.devices.subrange(0, i + 1);
                assert(next.drop_last() =~= prev);
                assert(next.last() == self.devices@[i as int]@);
                reveal(Seq::filter);
                assert(out@.map_values(|d: &Device| d@) =~= next.filter(|d: DeviceView| d.verification_status is Verified));
            }
            i = i + 1;
        }
        assert(self@.devices.subrange(0, n as int) =~= self@.devices);
        out
    }

    /// Verifies one of the member's devices by QR payload bytes.
    pub fn verify_device_by_qr(&mut self, device_id: &DeviceId, payload_bytes: &[u8]) -> (r: Result<(), CoreError>)
        requires
            old(self).wf(),
        ensures
            final(self).wf(),
            match device_index(old(self)@.devices, device_id@) {
                None => (r matches Err(CoreError::MissingDevice(d)) && d@ == device_id@) && final(self)@ == old(self)@,
                Some(i) => match qr_check_spec(payload_bytes@, old(self)@.devices[i]) {
                    Ok(d) => r is Ok && final(self)@ == MemberProfileView { devices: old(self)@.devices.update(i, d), ..old(self)@ },
                    Err(q) => r matches Err(e) && qr_refused_as(e, q) && final(self)@ == old(self)@,
                },
            },
    {
        let i = match self.find(device_id) {
            Some(i) => i,
            None => return Err(CoreError::MissingDevice(device_id.to_string())),
        };
        let ghost before = self@.devices;
        let mut device = self.devices.remove(i);
        let result = device.verify_with_qr_payload(payload_bytes);
        self.devices.insert(i, device);
        proof {
            assert(self@.devices =~= before.update(i as int, device@));
            assert forall|a: int, b: int| 0 <= a < self@.devices.len() && 0 <= b < self@.devices.len() && a != b
                implies #[trigger] self@.devices[a].device_id != #[trigger] self@.devices[b].device_id by {
                assert(before[a].device_id != before[b].device_id);
            }
            if result is Err {
                assert(self@.devices =~= before);
            }
        }
        result
    }

    /// Verifies one of the member's devices by safety number.
    pub fn verify_device_by_safety_number(&mut self, device_id: &DeviceId, local_reference_device: &Device, presented_safety_number: &SafetyNumber) -> (r: Result<(), CoreError>)
        requires
            old(self).wf(),
        ensures
            final(self).wf(),
            match device_index(old(self)@.devices, device_id@) {
                None => (r matches Err(CoreError::MissingDevice(d)) && d@ == device_id@) && final(self)@ == old(self)@,
                Some(i) => if presented_safety_number@ == safety_digest_spec(old(self)@.devices[i], local_reference_device@) {
                    r is Ok && final(self)@ == MemberProfileView {
                        devices: old(self)@.devices.update(i, DeviceView {
                            verification_status: VerificationStatus::Verified { method: VerificationMethod::SafetyNumber },
                            ..old(self)@.devices[i]
                        }),
                        ..old(self)@
                    }
                } else {
                    r == Err::<(), CoreError>(CoreError::SafetyNumberMismatch) && final(self)@ == old(self)@
                },
            },
    {
        let i = match self.find(device_id) {
            Some(i) => i,
            None => return Err(CoreError::MissingDevice(device_id.to_string())),
        };
        let ghost before = self@.devices;
        let mut device = self.devices.remove(i);
        let result = device.verify_with_safety_number(local_reference_device, presented_safety_number);
        self.devices.insert(i, device);
        proof {
            assert(self@.devices =~= before.update(i as int, device@));
            assert forall|a: int, b: int| 0 <= a < self@.devices.len() && 0 <= b < self@.devices.len() && a != b
                implies #[trigger] self@.devices[a].device_id != #[trigger] self@.devices[b].device_id by {
                assert(before[a].device_id != before[b].device_id);
            }
            if result is Err {
                assert(self@.devices =~= before);
            }
        }
        result
    }
}

/// Lexicographic order zero means equal sequences.
pub proof fn lemma_lex_order_zero_equal(a: Seq<char>, b: Seq<char>)
    ensures
        (lex_order_chars(a, b) == 0) == (a == b),
    decreases a.len(),
{
    if a.len() == 0 || b.len() == 0 {
        if a.len() != b.len() {
            assert(a != b);
        } else {
            assert(a =~= b);
        }
    } else if a[0] != b[0] {
        assert(a != b);
    } else {
        lemma_lex_order_zero_equal(a.drop_first(), b.drop_first());
        assert(lex_order_chars(a, b) == lex_order_chars(a.drop_first(), b.drop_first()));
        if a.drop_first() =~= b.drop_first() {
            assert(a =~= seq![a[0]] + a.drop_first());
            assert(b =~= seq![b[0]] + b.drop_first());
            assert(a =~= b);
        }
        if a == b {
            assert(a.drop_first() =~= b.drop_first());
        }
    }
}

} // verus!
