//! Verifying a contact's device from the client, by its QR payload or by
//! its safety number against the local device.

use vstd::prelude::*;
use crate::client::trust::{contact_device, contact_views, device_position, find_remote_device};
use crate::client::views::{
    verification_method_code, verification_state_code, VerificationAction, VerificationDeviceView, VerificationMethodCode,
    VerificationStateCode, VerificationWorkspaceView,
};
use crate::device::{
    device_qr_view, qr_bytes, safety_digest_spec, safety_digits_prefix, Device, DeviceView, VerificationMethod,
    VerificationStatus,
};
use crate::member::{device_index, unique_device_ids, MemberProfile, MemberProfileView};
use crate::text::{hex_encode, hex_spec, owned, push_str};

verus! {

/// The method a verification action verifies by.
pub open spec fn action_method(action: VerificationAction) -> VerificationMethod {
    match action {
        VerificationAction::Qr => VerificationMethod::QrCode,
        VerificationAction::Safety => VerificationMethod::SafetyNumber,
    }
}

/// Every contact is well formed.
pub open spec fn contacts_wf(contacts: Seq<MemberProfile>) -> bool {
    forall|i: int| 0 <= i < contacts.len() ==> (#[trigger] contacts[i]).wf()
}

/// The contacts with one device of one contact marked verified by a method.
pub open spec fn with_verified(
    contacts: Seq<MemberProfileView>,
    ci: int,
    dj: int,
    method: VerificationMethod,
) -> Seq<MemberProfileView> {
    let m = contacts[ci];
    contacts.update(
        ci,
        MemberProfileView {
            devices: m.devices.update(
                dj,
                DeviceView { verification_status: VerificationStatus::Verified { method }, ..m.devices[dj] },
            ),
            ..m
        },
    )
}

proof fn lemma_index_is_position(devices: Seq<DeviceView>, id: Seq<char>, p: int)
    requires
        unique_device_ids(devices),
        0 <= p < devices.len(),
        devices[p].device_id == id,
    ensures
        device_index(devices, id) == Some(p),
{
    assert(devices[p].device_id == id);
    let k = choose|k: int| 0 <= k < devices.len() && #[trigger] devices[k].device_id == id;
    if k != p {
        assert(devices[k].device_id != devices[p].device_id);
    }
}

/// Verifies a contact's device, found by id among the contacts' devices (the
/// first contact that has it), against the local device: by the QR payload
/// the device shows to the local one, or by the safety number of the pair.
/// Both succeed for a device that is found: it is marked verified by the
/// chosen method, and nothing else changes. Without a local device, or
/// without a device of the id, nothing changes and the error says which.
pub fn verify_contact_device(
    contacts: &mut Vec<MemberProfile>,
    local_reference: Option<&Device>,
    device_id: &str,
    action: VerificationAction,
) -> (r: Result<(), String>)
    requires
        contacts_wf(old(contacts)@),
    ensures
        contacts_wf(final(contacts)@),
        local_reference is None ==> (r matches Err(e) && e@ == "local active device is missing"@) && final(contacts)@
            == old(contacts)@,
        local_reference is Some ==> match contact_device(contact_views(old(contacts)@), device_id@) {
            None => (r matches Err(e) && e@ == "device '"@ + device_id@ + "' not found"@) && final(contacts)@
                == old(contacts)@,
            Some(p) => r is Ok && contact_views(final(contacts)@) == with_verified(
                contact_views(old(contacts)@),
                p.0,
                p.1,
                action_method(action),
            ),
        },
{
    let local = match local_reference {
        None => return Err(owned("local active device is missing")),
        Some(d) => d,
    };
    let (ci, target) = match find_remote_device(contacts, device_id) {
        None => {
            let mut e = owned("device '");
            push_str(&mut e, device_id);
            push_str(&mut e, "' not found");
            return Err(e);
        },
        Some(found) => found,
    };
    let ghost before = contact_views(contacts@);
    let ghost p = contact_device(before, device_id@)->0;
    proof {
        crate::client::trust::lemma_contact_device(before, device_id@);
        crate::client::trust::lemma_device_position(before[ci as int].devices, device_id@);
        assert(contacts@[ci as int]@ == before[ci as int]);
        contacts@[ci as int].lemma_unique_devices();
        lemma_index_is_position(before[ci as int].devices, device_id@, p.1);
    }
    let mut member = contacts.remove(ci);
    let ghost om = member@;
    let result = match action {
        VerificationAction::Qr => {
            let payload = match member.device(&target) {
                None => Err(owned("target device disappeared")),
                Some(d) => match d.qr_payload(Some(local)) {
                    Ok(b) => Ok(b),
                    Err(e) => Err(e.message()),
                },
            };
            match payload {
                Err(e) => Err(e),
                Ok(b) => match member.verify_device_by_qr(&target, b.as_slice()) {
                    Ok(()) => Ok(()),
                    Err(e) => Err(e.message()),
                },
            }
        },
        VerificationAction::Safety => {
            match member.device(&target) {
                None => Err(owned("target device disappeared")),
                Some(d) => {
                    let number = d.safety_number_with(local);
                    match member.verify_device_by_safety_number(&target, local, &number) {
                        Ok(()) => Ok(()),
                        Err(e) => Err(e.message()),
                    }
                },
            }
        },
    };
    let ghost nm = member@;
    contacts.insert(ci, member);
    proof {
        assert(contacts@ =~= old(contacts)@.update(ci as int, contacts@[ci as int]));
        assert(contact_views(contacts@) =~= before.update(ci as int, nm));
        assert(nm =~= with_verified(before, p.0, p.1, action_method(action))[ci as int]);
        assert(contact_views(contacts@) =~= with_verified(before, p.0, p.1, action_method(action)));
        assert forall|i: int| 0 <= i < contacts@.len() implies (#[trigger] contacts@[i]).wf() by {
            if i != ci {
                assert(contacts@[i] == old(contacts)@[i]);
            }
        }
    }
    result
}

/// Every device of every contact, with its contact, in order.
pub open spec fn flat_devices(contacts: Seq<MemberProfileView>) -> Seq<(MemberProfileView, DeviceView)>
    decreases contacts.len(),
{
    if contacts.len() == 0 {
        Seq::empty()
    } else {
        let last = contacts.last();
        flat_devices(contacts.drop_last()) + last.devices.map_values(|d: DeviceView| (last, d))
    }
}

/// How a device is shown in the verification workspace: its member and
/// names, its state and method, the safety number against the local device
/// (or `unavailable` without one), and its QR payload against the local
/// device in hex.
pub open spec fn workspace_entry(v: VerificationDeviceView, m: MemberProfileView, d: DeviceView, local: Option<DeviceView>) -> bool {
    &&& v.member_id@ == m.member_id
    &&& v.member_name@ == m.display_name
    &&& v.device_id@ == d.device_id
    &&& v.device_name@ == d.device_name
    &&& v.state == (match d.verification_status {
        VerificationStatus::Pending => VerificationStateCode::Pending,
        VerificationStatus::Verified { .. } => VerificationStateCode::Verified,
    })
    &&& v.method == (match d.verification_status {
        VerificationStatus::Pending => None,
        VerificationStatus::Verified { method: VerificationMethod::SafetyNumber } => Some(
            VerificationMethodCode::SafetyNumber,
        ),
        VerificationStatus::Verified { method: VerificationMethod::QrCode } => Some(VerificationMethodCode::QrCode),
    })
    &&& v.safety_number@ == (match local {
        Some(l) => safety_digits_prefix(safety_digest_spec(d, l), 10),
        None => "unavailable"@,
    })
    &&& v.qr_payload_hex@ == hex_spec(qr_bytes(device_qr_view(d, local)))
}

/// How many entries are shown verified.
pub open spec fn verified_entries(s: Seq<VerificationDeviceView>) -> nat
    decreases s.len(),
{
    if s.len() == 0 {
        0
    } else {
        verified_entries(s.drop_last()) + if s.last().state == VerificationStateCode::Verified { 1nat } else { 0nat }
    }
}

fn workspace_device(member: &MemberProfile, device: &Device, local: Option<&Device>) -> (r: VerificationDeviceView)
    ensures
        workspace_entry(r, member@, device@, match local {
            Some(l) => Some(l@),
            None => None,
        }),
{
    let safety_number = match local {
        Some(l) => device.safety_number_with(l).digits(),
        None => owned("unavailable"),
    };
    let qr_payload_hex = match device.qr_payload(local) {
        Ok(bytes) => hex_encode(bytes.as_slice()),
        Err(_) => owned("qr-unavailable"),
    };
    VerificationDeviceView {
        member_id: owned(member.member_id().as_str()),
        member_name: owned(member.display_name()),
        device_id: owned(device.device_id().as_str()),
        device_name: owned(device.device_name()),
        state: verification_state_code(device.verification_status()),
        method: verification_method_code(device.verification_status()),
        safety_number,
        qr_payload_hex,
    }
}

/// The verification workspace: every contact's devices in order (see
/// `workspace_entry`), how many are verified and how many are not.
pub fn verification_workspace(contacts: &Vec<MemberProfile>, local: Option<&Device>) -> (r: VerificationWorkspaceView)
    ensures
        ({
            let flat = flat_devices(contact_views(contacts@));
            let lv = match local {
                Some(l) => Some(l@),
                None => None,
            };
            &&& r.devices@.len() == flat.len()
            &&& forall|k: int| 0 <= k < flat.len() ==> workspace_entry(#[trigger] r.devices@[k], flat[k].0, flat[k].1, lv)
            &&& r.trusted_device_count == verified_entries(r.devices@)
            &&& r.pending_device_count == r.devices@.len() - verified_entries(r.devices@)
        }),
{
    let ghost cs = contact_views(contacts@);
    let ghost lv = match local {
        Some(l) => Some(l@),
        None => None,
    };
    let mut devices: Vec<VerificationDeviceView> = Vec::new();
    let mut i: usize = 0;
    assert(cs.take(0) =~= Seq::<MemberProfileView>::empty());
    while i < contacts.len()
        invariant
            i <= contacts@.len(),
            cs == contact_views(contacts@),
            lv == (match local {
                Some(l) => Some(l@),
                None => None::<DeviceView>,
            }),
            devices@.len() == flat_devices(cs.take(i as int)).len(),
            forall|k: int| 0 <= k < devices@.len() ==> workspace_entry(
                #[trigger] devices@[k],
                flat_devices(cs.take(i as int))[k].0,
                flat_devices(cs.take(i as int))[k].1,
                lv,
            ),
        decreases contacts@.len() - i,
    {
        let member = &contacts[i];
        let member_devices = member.devices();
        let ghost base = devices@.len();
        let ghost prev = flat_devices(cs.take(i as int));
        let ghost m = cs[i as int];
        assert(m == member@);
        let mut j: usize = 0;
        while j < member_devices.len()
            invariant
                j <= member_devices@.len(),
                m == member@,
                member_devices@.map_values(|d: Device| d@) == m.devices,
                devices@.len() == base + j,
                base == prev.len(),
                forall|k: int| 0 <= k < base ==> workspace_entry(#[trigger] devices@[k], prev[k].0, prev[k].1, lv),
                forall|k: int| 0 <= k < j ==> workspace_entry(#[trigger] devices@[base + k], m, m.devices[k], lv),
                lv == (match local {
                    Some(l) => Some(l@),
                    None => None::<DeviceView>,
                }),
            decreases member_devices@.len() - j,
        {
            let entry = workspace_device(member, &member_devices[j], local);
            proof {
                assert(m.devices[j as int] == member_devices@[j as int]@);
            }
            devices.push(entry);
            j = j + 1;
        }
        proof {
            let next = cs.take(i + 1);
            assert(next.drop_last() =~= cs.take(i as int));
            assert(next.last() == m);
            let added = m.devices.map_values(|d: DeviceView| (m, d));
            assert(flat_devices(next) == prev + added);
            assert forall|k: int| 0 <= k < devices@.len() implies workspace_entry(
                #[trigger] devices@[k],
                flat_devices(next)[k].0,
                flat_devices(next)[k].1,
                lv,
            ) by {
                if k < base {
                    assert(flat_devices(next)[k] == prev[k]);
                } else {
                    assert(flat_devices(next)[k] == added[k - base]);
                    assert(devices@[k] == devices@[base + (k - base)]);
                }
            }
        }
        i = i + 1;
    }
    assert(cs.take(i as int) =~= cs);
    let mut trusted: usize = 0;
    let mut k: usize = 0;
    assert(devices@.take(0) =~= Seq::<VerificationDeviceView>::empty());
    while k < devices.len()
        invariant
            k <= devices@.len(),
            trusted == verified_entries(devices@.take(k as int)),
            trusted <= k,
        decreases devices@.len() - k,
    {
        proof {
            assert(devices@.take(k + 1).drop_last() =~= devices@.take(k as int));
        }
        if devices[k].state == VerificationStateCode::Verified {
            trusted = trusted + 1;
        }
        k = k + 1;
    }
    assert(devices@.take(k as int) =~= devices@);
    let pending = devices.len() - trusted;
    VerificationWorkspaceView { trusted_device_count: trusted, pending_device_count: pending, devices }
}

} // verus!
