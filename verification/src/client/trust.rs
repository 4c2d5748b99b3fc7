//! What the client shows of how far it trusts a contact's device: found among
//! the contacts' devices by id, and judged by whether it was verified and
//! whether a chat runtime reaches it.

use vstd::prelude::*;
use crate::client::views::PresenceStateView;
use crate::device::DeviceView;
use crate::ids::DeviceId;
use crate::member::{MemberProfile, MemberProfileView};
use crate::text::{owned, str_eq};

verus! {

/// The position of the first device with the id.
pub open spec fn device_position(devices: Seq<DeviceView>, id: Seq<char>) -> Option<int>
    decreases devices.len(),
{
    if devices.len() == 0 {
        None
    } else if devices[0].device_id == id {
        Some(0)
    } else {
        match device_position(devices.drop_first(), id) {
            Some(i) => Some(i + 1),
            None => None,
        }
    }
}

/// The first contact, in order, with a device of the id, and that device's
/// position among the contact's devices.
pub open spec fn contact_device(contacts: Seq<MemberProfileView>, id: Seq<char>) -> Option<(int, int)>
    decreases contacts.len(),
{
    if contacts.len() == 0 {
        None
    } else {
        match device_position(contacts[0].devices, id) {
            Some(j) => Some((0, j)),
            None => match contact_device(contacts.drop_first(), id) {
                Some(p) => Some((p.0 + 1, p.1)),
                None => None,
            },
        }
    }
}

/// The views of the contacts.
pub open spec fn contact_views(contacts: Seq<MemberProfile>) -> Seq<MemberProfileView> {
    contacts.map_values(|m: MemberProfile| m@)
}

/// Some device of some contact has the id and was verified.
pub open spec fn verified_somewhere(contacts: Seq<MemberProfileView>, id: Seq<char>) -> bool {
    exists|i: int, j: int|
        0 <= i < contacts.len() && 0 <= j < contacts[i].devices.len() && #[trigger] contacts[i].devices[j].device_id == id
            && contacts[i].devices[j].verification_status is Verified
}

/// The trust line of a chat with a device: unknown when no contact has it;
/// otherwise whether it was verified, and, if so, whether forward secrecy is
/// active.
pub open spec fn security_label_spec(contacts: Seq<MemberProfileView>, id: Seq<char>, forward_secrecy_active: bool) -> Seq<char> {
    match contact_device(contacts, id) {
        None => "Unknown trust state"@,
        Some(p) => if contacts[p.0].devices[p.1].verification_status is Verified {
            if forward_secrecy_active {
                "Verified device pair · Forward secrecy active"@
            } else {
                "Verified device pair"@
            }
        } else {
            "Verification required before elevated trust"@
        },
    }
}

pub(crate) proof fn lemma_device_position(devices: Seq<DeviceView>, id: Seq<char>)
    ensures
        device_position(devices, id) matches Some(i) ==> 0 <= i < devices.len() && devices[i].device_id == id
            && forall|j: int| 0 <= j < i ==> (#[trigger] devices[j]).device_id != id,
        device_position(devices, id) is None ==> forall|j: int| 0 <= j < devices.len() ==> (#[trigger] devices[j]).device_id != id,
    decreases devices.len(),
{
    if devices.len() > 0 {
        lemma_device_position(devices.drop_first(), id);
        if devices[0].device_id != id {
            assert forall|j: int| 1 <= j < devices.len() implies devices[j] == devices.drop_first()[j - 1] by {}
        }
    }
}

pub(crate) proof fn lemma_contact_device(contacts: Seq<MemberProfileView>, id: Seq<char>)
    ensures
        contact_device(contacts, id) matches Some(p) ==> {
            &&& 0 <= p.0 < contacts.len()
            &&& device_position(contacts[p.0].devices, id) == Some(p.1)
            &&& forall|k: int| 0 <= k < p.0 ==> device_position((#[trigger] contacts[k]).devices, id) is None
        },
        contact_device(contacts, id) is None ==> forall|k: int| 0 <= k < contacts.len() ==> device_position(
            (#[trigger] contacts[k]).devices,
            id,
        ) is None,
    decreases contacts.len(),
{
    if contacts.len() > 0 {
        lemma_contact_device(contacts.drop_first(), id);
        if device_position(contacts[0].devices, id) is None {
            assert forall|k: int| 1 <= k < contacts.len() implies contacts[k] == contacts.drop_first()[k - 1] by {}
        }
    }
}

/// Where the device of the id is among the contacts' devices: the first
/// contact that has it, and its place there.
pub(crate) fn locate_device(contacts: &Vec<MemberProfile>, device_id: &str) -> (r: Option<(usize, usize)>)
    ensures
        match r {
            Some((i, j)) => contact_device(contact_views(contacts@), device_id@) == Some((i as int, j as int)),
            None => contact_device(contact_views(contacts@), device_id@) is None,
        },
{
    let ghost cs = contact_views(contacts@);
    proof {
        lemma_contact_device(cs, device_id@);
    }
    let mut i: usize = 0;
    while i < contacts.len()
        invariant
            i <= contacts@.len(),
            cs == contact_views(contacts@),
            forall|k: int| 0 <= k < i ==> device_position((#[trigger] cs[k]).devices, device_id@) is None,
        decreases contacts@.len() - i,
    {
        let devices = contacts[i].devices();
        let ghost ds = cs[i as int].devices;
        assert(ds == devices@.map_values(|d: crate::device::Device| d@));
        proof {
            lemma_device_position(ds, device_id@);
        }
        let mut j: usize = 0;
        while j < devices.len()
            invariant
                i < contacts@.len(),
                j <= devices@.len(),
                cs == contact_views(contacts@),
                ds == cs[i as int].devices,
                ds == devices@.map_values(|d: crate::device::Device| d@),
                forall|k: int| 0 <= k < i ==> device_position((#[trigger] cs[k]).devices, device_id@) is None,
                forall|k: int| 0 <= k < j ==> (#[trigger] ds[k]).device_id != device_id@,
            decreases devices@.len() - j,
        {
            if str_eq(devices[j].device_id().as_str(), device_id) {
                proof {
                    lemma_device_position(ds, device_id@);
                    lemma_contact_device(cs, device_id@);
                    assert(ds[j as int] == devices@[j as int]@);
                    assert(ds[j as int].device_id == device_id@);
                    match device_position(ds, device_id@) {
                        Some(p) => {
                            if p < j {
                                assert(ds[p].device_id != device_id@);
                            } else if p > j {
                                assert(ds[j as int].device_id != device_id@);
                            }
                        },
                        None => {
                            assert(ds[j as int].device_id != device_id@);
                        },
                    }
                    assert(device_position(ds, device_id@) == Some(j as int));
                    match contact_device(cs, device_id@) {
                        Some(p) => {
                            if p.0 < i {
                                assert(device_position(cs[p.0].devices, device_id@) is None);
                            } else if p.0 > i {
                                assert(device_position(cs[i as int].devices, device_id@) is None);
                            }
                        },
                        None => {
                            assert(device_position(cs[i as int].devices, device_id@) is None);
                        },
                    }
                }
                return Some((i, j));
            }
            proof {
                assert(ds[j as int] == devices@[j as int]@);
            }
            j = j + 1;
        }
        proof {
            lemma_device_position(ds, device_id@);
            match device_position(ds, device_id@) {
                Some(p) => {
                    assert(ds[p].device_id != device_id@);
                },
                None => {},
            }
        }
        i = i + 1;
    }
    proof {
        lemma_contact_device(cs, device_id@);
    }
    None
}

/// The trust line of a chat with a contact's device (see
/// `security_label_spec`).
pub fn security_label_for_device(contacts: &Vec<MemberProfile>, device_id: &str, forward_secrecy_active: bool) -> (r: String)
    ensures
        r@ == security_label_spec(contact_views(contacts@), device_id@, forward_secrecy_active),
{
    match locate_device(contacts, device_id) {
        None => owned("Unknown trust state"),
        Some((i, j)) => {
            proof {
                lemma_contact_device(contact_views(contacts@), device_id@);
            }
            let devices = contacts[i].devices();
            proof {
                lemma_device_position(contact_views(contacts@)[i as int].devices, device_id@);
                assert(contact_views(contacts@)[i as int].devices[j as int] == devices@[j as int]@);
            }
            if devices[j].is_verified() {
                if forward_secrecy_active {
                    owned("Verified device pair · Forward secrecy active")
                } else {
                    owned("Verified device pair")
                }
            } else {
                owned("Verification required before elevated trust")
            }
        },
    }
}

/// A contact's device by id, with the index of the contact that has it.
pub fn find_remote_device(contacts: &Vec<MemberProfile>, raw_device_id: &str) -> (r: Option<(usize, DeviceId)>)
    ensures
        match contact_device(contact_views(contacts@), raw_device_id@) {
            None => r is None,
            Some(p) => r matches Some((i, d)) && i == p.0 && d@ == raw_device_id@,
        },
{
    match locate_device(contacts, raw_device_id) {
        None => None,
        Some((i, j)) => {
            proof {
                lemma_contact_device(contact_views(contacts@), raw_device_id@);
            }
            let devices = contacts[i].devices();
            proof {
                lemma_device_position(contact_views(contacts@)[i as int].devices, raw_device_id@);
                assert(contact_views(contacts@)[i as int].devices[j as int] == devices@[j as int]@);
            }
            Some((i, devices[j].device_id().duplicate()))
        },
    }
}

/// Whether any contact has a verified device of the id.
fn any_verified_device(contacts: &Vec<MemberProfile>, device_id: &str) -> (r: bool)
    ensures
        r == verified_somewhere(contact_views(contacts@), device_id@),
{
    let ghost cs = contact_views(contacts@);
    let mut i: usize = 0;
    while i < contacts.len()
        invariant
            i <= contacts@.len(),
            cs == contact_views(contacts@),
            forall|a: int, b: int| 0 <= a < i && 0 <= b < cs[a].devices.len() && #[trigger] cs[a].devices[b].device_id
                == device_id@ ==> !(cs[a].devices[b].verification_status is Verified),
        decreases contacts@.len() - i,
    {
        let devices = contacts[i].devices();
        let ghost ds = cs[i as int].devices;
        assert(ds == devices@.map_values(|d: crate::device::Device| d@));
        let mut j: usize = 0;
        while j < devices.len()
            invariant
                i < contacts@.len(),
                j <= devices@.len(),
                cs == contact_views(contacts@),
                ds == cs[i as int].devices,
                ds == devices@.map_values(|d: crate::device::Device| d@),
                forall|a: int, b: int| 0 <= a < i && 0 <= b < cs[a].devices.len() && #[trigger] cs[a].devices[b].device_id
                    == device_id@ ==> !(cs[a].devices[b].verification_status is Verified),
                forall|b: int| 0 <= b < j && #[trigger] ds[b].device_id == device_id@ ==> !(ds[b].verification_status is Verified),
            decreases devices@.len() - j,
        {
            proof {
                assert(ds[j as int] == devices@[j as int]@);
            }
            if str_eq(devices[j].device_id().as_str(), device_id) && devices[j].is_verified() {
                proof {
                    assert(cs[i as int].devices[j as int].device_id == device_id@);
                }
                return true;
            }
            j = j + 1;
        }
        i = i + 1;
    }
    false
}

/// How a contact's device is shown as present: online when a chat runtime
/// reaches it and some contact's device of that id was verified, pending
/// verification when only the runtime reaches it, offline otherwise.
pub fn presence_state_for_device(contacts: &Vec<MemberProfile>, device_id: &str, has_runtime: bool) -> (r: PresenceStateView)
    ensures
        r == (if !has_runtime {
            PresenceStateView::Offline
        } else if verified_somewhere(contact_views(contacts@), device_id@) {
            PresenceStateView::Online
        } else {
            PresenceStateView::Reconnecting
        }),
{
    let is_verified = any_verified_device(contacts, device_id);
    if !has_runtime {
        PresenceStateView::Offline
    } else if is_verified {
        PresenceStateView::Online
    } else {
        PresenceStateView::Reconnecting
    }
}

} // verus!
