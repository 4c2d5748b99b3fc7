//! The sample blueprint of the first release and its milestones.

use vstd::prelude::*;
use crate::ids::is_valid_identifier_spec;
use crate::planning::config::{mvp_policy_spec, GroupConfig, TransportMode};
use crate::planning::domain::{
    DeviceId, DeviceProfile, GroupRoster, MemberId, MemberProfile, Platform, PresenceState,
};
use crate::planning::security::{recommended_checklist_spec, RekeyPlan, RekeyReason, SafetyChecklist, VerificationState};
use crate::text::{is_blank_spec, is_whitespace_spec, owned};

verus! {

/// A configured group with its roster, safety requirements, first rekey and
/// the work still ahead.
#[derive(Debug, Clone, PartialEq, Eq)]
pub struct ProjectBlueprint {
    pub config: GroupConfig,
    pub roster: GroupRoster,
    pub safety: SafetyChecklist,
    pub initial_rekey_strategy: RekeyPlan,
    pub priorities: Vec<String>,
}

pub open spec fn milestones_spec() -> Seq<Seq<char>> {
    seq![
        "Wire audited cryptography instead of placeholder modeling"@,
        "Implement mDNS discovery and QUIC transport"@,
        "Persist encrypted local history and file metadata"@,
        "Wrap the Rust core in a Tauri 2 client for desktop and Android"@,
    ]
}

/// The next four milestones, in order.
pub fn next_milestones() -> (r: [&'static str; 4])
    ensures
        forall|i: int| 0 <= i < 4 ==> (#[trigger] r@[i])@ == milestones_spec()[i],
{
    [
        "Wire audited cryptography instead of placeholder modeling",
        "Implement mDNS discovery and QUIC transport",
        "Persist encrypted local history and file metadata",
        "Wrap the Rust core in a Tauri 2 client for desktop and Android",
    ]
}

fn sample_member(
    member_id: &str,
    display_name: &str,
    device_id: &str,
    platform: Platform,
    presence: PresenceState,
) -> (r: MemberProfile)
    requires
        is_valid_identifier_spec(member_id@),
        is_valid_identifier_spec(device_id@),
        !is_blank_spec(display_name@),
    ensures
        r.member_id@ == member_id@,
        r.display_name@ == display_name@,
        r.devices@.len() == 1,
        r.devices@[0].device_id@ == device_id@,
        r.devices@[0].platform == platform,
        r.devices@[0].verification_state == VerificationState::VerifiedViaQr,
        r.presence == presence,
{
    let mut device_name = owned(display_name);
    device_name.append(" primary device");
    proof {
        let i = choose|i: int| 0 <= i < display_name@.len() && !is_whitespace_spec(#[trigger] display_name@[i]);
        assert(device_name@[i] == display_name@[i]);
    }
    let device = DeviceProfile::new(
        DeviceId::new(device_id).unwrap(),
        device_name.as_str(),
        platform,
        VerificationState::VerifiedViaQr,
    ).unwrap();
    let mut devices: Vec<DeviceProfile> = Vec::new();
    devices.push(device);
    MemberProfile::new(
        MemberId::new(member_id).unwrap(),
        display_name,
        devices,
        presence,
        "4631 9011 7455 0092",
    ).unwrap()
}

/// The blueprint of the first release: the demo group over LAN and Bluetooth,
/// owned by a single member, with every safety requirement, a first rekey at
/// epoch 2 for a removed member, and the next milestones as priorities.
pub fn mvp_blueprint() -> (r: ProjectBlueprint)
    ensures
        r.config.group_id@ == "rimus-room"@,
        r.config.transport_modes@ == seq![TransportMode::LocalLanMdns, TransportMode::BluetoothFallback],
        r.config.policy == mvp_policy_spec(),
        r.roster.owner_id@ == "rimus"@,
        r.roster.members@.len() == 1,
        r.roster.members@[0].member_id@ == "rimus"@,
        r.roster.members@[0].presence == PresenceState::LanOnline,
        r.safety == recommended_checklist_spec(),
        r.initial_rekey_strategy.next_epoch == 2,
        (r.initial_rekey_strategy.reason matches RekeyReason::MemberRemoved(m) && m@ == "left-member"@),
        r.initial_rekey_strategy.revoked_devices@.len() == 1,
        r.initial_rekey_strategy.revoked_devices@[0]@ == "old-phone"@,
        r.priorities@.len() == 4,
        forall|i: int| 0 <= i < 4 ==> (#[trigger] r.priorities@[i])@ == milestones_spec()[i],
{
    proof {
        reveal_strlit("rimus");
        reveal_strlit("Rimus");
        reveal_strlit("rimus-main-win");
        reveal_strlit("old-phone");
        assert(!is_whitespace_spec("rimus"@[0]));
        assert(!is_whitespace_spec("Rimus"@[0]));
        assert(!is_whitespace_spec("rimus-main-win"@[0]));
        assert(!is_whitespace_spec("old-phone"@[0]));
    }
    let owner = sample_member(
        "rimus",
        "Rimus",
        "rimus-main-win",
        Platform::Windows,
        PresenceState::LanOnline,
    );
    let mut config = GroupConfig::demo();
    let mut transport_modes: Vec<TransportMode> = Vec::new();
    transport_modes.push(TransportMode::LocalLanMdns);
    transport_modes.push(TransportMode::BluetoothFallback);
    config.transport_modes = transport_modes;
    let mut revoked_devices: Vec<DeviceId> = Vec::new();
    revoked_devices.push(DeviceId::new("old-phone").unwrap());
    let milestones = next_milestones();
    let mut priorities: Vec<String> = Vec::new();
    let mut i: usize = 0;
    while i < 4
        invariant
            i <= 4,
            priorities@.len() == i,
            forall|j: int| 0 <= j < 4 ==> (#[trigger] milestones@[j])@ == milestones_spec()[j],
            forall|j: int| 0 <= j < i ==> (#[trigger] priorities@[j])@ == milestones_spec()[j],
        decreases 4 - i,
    {
        priorities.push(owned(milestones[i]));
        i = i + 1;
    }
    ProjectBlueprint {
        config,
        roster: GroupRoster::new(owner),
        safety: SafetyChecklist::recommended(),
        initial_rekey_strategy: RekeyPlan {
            next_epoch: 2,
            reason: RekeyReason::MemberRemoved(owned("left-member")),
            revoked_devices,
        },
        priorities,
    }
}

} // verus!
