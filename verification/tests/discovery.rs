use localmessenger::discovery::registry::{DiscoveryConfig, PeerRegistry, RegistryChange};
use localmessenger::discovery::peer::{
    DiscoveryError, IpAddress, LocalPeerAnnouncement, PeerCapability, SocketAddress,
};
use localmessenger::discovery::txt::{
    decode_txt_records, encode_txt_records, parse_capability_list, parse_u16,
};
use localmessenger::discovery::service::{
    browse_service_name, browse_step, expiry_events, peer_from_response, service_instance_from_response,
    trim_trailing_dot, validate_service_type, DiscoveryEvent, MdnsRecord, MdnsRecordKind, MdnsResponse,
};
use localmessenger::ids::{DeviceId, MemberId};

fn records(values: &[&str]) -> Vec<String> {
    values.iter().map(|v| v.to_string()).collect()
}

#[test]
fn txt_round_trip_preserves_announcement_fields() {
    let announcement = LocalPeerAnnouncement::new(
        MemberId::new("alice").expect("member id should be valid"),
        DeviceId::new("alice-phone").expect("device id should be valid"),
        "Alice Phone",
        7070,
        vec![PeerCapability::MessagingV1, PeerCapability::PresenceV1],
    )
    .expect("announcement should be valid");

    let payload = decode_txt_records(encode_txt_records(&announcement))
        .expect("TXT records should round-trip");

    assert_eq!(payload.member_id, announcement.member_id);
    assert_eq!(payload.device_id, announcement.device_id);
    assert_eq!(payload.device_name, announcement.device_name);
    assert_eq!(payload.port, announcement.port);
    assert_eq!(payload.capabilities, announcement.capabilities);
}

#[test]
fn announcement_sorts_and_dedups_capabilities() {
    let a = LocalPeerAnnouncement::new(
        MemberId::new("bob").unwrap(),
        DeviceId::new("bob-pc").unwrap(),
        "Bob PC",
        9,
        vec![
            PeerCapability::PresenceV1,
            PeerCapability::MessagingV1,
            PeerCapability::PresenceV1,
            PeerCapability::VoiceNotesV1,
        ],
    )
    .unwrap();
    assert_eq!(
        a.capabilities,
        vec![PeerCapability::MessagingV1, PeerCapability::VoiceNotesV1, PeerCapability::PresenceV1]
    );
    assert_eq!(a.instance_name(), "Bob PC-bob-pc");
    assert_eq!(
        a.txt_records(),
        records(&["lmv=1", "mid=bob", "did=bob-pc", "name=Bob PC", "port=9", "caps=messaging-v1,voice-v1,presence-v1"])
    );
}

#[test]
fn announcement_rejects_blank_name_and_port_zero() {
    let blank = LocalPeerAnnouncement::new(
        MemberId::new("bob").unwrap(),
        DeviceId::new("bob-pc").unwrap(),
        "  ",
        9,
        vec![],
    );
    assert_eq!(blank.unwrap_err(), DiscoveryError::InvalidTxtRecord("device_name cannot be empty".to_string()));
    let zero = LocalPeerAnnouncement::new(
        MemberId::new("bob").unwrap(),
        DeviceId::new("bob-pc").unwrap(),
        "Bob",
        0,
        vec![],
    );
    assert_eq!(zero.unwrap_err(), DiscoveryError::InvalidServicePort(0));
}

#[test]
fn decode_reports_each_error() {
    assert_eq!(
        decode_txt_records(records(&["lmv=1", "garbage"])).unwrap_err(),
        DiscoveryError::InvalidTxtRecord("garbage".to_string())
    );
    assert_eq!(decode_txt_records(records(&[])).unwrap_err(), DiscoveryError::MissingTxtField("lmv"));
    assert_eq!(
        decode_txt_records(records(&["lmv=2"])).unwrap_err(),
        DiscoveryError::InvalidTxtRecord("unsupported TXT version 2".to_string())
    );
    assert_eq!(
        decode_txt_records(records(&["lmv=1", "mid=bad id"])).unwrap_err(),
        DiscoveryError::InvalidTxtRecord(
            "member_id 'bad id' must contain only ASCII letters, digits, '-' or '_'".to_string()
        )
    );
    assert_eq!(
        decode_txt_records(records(&["lmv=1", "mid=a", "did=d", "name=n", "port=x", "caps="])).unwrap_err(),
        DiscoveryError::InvalidTxtRecord("port".to_string())
    );
    assert_eq!(
        decode_txt_records(records(&["lmv=1", "mid=a", "did=d", "name=n", "port=0", "caps="])).unwrap_err(),
        DiscoveryError::InvalidServicePort(0)
    );
    assert_eq!(
        decode_txt_records(records(&["lmv=1", "mid=a", "did=d", "name=n", "port=1"])).unwrap_err(),
        DiscoveryError::MissingTxtField("caps")
    );
    assert_eq!(
        decode_txt_records(records(&["lmv=1", "mid=a", "did=d", "name=n", "port=1", "caps=files-v1,teleport"]))
            .unwrap_err(),
        DiscoveryError::InvalidCapability("teleport".to_string())
    );
}

#[test]
fn later_records_win_and_values_keep_equals() {
    let payload = decode_txt_records(records(&[
        "lmv=1", "mid=a", "did=d", "name=first", "name=A=B", "port=+080", "caps=,files-v1,,",
    ]))
    .unwrap();
    assert_eq!(payload.device_name, "A=B");
    assert_eq!(payload.port, 80);
    assert_eq!(payload.capabilities, vec![PeerCapability::FileTransferV1]);
}

#[test]
fn u16_parsing_follows_std() {
    for text in ["0", "65535", "+1", "007", "-1", "+", "", "65536", "1a", " 1"] {
        assert_eq!(parse_u16(text), text.parse::<u16>().ok(), "{text}");
    }
    assert_eq!(parse_capability_list("").unwrap(), vec![]);
    assert_eq!(parse_capability_list("x").unwrap_err(), "x");
}

#[test]
fn into_peer_keeps_fields() {
    let payload = decode_txt_records(records(&["lmv=1", "mid=a", "did=d", "name=n", "port=5", "caps=presence-v1"])).unwrap();
    let addr = SocketAddress { ip: IpAddress::V4([192, 168, 1, 50]), port: 5 };
    let peer = payload.into_peer("n-d".to_string(), Some(addr), Some("d.local".to_string()));
    assert_eq!(peer.endpoint(), Some(addr));
    assert_eq!(peer.device_id.as_str(), "d");
    assert_eq!(peer.capabilities, vec![PeerCapability::PresenceV1]);
    assert_eq!(PeerCapability::from_name("voice-v1"), Ok(PeerCapability::VoiceNotesV1));
    assert_eq!(PeerCapability::FileTransferV1.as_str(), "files-v1");
}

fn sample_registry_peer(device_id: &str, port: u16) -> localmessenger::discovery::peer::DiscoveredPeer {
    localmessenger::discovery::peer::DiscoveredPeer {
        service_instance: format!("{device_id}._localmsg._udp.local"),
        member_id: MemberId::new("alice").expect("member id should be valid"),
        device_id: DeviceId::new(device_id).expect("device id should be valid"),
        device_name: "Alice Phone".to_string(),
        port,
        socket_address: Some(SocketAddress { ip: IpAddress::V4([127, 0, 0, 1]), port }),
        hostname: Some(format!("{device_id}.local")),
        capabilities: vec![PeerCapability::MessagingV1, PeerCapability::PresenceV1],
    }
}

#[test]
fn registry_tracks_updates_and_expiration() {
    let peer = sample_registry_peer("alice-phone", 7070);
    let mut registry = PeerRegistry::new(10_000);
    let start: u64 = 1_000_000;

    assert!(matches!(registry.upsert_at(peer.clone(), start), RegistryChange::Added(_)));
    assert!(matches!(registry.upsert_at(peer.clone(), start + 1_000), RegistryChange::Unchanged));

    let mut updated = peer.clone();
    updated.socket_address = Some(SocketAddress { ip: IpAddress::V4([127, 0, 0, 1]), port: 9090 });
    assert!(matches!(registry.upsert_at(updated, start + 2_000), RegistryChange::Updated(_)));

    let expired = registry.expire_stale_at(start + 12_000);
    assert_eq!(expired.len(), 1);
    assert!(registry.snapshot().is_empty());
}

#[test]
fn registry_orders_peers_and_keeps_fresh_ones() {
    let mut registry = PeerRegistry::new(5_000);
    registry.upsert_at(sample_registry_peer("zed-phone", 1), 100);
    registry.upsert_at(sample_registry_peer("amy-phone", 2), 4_000);
    registry.upsert_at(sample_registry_peer("kim-phone", 3), 200);
    let order: Vec<String> = registry.snapshot().iter().map(|p| p.device_id.to_string()).collect();
    assert_eq!(order, vec!["amy-phone", "kim-phone", "zed-phone"]);

    let expired = registry.expire_stale_at(5_200);
    let expired_ids: Vec<String> = expired
        .iter()
        .map(|change| match change {
            RegistryChange::Expired(peer) => peer.device_id.to_string(),
            _ => panic!("only expirations are reported"),
        })
        .collect();
    assert_eq!(expired_ids, vec!["kim-phone", "zed-phone"]);
    assert_eq!(registry.len(), 1);
    assert!(registry.expire_stale_at(0).is_empty());

    let config = DiscoveryConfig::default_config();
    assert_eq!(config.service_type, "_localmsg._udp");
    assert_eq!(config.stale_after_ms, 45_000);
    assert_eq!(config.event_channel_capacity, 64);
}

#[test]
fn discovery_errors_read_as_their_messages() {
    assert_eq!(DiscoveryError::InvalidServicePort(0).message(), "invalid service port 0");
    assert_eq!(DiscoveryError::MissingTxtField("did").message(), "missing TXT field 'did'");
    assert_eq!(DiscoveryError::InvalidCapability("x".to_string()).message(), "invalid capability 'x'");
    assert_eq!(DiscoveryError::Browser("down".to_string()).message(), "mDNS browser error: down");
}

fn alice_response(socket_address: Option<SocketAddress>) -> MdnsResponse {
    MdnsResponse {
        records: vec![
            MdnsRecord {
                name: "_localmsg._udp.local".to_string(),
                kind: MdnsRecordKind::Ptr("Alice Phone-alice-phone._localmsg._udp.local".to_string()),
            },
            MdnsRecord {
                name: "Alice Phone-alice-phone._localmsg._udp.local".to_string(),
                kind: MdnsRecordKind::Srv,
            },
            MdnsRecord { name: "Alice Phone-alice-phone._localmsg._udp.local".to_string(), kind: MdnsRecordKind::Other },
            MdnsRecord { name: "alice-phone.local".to_string(), kind: MdnsRecordKind::Other },
        ],
        txt_records: records(&[
            "lmv=1",
            "mid=alice",
            "did=alice-phone",
            "name=Alice Phone",
            "port=7070",
            "caps=messaging-v1,presence-v1",
        ]),
        hostname: Some("alice-phone.local".to_string()),
        socket_address,
        ip_addr: Some(IpAddress::V4([192, 168, 1, 50])),
    }
}

#[test]
fn mdns_response_is_parsed_into_peer() {
    let expected = SocketAddress { ip: IpAddress::V4([192, 168, 1, 50]), port: 7070 };
    for response in [alice_response(Some(expected)), alice_response(None)] {
        let peer = peer_from_response(&response)
            .expect("response parsing should succeed")
            .expect("TXT-backed peer should be created");
        assert_eq!(peer.device_id.as_str(), "alice-phone");
        assert_eq!(peer.member_id.as_str(), "alice");
        assert_eq!(peer.port, 7070);
        assert_eq!(peer.socket_address, Some(expected));
        assert_eq!(peer.service_instance, "Alice Phone-alice-phone._localmsg._udp.local");
    }
}

#[test]
fn mdns_response_without_txt_or_with_bad_txt() {
    let mut response = alice_response(None);
    response.txt_records.clear();
    assert_eq!(peer_from_response(&response), Ok(None));
    let mut response = alice_response(None);
    response.txt_records = records(&["bogus"]);
    assert!(matches!(peer_from_response(&response), Err(DiscoveryError::InvalidTxtRecord(_))));
    let mut response = alice_response(None);
    response.records = vec![MdnsRecord { name: "x".to_string(), kind: MdnsRecordKind::Other }];
    assert_eq!(service_instance_from_response(&response), None);
    let peer = peer_from_response(&response).expect("ok").expect("peer");
    assert_eq!(peer.service_instance, "alice-phone.local");
    response.hostname = None;
    let peer = peer_from_response(&response).expect("ok").expect("peer");
    assert_eq!(peer.service_instance, "alice-phone");
}

#[test]
fn service_type_and_names() {
    assert!(validate_service_type("_localmsg._udp").is_ok());
    assert!(matches!(validate_service_type("localmsg._udp"), Err(DiscoveryError::InvalidServiceType(_))));
    assert!(validate_service_type("_localmsg.udp").is_err());
    assert!(validate_service_type("   ").is_err());
    assert_eq!(browse_service_name("_localmsg._udp"), "_localmsg._udp.local");
    assert_eq!(browse_service_name("_localmsg._udp.local"), "_localmsg._udp.local");
    assert_eq!(trim_trailing_dot("host.local.."), "host.local");
    assert_eq!(trim_trailing_dot("..."), "");
}

#[test]
fn browsing_reports_new_and_changed_peers_but_not_itself() {
    let mut registry = PeerRegistry::new(10);
    let local = DeviceId::new("bob-phone").expect("device");
    let peer = peer_from_response(&alice_response(None)).expect("ok").expect("peer");
    assert!(matches!(browse_step(&mut registry, &local, peer.clone(), 1), Some(DiscoveryEvent::PeerAdded(_))));
    assert_eq!(browse_step(&mut registry, &local, peer.clone(), 2), None);
    let mut moved = peer.clone();
    moved.port = 9090;
    assert!(matches!(browse_step(&mut registry, &local, moved, 3), Some(DiscoveryEvent::PeerUpdated(p)) if p.port == 9090));
    let own = DeviceId::new("alice-phone").expect("device");
    assert_eq!(browse_step(&mut registry, &own, peer.clone(), 4), None);
    let expired = registry.expire_stale_at(20);
    let events = expiry_events(expired);
    assert_eq!(events.len(), 1);
    assert!(matches!(&events[0], DiscoveryEvent::PeerExpired(p) if p.device_id.as_str() == "alice-phone"));
}
