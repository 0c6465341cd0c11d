use localsend::discovery::{MulticastDiscovery, PacketAction, PeerSet};
use localsend::protocol::{AnnouncementMessage, DeviceInfo, DeviceType, Protocol};

fn announcement(alias: &str, fingerprint: &str, announce: bool) -> AnnouncementMessage {
    AnnouncementMessage {
        alias: alias.to_string(),
        version: "2.1".to_string(),
        device_model: None,
        device_type: Some(DeviceType::Desktop),
        fingerprint: fingerprint.to_string(),
        port: 53317,
        protocol: Protocol::Https,
        download: false,
        announce,
        announcement: Some(announce),
    }
}

fn participant() -> MulticastDiscovery {
    MulticastDiscovery::new("Node B".to_string(), 53317, Protocol::Https).unwrap()
}

#[test]
fn discovery_dedups_repeated_announcements() {
    // A announces three times while B listens: one entry appears.
    let mut disc = participant();
    for _ in 0..3 {
        let action = disc.observe(
            announcement("Node A", "fp-a", true),
            Some("192.168.1.7".to_string()),
        );
        match action {
            PacketAction::Deliver { device, respond } => {
                assert_eq!(device.alias, "Node A");
                assert_eq!(device.ip, Some("192.168.1.7".to_string()));
                assert!(respond, "an announcement asks for a response");
            }
            PacketAction::Ignore => panic!("a foreign packet must be delivered"),
        }
    }
    assert_eq!(disc.peers.len(), 1);
}

#[test]
fn own_packets_are_ignored() {
    // A packet carrying our own fingerprint never reaches the peer set.
    let mut disc = participant();
    let own_fp = disc.local_device.fingerprint.clone();
    let action = disc.observe(
        announcement("echo", &own_fp, true),
        Some("192.168.1.5".to_string()),
    );
    assert!(matches!(action, PacketAction::Ignore));
    assert_eq!(disc.peers.len(), 0);
}

#[test]
fn responses_do_not_ask_for_a_response() {
    let mut disc = participant();
    let mut msg = announcement("Node A", "fp-a", false);
    msg.announcement = Some(false);
    match disc.observe(msg, Some("192.168.1.7".to_string())) {
        PacketAction::Deliver { respond, .. } => assert!(!respond),
        PacketAction::Ignore => panic!("a foreign packet must be delivered"),
    }

    // The legacy flag alone also marks an announcement.
    let mut legacy = announcement("Node C", "fp-c", false);
    legacy.announcement = Some(true);
    match disc.observe(legacy, None) {
        PacketAction::Deliver { respond, .. } => assert!(respond),
        PacketAction::Ignore => panic!("a foreign packet must be delivered"),
    }
}

#[test]
fn peer_set_falls_back_to_endpoint_dedup() {
    let mut peers = PeerSet::new();
    let mut first = DeviceInfo {
        alias: "Node A".to_string(),
        version: "2.1".to_string(),
        device_model: None,
        device_type: None,
        fingerprint: "fp-1".to_string(),
        port: 53317,
        protocol: Protocol::Https,
        download: false,
        ip: Some("192.168.1.7".to_string()),
    };
    assert!(peers.insert(first.clone()));
    // Same fingerprint, new address: still the same device.
    first.ip = Some("192.168.1.8".to_string());
    assert!(!peers.insert(first.clone()));
    // New fingerprint but the same address and port: the fallback holds it.
    first.fingerprint = "fp-2".to_string();
    first.ip = Some("192.168.1.7".to_string());
    assert!(!peers.insert(first.clone()));
    // New fingerprint at a new address: a new device.
    first.ip = Some("192.168.1.9".to_string());
    assert!(peers.insert(first));
    assert_eq!(peers.len(), 2);
}

#[test]
fn find_matches_alias_or_address() {
    let mut disc = participant();
    disc.observe(
        announcement("Node A", "fp-a", true),
        Some("192.168.1.7".to_string()),
    );
    assert!(disc.peers.find("Node A").is_some());
    assert!(disc.peers.find("192.168.1.7").is_some());
    assert!(disc.peers.find("Node Z").is_none());
}

#[test]
fn start_refuses_to_run_twice() {
    let mut disc = participant();
    assert!(disc.start().is_ok());
    assert!(disc.running);
    assert!(disc.start().is_err());
    disc.stop();
    assert!(!disc.running);
    assert!(disc.start().is_ok());
}

#[test]
fn announcement_carries_both_flags() {
    let disc = participant();
    let msg = disc.announcement(true);
    assert!(msg.announce);
    assert_eq!(msg.announcement, Some(true));
    assert_eq!(msg.fingerprint, disc.local_device.fingerprint);

    let reply = disc.announcement(false);
    assert!(!reply.announce);
    assert_eq!(reply.announcement, Some(false));

    let delays = MulticastDiscovery::announce_delays_ms();
    assert_eq!(delays, vec![100, 500, 2000]);
}
