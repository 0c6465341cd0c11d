use localsend::protocol::{AnnouncementMessage, DeviceType, Protocol};
use localsend::wirejson::announcement_json;

fn message() -> AnnouncementMessage {
    AnnouncementMessage {
        alias: "Node A".to_string(),
        version: "2.1".to_string(),
        device_model: Some("linux".to_string()),
        device_type: Some(DeviceType::Desktop),
        fingerprint: "fp-a".to_string(),
        port: 53317,
        protocol: Protocol::Https,
        download: false,
        announce: true,
        announcement: Some(true),
    }
}

#[test]
fn announcement_json_is_exact() {
    let s = announcement_json(&message());
    let expected = "{\"alias\":\"Node A\",\"version\":\"2.1\",\"deviceModel\":\"linux\",\"deviceType\":\"desktop\",\"fingerprint\":\"fp-a\",\"port\":53317,\"protocol\":\"https\",\"download\":false,\"announce\":true,\"announcement\":true}";
    assert_eq!(s, expected);
}

#[test]
fn announcement_json_parses_back() {
    // Any JSON parser must read back what the encoder framed.
    let s = announcement_json(&message());
    let v: serde_json::Value = serde_json::from_str(&s).unwrap();
    assert_eq!(v["alias"].as_str(), Some("Node A"));
    assert_eq!(v["version"].as_str(), Some("2.1"));
    assert_eq!(v["deviceModel"].as_str(), Some("linux"));
    assert_eq!(v["deviceType"].as_str(), Some("desktop"));
    assert_eq!(v["fingerprint"].as_str(), Some("fp-a"));
    assert_eq!(v["port"].as_u64(), Some(53317));
    assert_eq!(v["protocol"].as_str(), Some("https"));
    assert_eq!(v["download"].as_bool(), Some(false));
    assert_eq!(v["announce"].as_bool(), Some(true));
    assert_eq!(v["announcement"].as_bool(), Some(true));
}

#[test]
fn optional_fields_encode_as_null() {
    let mut msg = message();
    msg.device_model = None;
    msg.device_type = None;
    msg.announce = false;
    msg.announcement = None;
    let s = announcement_json(&msg);
    let v: serde_json::Value = serde_json::from_str(&s).unwrap();
    assert_eq!(v["deviceModel"], serde_json::Value::Null);
    assert_eq!(v["deviceType"], serde_json::Value::Null);
    assert_eq!(v["announce"].as_bool(), Some(false));
    // A missing legacy flag is framed as false.
    assert_eq!(v["announcement"].as_bool(), Some(false));
}

#[test]
fn special_characters_are_escaped() {
    let mut msg = message();
    msg.alias = "a\"b\\c\nd\te\u{1}f".to_string();
    let s = announcement_json(&msg);
    let v: serde_json::Value = serde_json::from_str(&s).unwrap();
    assert_eq!(v["alias"].as_str(), Some("a\"b\\c\nd\te\u{1}f"));
    assert!(s.contains("\\\""));
    assert!(s.contains("\\\\"));
    assert!(s.contains("\\n"));
    assert!(s.contains("\\t"));
    assert!(s.contains("\\u0001"));
}
