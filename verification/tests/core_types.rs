use localsend::builders::DeviceInfoBuilder;
use localsend::protocol::{DeviceType, FileId, Port, Protocol, SessionId, Token};

#[test]
fn test_device_info_builder_defaults() {
    let device = DeviceInfoBuilder::new("Test Device".to_string(), 53317).build();

    assert_eq!(device.alias, "Test Device");
    assert_eq!(device.port, 53317);
    assert_eq!(device.protocol, Protocol::Https); // Default
    assert!(!device.fingerprint.is_empty());
    assert!(!device.download); // Default
}

#[test]
fn test_device_info_builder_custom() {
    let device = DeviceInfoBuilder::new("Custom Device".to_string(), 8080)
        .http()
        .enable_download()
        .device_type(DeviceType::Mobile)
        .device_model("iPhone 15".to_string())
        .fingerprint("custom-fp-123".to_string())
        .ip("192.168.1.100".to_string())
        .build();

    assert_eq!(device.alias, "Custom Device");
    assert_eq!(device.port, 8080);
    assert_eq!(device.protocol, Protocol::Http);
    assert_eq!(device.device_type, Some(DeviceType::Mobile));
    assert_eq!(device.device_model, Some("iPhone 15".to_string()));
    assert_eq!(device.fingerprint, "custom-fp-123");
    assert_eq!(device.ip, Some("192.168.1.100".to_string()));
    assert!(device.download);
}

#[test]
fn test_builder_chaining() {
    let device = DeviceInfoBuilder::new("Chain Test".to_string(), 9999)
        .https()
        .enable_download()
        .build();

    assert_eq!(device.protocol, Protocol::Https);
    assert!(device.download);
}

#[test]
fn token_derivation_is_exact() {
    let sid = SessionId::from_string("s1".to_string());
    let fid = FileId::from_string("f1".to_string());
    let token = Token::new(&sid, &fid);
    assert_eq!(token.as_str(), "s1_f1");
}

#[test]
fn port_zero_is_rejected() {
    assert!(Port::new(0).is_err());
    let p = Port::new(53317).unwrap();
    assert_eq!(p.get(), 53317);
    assert_eq!(Port::new_unchecked(1).get(), 1);
}

#[test]
fn protocol_names_round() {
    assert_eq!(Protocol::Http.as_str(), "http");
    assert_eq!(Protocol::Https.as_str(), "https");
    assert_eq!(Protocol::from_str_name("https"), Protocol::Https);
    assert_eq!(Protocol::from_str_name("HTTPS"), Protocol::Http);
    assert_eq!(Protocol::from_str_name("anything"), Protocol::Http);
}

#[test]
fn session_and_file_ids_are_uuids() {
    assert_eq!(SessionId::new().as_str().len(), 36);
    assert_eq!(FileId::new().as_str().len(), 36);
    assert!(!SessionId::new().is_empty());
    assert!(SessionId::from_string(String::new()).is_empty());
}
