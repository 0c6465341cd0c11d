use localsend::error::LocalSendError;
use localsend::protocol::{DeviceInfo, FileId, FileMetadata, Protocol, PROTOCOL_VERSION};
use localsend::validation::{validate_device_info, validate_file_metadata, validate_protocol_version};

#[test]
fn test_validate_protocol_version_compatible() {
    // Same version
    assert!(validate_protocol_version("2.1").is_ok());

    // Different minor version (should be compatible)
    assert!(validate_protocol_version("2.0").is_ok());
    assert!(validate_protocol_version("2.2").is_ok());
}

#[test]
fn test_validate_protocol_version_incompatible() {
    // Different major version
    assert!(validate_protocol_version("1.0").is_err());
    assert!(validate_protocol_version("3.0").is_err());

    // Invalid format
    assert!(validate_protocol_version("").is_err());
}

#[test]
fn test_validate_device_info() {
    let mut device = DeviceInfo {
        alias: "Test Device".to_string(),
        version: PROTOCOL_VERSION.to_string(),
        device_model: None,
        device_type: None,
        fingerprint: "abc123".to_string(),
        port: 53317,
        protocol: Protocol::Https,
        download: false,
        ip: None,
    };

    // Valid device
    assert!(validate_device_info(&device).is_ok());

    // Empty alias
    device.alias = "".to_string();
    assert!(validate_device_info(&device).is_err());
    device.alias = "Test Device".to_string();

    // Empty fingerprint
    device.fingerprint = "".to_string();
    assert!(validate_device_info(&device).is_err());
    device.fingerprint = "abc123".to_string();

    // Invalid version
    device.version = "3.0".to_string();
    assert!(validate_device_info(&device).is_err());
}

#[test]
fn test_validate_file_metadata() {
    let mut metadata = FileMetadata {
        id: FileId::from_string("file123".to_string()),
        file_name: "test.txt".to_string(),
        size: 1024,
        file_type: "text/plain".to_string(),
        sha256: None,
        preview: None,
        metadata: None,
    };

    // Valid metadata
    assert!(validate_file_metadata(&metadata).is_ok());

    // Empty ID
    metadata.id = FileId::from_string("".to_string());
    assert!(validate_file_metadata(&metadata).is_err());
    metadata.id = FileId::from_string("file123".to_string());

    // Empty file name
    metadata.file_name = "".to_string();
    assert!(validate_file_metadata(&metadata).is_err());
    metadata.file_name = "test.txt".to_string();

    // Zero size without preview (invalid for regular files)
    metadata.size = 0;
    assert!(validate_file_metadata(&metadata).is_err());

    // Zero size with preview (valid for text messages)
    metadata.preview = Some("Hello".to_string());
    assert!(validate_file_metadata(&metadata).is_ok());
}

#[test]
fn version_mismatch_reports_both_versions() {
    match validate_protocol_version("1.0") {
        Err(LocalSendError::VersionMismatch { expected, actual }) => {
            assert_eq!(expected, "2.1");
            assert_eq!(actual, "1.0");
        }
        other => panic!("expected VersionMismatch, got {:?}", other),
    }
}

#[test]
fn blank_alias_is_rejected_like_empty() {
    let device = DeviceInfo {
        alias: "   ".to_string(),
        version: PROTOCOL_VERSION.to_string(),
        device_model: None,
        device_type: None,
        fingerprint: "abc".to_string(),
        port: 1,
        protocol: Protocol::Http,
        download: false,
        ip: None,
    };
    match validate_device_info(&device) {
        Err(LocalSendError::InvalidDevice { .. }) => {}
        other => panic!("expected InvalidDevice, got {:?}", other),
    }
}

#[test]
fn version_without_dot_checks_whole_string() {
    // "2" alone is major 2, so it is accepted; "21" is not major 2.
    assert!(validate_protocol_version("2").is_ok());
    assert!(validate_protocol_version("21").is_err());
    assert!(validate_protocol_version("2.").is_ok());
}
