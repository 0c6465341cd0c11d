use localsend::protocol::{DeviceInfo, DeviceType, FileId, FileMap, FileMetadata, Protocol, SessionId};
use localsend::transfer::TransferState;

fn create_test_device() -> DeviceInfo {
    DeviceInfo {
        alias: "Test Device".to_string(),
        version: "2.1".to_string(),
        device_model: None,
        device_type: Some(DeviceType::Desktop),
        fingerprint: "test123".to_string(),
        port: 53317,
        protocol: Protocol::Https,
        download: false,
        ip: Some("192.168.1.100".to_string()),
    }
}

fn create_test_files() -> FileMap {
    let mut files = FileMap::new();
    let file_id = FileId::new();
    files.insert(
        file_id.clone(),
        FileMetadata {
            id: file_id,
            file_name: "test.txt".to_string(),
            size: 1024,
            file_type: "text/plain".to_string(),
            sha256: None,
            preview: None,
            metadata: None,
        },
    );
    files
}

#[test]
fn test_transfer_state_lifecycle() {
    let device = create_test_device();
    let files = create_test_files();

    // Initial state
    let state = TransferState::new_pending(device, files.clone(), 0);
    assert!(state.is_active());
    assert!(!state.is_completed());

    // Accept transfer
    let session_id = SessionId::new();
    let state = state.accept(session_id.clone()).unwrap();
    assert!(state.is_active());
    assert_eq!(state.session_id(), Some(&session_id));

    // Complete file
    let file_id = files.entries[0].0.clone();
    let state = state.complete_file(file_id).unwrap();
    assert!(state.is_completed());
}

#[test]
fn test_transfer_rejection() {
    let device = create_test_device();
    let files = create_test_files();

    let state = TransferState::new_pending(device, files, 0);
    let state = state.reject("User declined".to_string()).unwrap();

    assert!(!state.is_active());
    assert!(!state.is_completed());
}

#[test]
fn test_invalid_state_transitions() {
    // Cannot accept from Idle
    let result = TransferState::Idle.accept(SessionId::new());
    assert!(result.is_err());

    // Cannot complete file from WaitingForAcceptance
    let device = create_test_device();
    let files = create_test_files();
    let state = TransferState::new_pending(device, files.clone(), 0);
    let file_id = files.entries[0].0.clone();
    let result = state.complete_file(file_id);
    assert!(result.is_err());
}

#[test]
fn completing_same_file_twice_counts_once() {
    let device = create_test_device();
    let mut files = create_test_files();
    let second_id = FileId::new();
    files.insert(
        second_id.clone(),
        FileMetadata {
            id: second_id.clone(),
            file_name: "other.bin".to_string(),
            size: 2,
            file_type: "application/octet-stream".to_string(),
            sha256: None,
            preview: None,
            metadata: None,
        },
    );
    let first_id = files.entries[0].0.clone();

    let state = TransferState::new_pending(device, files, 0)
        .accept(SessionId::new())
        .unwrap();
    let state = state.complete_file(first_id.clone()).unwrap();
    assert!(!state.is_completed());
    assert!(state.is_file_completed(&first_id));

    // The same file again does not finish the two-file transfer
    let state = state.complete_file(first_id).unwrap();
    assert!(!state.is_completed());

    let state = state.complete_file(second_id).unwrap();
    assert!(state.is_completed());
}

#[test]
fn cancel_works_from_any_state() {
    let state = TransferState::Idle.cancel("bye".to_string());
    assert!(!state.is_active());
    assert!(!state.is_completed());
    assert!(matches!(state, TransferState::Cancelled { .. }));
}
