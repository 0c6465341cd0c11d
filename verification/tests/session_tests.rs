use localsend::protocol::{FileId, FileMap, FileMetadata, Token};
use localsend::session::Session;

fn create_test_files() -> FileMap {
    let mut files = FileMap::new();
    let file_id = FileId::new();
    files.insert(
        file_id.clone(),
        FileMetadata {
            id: file_id,
            file_name: "test.txt".to_string(),
            size: 1024,
            file_type: "text/plain".to_string(),
            sha256: None,
            preview: None,
            metadata: None,
        },
    );
    files
}

#[test]
fn test_session_creation() {
    let files = create_test_files();
    let session = Session::new("Test Sender".to_string(), files.clone(), 0);

    assert_eq!(session.sender_alias, "Test Sender");
    assert_eq!(session.files.len(), 1);
    assert_eq!(session.tokens.len(), 1);
    assert!(!session.is_timed_out(300, 0));
}

#[test]
fn test_token_verification() {
    let files = create_test_files();
    let session = Session::new("Test".to_string(), files.clone(), 0);

    let file_id = &files.entries[0].0;
    let valid_token = session.get_token(file_id).unwrap().clone();

    assert!(session.verify_token(file_id, &valid_token));

    // Invalid token
    let invalid_token = Token::from_string("invalid".to_string());
    assert!(!session.verify_token(file_id, &invalid_token));
}

#[test]
fn test_timeout() {
    let files = create_test_files();
    let mut session = Session::new("Test".to_string(), files, 0);

    // Should not timeout immediately
    assert!(!session.is_timed_out(1, 0));

    // Two seconds later, a 1-second threshold has passed
    assert!(session.is_timed_out(1, 2));

    // Touch should reset timeout
    session.touch(2);
    assert!(!session.is_timed_out(1, 2));
}

#[test]
fn test_completion_check() {
    let files = create_test_files();
    let file_ids: Vec<FileId> = files.entries.iter().map(|e| e.0.clone()).collect();
    let session = Session::new("Test".to_string(), files, 0);

    // Not complete with empty list
    assert!(!session.is_complete(&[]));

    // Complete with all files
    assert!(session.is_complete(&file_ids));

    // Not complete with extra file
    let mut extra_ids = file_ids.clone();
    extra_ids.push(FileId::new());
    assert!(!session.is_complete(&extra_ids));
}

#[test]
fn tokens_match_derived_format() {
    let files = create_test_files();
    let session = Session::new("Test".to_string(), files, 7);
    for (fid, token) in &session.tokens {
        let expected = format!("{}_{}", session.id.as_str(), fid.as_str());
        assert_eq!(token.as_str(), expected);
    }
    assert_eq!(session.created_at, 7);
    assert_eq!(session.last_activity, 7);
}
