use localsend::crypto::{generate_fingerprint, generate_tls_certificate, sha256_from_bytes, to_hex_lower};
use localsend::file::{build_file_metadata_from_bytes, generate_file_id, get_mime_type, text_message_metadata};
use localsend::menu::MainMenuScreen;
use localsend::protocol::FileId;
use localsend::receiver::message_file_name;
use localsend::text::{sanitize_file_name, str_eq, u16_to_string};
use localsend::timefmt::Timestamp;

#[test]
fn sha256_digests_are_exact() {
    assert_eq!(
        sha256_from_bytes(b""),
        "e3b0c44298fc1c149afbf4c8996fb92427ae41e4649b934ca495991b7852b855"
    );
    assert_eq!(
        sha256_from_bytes(b"abc"),
        "ba7816bf8f01cfea414140de5dae2223b00361a396177a9cb410ff61f20015ad"
    );
}

#[test]
fn hex_encoding_is_exact() {
    assert_eq!(to_hex_lower(&[0xbe, 0xef]), "beef");
    assert_eq!(to_hex_lower(&[]), "");
    assert_eq!(to_hex_lower(&[0x00, 0x0f, 0xa0]), "000fa0");
}

#[test]
fn fingerprints_are_uuid_shaped() {
    let fp = generate_fingerprint();
    assert_eq!(fp.len(), 36);
    assert_eq!(fp.chars().filter(|c| *c == '-').count(), 4);
    assert_ne!(generate_fingerprint(), fp);
}

#[test]
fn tls_certificate_fingerprint_matches_der_digest() {
    let cert = generate_tls_certificate().unwrap();
    assert_eq!(cert.fingerprint.len(), 64);
    assert_eq!(cert.fingerprint, sha256_from_bytes(&cert.cert_der));
    assert!(cert.cert_pem.contains("BEGIN CERTIFICATE"));
    assert!(cert.key_pem.contains("PRIVATE KEY"));
}

#[test]
fn timestamps_render_in_both_forms() {
    let t = Timestamp { year: 2024, month: 1, day: 2, hour: 3, minute: 4, second: 5 };
    assert_eq!(t.compact(), "20240102_030405");
    assert_eq!(t.display(), "2024-01-02 03:04:05");
    let t = Timestamp { year: 999, month: 12, day: 31, hour: 23, minute: 59, second: 58 };
    assert_eq!(t.compact(), "09991231_235958");
}

#[test]
fn message_names_sanitize_separators() {
    let t = Timestamp { year: 2024, month: 1, day: 2, hour: 3, minute: 4, second: 5 };
    assert_eq!(message_file_name(&t, "a/b"), "message_20240102_030405_a_b.txt");
    assert_eq!(sanitize_file_name("x/y/z.txt"), "x_y_z.txt");
    assert_eq!(sanitize_file_name("plain.txt"), "plain.txt");
}

#[test]
fn decimal_rendering_is_exact() {
    assert_eq!(u16_to_string(0), "0");
    assert_eq!(u16_to_string(7), "7");
    assert_eq!(u16_to_string(53317), "53317");
    assert_eq!(u16_to_string(65535), "65535");
}

#[test]
fn string_equality_compares_characters() {
    assert!(str_eq("", ""));
    assert!(str_eq("abc", "abc"));
    assert!(!str_eq("abc", "abd"));
    assert!(!str_eq("abc", "abcd"));
}

#[test]
fn mime_types_follow_the_extension() {
    assert_eq!(get_mime_type("x.txt"), "text/plain");
    assert_eq!(get_mime_type("photo.png"), "image/png");
    assert_eq!(get_mime_type("mystery.zzz"), "application/octet-stream");
}

#[test]
fn file_metadata_from_bytes_keeps_the_length() {
    let id = FileId::from_string("f1".to_string());
    let meta = build_file_metadata_from_bytes(
        id,
        "x.bin".to_string(),
        "application/octet-stream".to_string(),
        &vec![1u8, 2, 3],
    );
    assert_eq!(meta.size, 3);
    assert_eq!(meta.file_name, "x.bin");
    assert!(meta.preview.is_none());
    assert_eq!(generate_file_id().as_str().len(), 36);
}

#[test]
fn text_message_metadata_is_a_text_message() {
    let meta = text_message_metadata("hello".to_string());
    assert_eq!(meta.size, 5);
    assert_eq!(meta.file_type, "text/plain");
    assert_eq!(meta.preview.as_deref(), Some("hello"));
    assert!(meta.file_name.ends_with(".txt"));
    assert!(meta.is_text_message());
}

#[test]
fn menu_cursor_wraps_both_ways() {
    let mut menu = MainMenuScreen::default();
    assert_eq!(menu.items_count(), 6);
    menu.previous();
    assert_eq!(menu.selected_index, 5);
    menu.next();
    assert_eq!(menu.selected_index, 0);
    for _ in 0..6 {
        menu.next();
    }
    assert_eq!(menu.selected_index, 0);
}
