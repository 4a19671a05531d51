use rmm_agent::storage::{StoreError, Storage};
use rmm_agent::text::trim;

#[test]
fn plain_round_trip() {
    for key in ["test-api-key-12345", "test-key", "K", ""] {
        let text = Storage::plain_file_text(key);
        assert_eq!(Storage::key_from_plain_text(&text), key);
    }
}

#[test]
fn stored_key_is_trimmed() {
    assert_eq!(Storage::plain_file_text("  K\n"), "K");
    assert_eq!(Storage::key_from_plain_text("K\r\n"), "K");
    assert_eq!(Storage::key_from_plain_text("\u{a0}K\u{3000}"), "K");
    assert_eq!(Storage::key_from_plain_text(" \t\n"), "");
}

#[test]
fn protected_round_trip() {
    let blob: Vec<u8> = vec![0, 1, 2, 250, 255, 7];
    let text = Storage::protected_file_text(&blob);
    assert_eq!(text, "AAEC+v8H");
    assert_eq!(Storage::blob_from_protected_text(&text), Ok(blob.clone()));
    let padded = format!("{}\n", text);
    assert_eq!(Storage::blob_from_protected_text(&padded), Ok(blob));
    assert_eq!(Storage::protected_file_text(&b"hi".to_vec()), "aGk=");
}

#[test]
fn protected_text_errors() {
    assert_eq!(Storage::blob_from_protected_text("not base64!"), Err(StoreError::BadEncoding));
    assert_eq!(Storage::key_from_unprotected(vec![0xff, 0xfe]), Err(StoreError::NotText));
}

#[test]
fn unprotected_round_trip() {
    let bytes = Storage::bytes_to_protect("  clé-K ");
    assert_eq!(bytes, "clé-K".as_bytes().to_vec());
    assert_eq!(Storage::key_from_unprotected(bytes), Ok("clé-K".to_string()));
}

#[test]
fn storage_path() {
    let s = Storage::new("/var/lib/rmm/agent.key");
    assert_eq!(s.key_path(), "/var/lib/rmm/agent.key");
}

#[test]
fn trim_matches_std() {
    for s in ["", " a ", "\u{85}x\u{2029}", "a b", "\u{200b}z"] {
        assert_eq!(trim(s), s.trim());
    }
}
