use nephila::blob::{lock_dir, lock_file_name, prepare_blob, LockfileError, SNIPPET_CAP};

#[test]
fn prepare_blob_hashes_and_clips_snippet() {
    let bytes = b"hello world".repeat(2000);
    let p = prepare_blob(&bytes);
    assert_eq!(p.original_len, bytes.len() as u64);
    assert_eq!(p.payload.len(), bytes.len());
    assert!(p.snippet.len() <= 8 * 1024);
    assert!(p.hash.len() == 64);
}

#[test]
fn prepare_blob_snippet_is_utf8_safe_at_boundary() {
    let mut bytes = Vec::with_capacity(8200);
    bytes.extend(std::iter::repeat_n(b'a', 8190));
    bytes.extend_from_slice("𝄞".as_bytes());
    bytes.extend(std::iter::repeat_n(b'b', 5));
    let p = prepare_blob(&bytes);
    assert!(p.snippet.is_ascii() || p.snippet.contains('𝄞') || p.snippet.ends_with('a'));
    assert_eq!(p.original_len, bytes.len() as u64);
}

#[test]
fn prepare_blob_idempotent_hash() {
    let p1 = prepare_blob(b"data");
    let p2 = prepare_blob(b"data");
    assert_eq!(p1.hash, p2.hash);
}

#[test]
fn prepare_blob_hash_is_blake3_hex_and_snippet_is_exact() {
    let p = prepare_blob(b"abc");
    assert_eq!(p.hash, blake3::hash(b"abc").to_hex().to_string());
    assert_eq!(p.snippet, "abc");
    assert_ne!(p.hash, prepare_blob(b"abd").hash);

    let mut bytes = vec![b'a'; 8190];
    bytes.extend_from_slice("𝄞".as_bytes());
    let p = prepare_blob(&bytes);
    assert_eq!(p.snippet, "a".repeat(8190));
    assert_eq!(SNIPPET_CAP, 8192);
}

#[test]
fn snippet_stops_before_invalid_bytes() {
    let p = prepare_blob(&[b'o', b'k', 0xff, b'x']);
    assert_eq!(p.snippet, "ok");
    assert_eq!(p.payload, vec![b'o', b'k', 0xff, b'x']);
}

#[test]
fn lock_file_name_is_hash_prefix_with_lock_suffix() {
    let name = lock_file_name("/work/project");
    let hex = blake3::hash(b"/work/project").to_hex().to_string();
    assert_eq!(name, format!("{}.lock", &hex[..16]));
    assert_ne!(lock_file_name("/work/a"), lock_file_name("/work/b"));
}

#[test]
fn lock_dir_is_under_home_or_an_error() {
    assert_eq!(lock_dir(Some("/home/u".into())).ok(), Some("/home/u/.nephila/locks".to_string()));
    assert_eq!(lock_dir(Some("/home/u/".into())).ok(), Some("/home/u/.nephila/locks".to_string()));
    match lock_dir(None) {
        Err(LockfileError::InvalidPath(m)) => assert_eq!(m, "$HOME unset"),
        other => panic!("expected InvalidPath, got {other:?}"),
    }
}
