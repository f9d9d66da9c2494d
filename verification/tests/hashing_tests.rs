use udrb::hashing::{bytes_to_hash, decode_artifact};

#[test]
fn hash_is_deterministic() {
    let a = bytes_to_hash(b"some payload");
    let b = bytes_to_hash(b"some payload");
    assert_eq!(a, b);
}

#[test]
fn hash_differs_for_different_payloads() {
    let a = bytes_to_hash(b"payload one");
    let b = bytes_to_hash(b"payload two");
    assert_ne!(a, b);
}

#[test]
fn hash_is_64_hex_chars() {
    let h = bytes_to_hash(b"x");
    assert_eq!(h.len(), 64);
    assert!(h.chars().all(|c| c.is_ascii_hexdigit() && !c.is_ascii_uppercase()));
}

#[test]
fn hash_matches_reference_digest() {
    let h = bytes_to_hash(b"hello");
    let expected = hex::encode(<sha3::Sha3_256 as sha3::Digest>::digest(b"hello"));
    assert_eq!(h, expected);
}

#[test]
fn decode_artifact_decodes_and_names() {
    let a = decode_artifact("aGVsbG8=", ".pdf").expect("valid base64");
    assert_eq!(a.bytes, b"hello");
    let expected_name = format!("{}.pdf", bytes_to_hash(b"hello"));
    assert_eq!(a.filename, expected_name);
}

#[test]
fn decode_artifact_rejects_invalid_base64() {
    assert!(decode_artifact("not base64 at all!", ".png").is_none());
}

#[test]
fn same_payload_twice_same_filename() {
    let a = decode_artifact("aGVsbG8=", ".png").unwrap();
    let b = decode_artifact("aGVsbG8=", ".png").unwrap();
    assert_eq!(a.filename, b.filename);
    assert_eq!(a.bytes, b.bytes);
}

#[test]
fn empty_payload_hashes_like_reference() {
    let h = bytes_to_hash(b"");
    let expected = hex::encode(<sha3::Sha3_256 as sha3::Digest>::digest(b""));
    assert_eq!(h, expected);
    assert_eq!(h.len(), 64);
}

#[test]
fn decode_artifact_of_empty_payload() {
    let a = decode_artifact("", ".pdf").expect("empty base64 decodes to no bytes");
    assert!(a.bytes.is_empty());
    assert_eq!(a.filename, format!("{}.pdf", bytes_to_hash(b"")));
}
