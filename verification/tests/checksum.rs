use harbor_core::checksum::sha256_hex;

#[test]
fn test_sha256_empty() {
    let hash = sha256_hex(b"");
    assert_eq!(hash, "sha256:e3b0c44298fc1c149afbf4c8996fb92427ae41e4649b934ca495991b7852b855");
}

#[test]
fn test_sha256_abc() {
    let hash = sha256_hex(b"abc");
    assert_eq!(hash, "sha256:ba7816bf8f01cfea414140de5dae2223b00361a396177a9cb410ff61f20015ad");
}

#[test]
fn checksum_text_has_fixed_shape() {
    let hash = sha256_hex(b"hello world");
    assert_eq!(hash.len(), 71);
    assert!(hash.starts_with("sha256:"));
    assert!(hash[7..].chars().all(|c| c.is_ascii_digit() || ('a'..='f').contains(&c)));
}
