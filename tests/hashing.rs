use htlc_engine::{
    generate_lock_id, hash_preimage, sha256_hash, to_array, verify_preimage,
    verify_preimage_hash, HtlcError,
};

#[test]
fn sha256_of_known_inputs() {
    assert_eq!(
        sha256_hash(""),
        "e3b0c44298fc1c149afbf4c8996fb92427ae41e4649b934ca495991b7852b855"
    );
    assert_eq!(
        hash_preimage("secret".to_string()),
        "2bb80d537b1da3e38bd30361aa855686bde0eacd7162fef6a25fe97bf527a25b"
    );
}

#[test]
fn verify_preimage_matches_digest_only() {
    let h = sha256_hash("secret");
    assert!(verify_preimage("secret", &h));
    assert!(!verify_preimage("secreu", &h));
    assert!(!verify_preimage("Secret", &h));
    assert!(!verify_preimage("secret", &h.to_uppercase()));
    assert!(verify_preimage_hash("secret".to_string(), h.clone()));
    assert!(!verify_preimage_hash("wrong".to_string(), h));
}

#[test]
fn lock_id_is_deterministic_and_field_sensitive() {
    let h = sha256_hash("secret");
    let a = generate_lock_id("alice", "bob", 100, &h, 5000);
    let b = generate_lock_id("alice", "bob", 100, &h, 5000);
    assert_eq!(a, b);
    assert_eq!(a.len(), 64);
    assert!(a.chars().all(|c| c.is_ascii_hexdigit() && !c.is_ascii_uppercase()));
    assert_ne!(a, generate_lock_id("alice", "bob", 101, &h, 5000));
    assert_ne!(a, generate_lock_id("alice", "bob", 100, &h, 5001));
    assert_ne!(a, generate_lock_id("alicf", "bob", 100, &h, 5000));
}

#[test]
fn lock_id_hashes_little_endian_concatenation() {
    // sender "" + receiver "" + amount 0 + hashlock "" + timelock 0 is sixteen zero bytes.
    let id = generate_lock_id("", "", 0, "", 0);
    let zeros = String::from_utf8(vec![0u8; 16]).unwrap();
    assert_eq!(id, sha256_hash(&zeros));
    let one = generate_lock_id("", "", 1, "", 0);
    let mut bytes = vec![0u8; 16];
    bytes[0] = 1;
    assert_eq!(one, sha256_hash(&String::from_utf8(bytes).unwrap()));
}

#[test]
fn error_messages() {
    assert_eq!(HtlcError::EmptyField.message(), "Receiver cannot be empty");
    assert_eq!(HtlcError::TimelockExpired.message(), "Timelock has expired");
    assert_eq!(HtlcError::TimelockNotExpired.message(), "Timelock has not expired yet");
    assert_eq!(HtlcError::AlreadyRefunded.message(), "Already refunded");
}

#[test]
fn to_array_keeps_order() {
    let v: Vec<u8> = (0..32).collect();
    let a = to_array(v);
    assert_eq!(a[0], 0);
    assert_eq!(a[31], 31);
}
