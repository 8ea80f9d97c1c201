use praisechords::tokens::{device_hash, hash_reset_token, new_reset_token, to_hex_lower};

#[test]
fn reset_token_hash_is_the_sha256_hex_digest() {
    assert_eq!(
        hash_reset_token("abc"),
        "ba7816bf8f01cfea414140de5dae2223b00361a396177a9cb410ff61f20015ad"
    );
}

#[test]
fn device_hash_of_a_missing_user_agent_hashes_the_empty_text() {
    assert_eq!(
        device_hash(None),
        "e3b0c44298fc1c149afbf4c8996fb92427ae41e4649b934ca495991b7852b855"
    );
    assert_eq!(device_hash(Some("abc")), hash_reset_token("abc"));
}

#[test]
fn new_reset_tokens_are_64_lowercase_hex_digits_and_differ() {
    let a = new_reset_token().unwrap();
    let b = new_reset_token().unwrap();
    assert_eq!(a.len(), 64);
    assert!(a.chars().all(|c| c.is_ascii_digit() || ('a'..='f').contains(&c)));
    assert_ne!(a, b);
}

#[test]
fn hex_is_two_lowercase_digits_per_byte() {
    assert_eq!(to_hex_lower(&[0u8, 255, 16, 171]), "00ff10ab");
    assert_eq!(to_hex_lower(&[]), "");
}
