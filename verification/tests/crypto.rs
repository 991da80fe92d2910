use base64::Engine;
use chatter::crypto::{
    generate_token, hash_password, hash_password_with_salt, scrub, token_from_bytes,
    verify_password, Rejected, MAX_SALT_BYTES, MIN_SALT_BYTES, SALT_BYTES, TOKEN_BYTES,
    TOKEN_CHARS,
};
use std::collections::HashSet;

const PHC_PREFIX: &str = "$argon2id$v=19$m=19456,t=2,p=1$";

#[test]
fn hashed_password_verifies() {
    let hashed = hash_password(b"pw1");
    assert_eq!(verify_password(b"pw1", &hashed), Ok(()));
}

#[test]
fn empty_password_hashes_and_verifies() {
    let hashed = hash_password(b"");
    assert_eq!(verify_password(b"", &hashed), Ok(()));
    assert_eq!(verify_password(b"x", &hashed), Err(Rejected));
}

#[test]
fn hashing_twice_gives_two_strings_that_both_verify() {
    let first = hash_password(b"correct horse");
    let second = hash_password(b"correct horse");
    assert_ne!(first, second);
    assert_eq!(verify_password(b"correct horse", &first), Ok(()));
    assert_eq!(verify_password(b"correct horse", &second), Ok(()));
}

#[test]
fn another_password_is_rejected() {
    let hashed = hash_password(b"pw2");
    assert_eq!(verify_password(b"pw1", &hashed), Err(Rejected));
    assert_eq!(verify_password(b"pw2 ", &hashed), Err(Rejected));
    assert_eq!(verify_password(b"", &hashed), Err(Rejected));
}

#[test]
fn hash_is_a_self_describing_string() {
    let hashed = hash_password(b"pw1");
    assert!(hashed.starts_with(PHC_PREFIX));
    let fields: Vec<&str> = hashed.split('$').collect();
    assert_eq!(fields.len(), 6);
    assert_eq!(fields[1], "argon2id");
    assert_eq!(fields[2], "v=19");
    assert_eq!(fields[3], "m=19456,t=2,p=1");
    assert_eq!(fields[4].len(), 22);
    assert_eq!(fields[5].len(), 43);
}

#[test]
fn hash_under_a_given_salt_is_fixed_by_password_and_salt() {
    let salt = [0u8; SALT_BYTES];
    let first = hash_password_with_salt(b"pw1", &salt);
    let again = hash_password_with_salt(b"pw1", &salt);
    assert_eq!(first, again);
    assert!(first.starts_with("$argon2id$v=19$m=19456,t=2,p=1$AAAAAAAAAAAAAAAAAAAAAA$"));
    assert_eq!(first.len(), PHC_PREFIX.len() + 22 + 1 + 43);
    assert_ne!(first.as_bytes(), &b"pw1"[..]);
    assert_eq!(verify_password(b"pw1", &first), Ok(()));

    let other_salt = [1u8; SALT_BYTES];
    let salted = hash_password_with_salt(b"pw1", &other_salt);
    assert_ne!(first, salted);
    assert_eq!(verify_password(b"pw1", &salted), Ok(()));

    let other_password = hash_password_with_salt(b"pw2", &salt);
    assert_ne!(first, other_password);
    assert_eq!(verify_password(b"pw1", &other_password), Err(Rejected));
}

#[test]
fn shortest_and_longest_salt_are_taken() {
    let short = vec![7u8; MIN_SALT_BYTES];
    let hashed = hash_password_with_salt(b"pw", &short);
    assert_eq!(verify_password(b"pw", &hashed), Ok(()));
    let long = vec![9u8; MAX_SALT_BYTES];
    let hashed = hash_password_with_salt(b"pw", &long);
    assert_eq!(hashed.split('$').nth(4).map(|salt| salt.len()), Some(64));
    assert_eq!(verify_password(b"pw", &hashed), Ok(()));
}

#[test]
fn string_that_is_no_hash_is_rejected() {
    assert_eq!(verify_password(b"pw1", ""), Err(Rejected));
    assert_eq!(verify_password(b"pw1", "pw1"), Err(Rejected));
    assert_eq!(verify_password(b"pw1", "not a hash"), Err(Rejected));
    assert_eq!(verify_password(b"pw1", "$argon2id$v=19$m=19456,t=2,p=1$"), Err(Rejected));
}

#[test]
fn hash_that_was_tampered_with_is_rejected() {
    let hashed = hash_password_with_salt(b"pw1", &[3u8; SALT_BYTES]);
    let mut tampered = hashed.clone();
    let last = tampered.pop().unwrap();
    tampered.push(if last == 'A' { 'B' } else { 'A' });
    assert_eq!(verify_password(b"pw1", &tampered), Err(Rejected));
    let truncated = &hashed[..hashed.len() - 10];
    assert_eq!(verify_password(b"pw1", truncated), Err(Rejected));
}

#[test]
fn token_of_zero_bytes() {
    let token = token_from_bytes(&[0u8; TOKEN_BYTES]);
    assert_eq!(token, "A".repeat(86));
}

#[test]
fn token_uses_the_url_safe_alphabet_without_padding() {
    let mut bytes = Vec::new();
    for _ in 0..21 {
        bytes.extend_from_slice(&[0xfb, 0xff, 0xbf]);
    }
    bytes.push(0xff);
    assert_eq!(bytes.len(), TOKEN_BYTES);
    let token = token_from_bytes(&bytes);
    assert_eq!(token, format!("{}_w", "-_-_".repeat(21)));
    assert_eq!(token.len(), TOKEN_CHARS);
}

#[test]
fn token_of_known_bytes() {
    let bytes: Vec<u8> = (0u8..64).collect();
    let token = token_from_bytes(&bytes);
    assert_eq!(
        token,
        "AAECAwQFBgcICQoLDA0ODxAREhMUFRYXGBkaGxwdHh8gISIjJCUmJygpKissLS4vMDEyMzQ1Njc4OTo7PD0-Pw"
    );
    let decoded = base64::prelude::BASE64_URL_SAFE_NO_PAD.decode(&token).unwrap();
    assert_eq!(decoded, bytes);
}

#[test]
fn fresh_token_has_the_shape_of_a_token() {
    let token = generate_token();
    assert_eq!(token.len(), TOKEN_CHARS);
    assert!(token
        .chars()
        .all(|c| c.is_ascii_alphanumeric() || c == '-' || c == '_'));
    let decoded = base64::prelude::BASE64_URL_SAFE_NO_PAD.decode(&token).unwrap();
    assert_eq!(decoded.len(), TOKEN_BYTES);
    assert_eq!(token_from_bytes(&decoded), token);
}

#[test]
fn ten_thousand_tokens_are_distinct_and_hold_64_bytes() {
    let mut seen = HashSet::new();
    for _ in 0..10_000 {
        let token = generate_token();
        let decoded = base64::prelude::BASE64_URL_SAFE_NO_PAD.decode(&token).unwrap();
        assert_eq!(decoded.len(), 64);
        assert!(seen.insert(token));
    }
    assert_eq!(seen.len(), 10_000);
}

#[test]
fn scrub_leaves_the_buffer_empty() {
    let mut password = b"pw1".to_vec();
    scrub(&mut password);
    assert!(password.is_empty());
    let mut nothing: Vec<u8> = Vec::new();
    scrub(&mut nothing);
    assert!(nothing.is_empty());
}
