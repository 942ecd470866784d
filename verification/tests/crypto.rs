use shloss::crypto::{
    api_key_from_secret, generate_api_key, generate_secret, generate_token, hash_password,
    hash_password_with_salt, hash_secret, hex_lowercase, password_check_result, verify_password,
    GeneratedToken,
};
use shloss::error::CryptoError;

#[test]
fn hash_secret_is_lowercase_hex_sha256() {
    assert_eq!(
        hash_secret("hello"),
        "2cf24dba5fb0a30e26e83b2ac5b9e29e1b161e5c1fa7425e73043362938b9824"
    );
    assert_eq!(
        hash_secret(""),
        "e3b0c44298fc1c149afbf4c8996fb92427ae41e4649b934ca495991b7852b855"
    );
}

#[test]
fn hash_secret_hashes_utf8_bytes() {
    // "é" is hashed as its two UTF-8 bytes c3 a9
    assert_eq!(
        hash_secret("é"),
        "4a99557e4033c3539de2eb65472017cad5f9557f7a0625a09f1c3f6e2ba69c4c"
    );
}

#[test]
fn generated_secret_is_32_bytes_of_hex() {
    let s = generate_secret().unwrap();
    assert_eq!(s.len(), 64);
    assert!(s.chars().all(|c| c.is_ascii_digit() || ('a'..='f').contains(&c)));
    assert_ne!(s, generate_secret().unwrap());
}

#[test]
fn generated_token_hash_matches_raw() {
    let t = generate_token().unwrap();
    assert_eq!(t.hash, hash_secret(&t.raw));
    assert_eq!(t.raw.len(), 64);
    assert_ne!(t.raw, t.hash);
}

#[test]
fn api_key_has_prefix_and_hash() {
    let k = generate_api_key("prod".to_string()).unwrap();
    assert!(k.full_key.starts_with("prod_"));
    assert_eq!(k.full_key.len(), "prod_".len() + 64);
    assert_eq!(k.hash, hash_secret(&k.full_key));
}

#[test]
fn password_hash_verifies_only_that_password() {
    let h = hash_password("hunter2").unwrap();
    assert!(h.starts_with("$argon2id$"));
    assert_eq!(verify_password("hunter2", &h), Ok(true));
    assert_eq!(verify_password("hunter3", &h), Ok(false));
    let h2 = hash_password("hunter2").unwrap();
    assert_ne!(h, h2, "each hash has its own salt");
}

#[test]
fn malformed_password_hash_is_an_error() {
    assert_eq!(verify_password("x", "not a hash"), Err(CryptoError::PasswordVerify));
    assert_eq!(verify_password("x", ""), Err(CryptoError::PasswordVerify));
}

#[test]
fn hex_is_lowercase_high_nibble_first() {
    assert_eq!(hex_lowercase(&[0xde, 0xad, 0x00, 0x0f, 0xa0]), "dead000fa0");
    assert_eq!(hex_lowercase(&[]), "");
}

#[test]
fn token_from_raw_carries_its_hash() {
    let t = GeneratedToken::from_raw("abc".to_string());
    assert_eq!(t.raw, "abc");
    assert_eq!(t.hash, "ba7816bf8f01cfea414140de5dae2223b00361a396177a9cb410ff61f20015ad");
}

#[test]
fn api_key_from_secret_joins_prefix_and_secret() {
    let k = api_key_from_secret("prod".to_string(), "s3cret");
    assert_eq!(k.full_key, "prod_s3cret");
    assert_eq!(k.hash, hash_secret("prod_s3cret"));
}

#[test]
fn password_hash_under_a_given_salt_is_reproducible() {
    let salt = [7u8; 16];
    let a = hash_password_with_salt("hunter2", &salt).unwrap();
    let b = hash_password_with_salt("hunter2", &salt).unwrap();
    assert_eq!(a, b);
    assert!(a.starts_with("$argon2id$"));
    assert_eq!(verify_password("hunter2", &a), Ok(true));
    assert_ne!(a, hash_password_with_salt("hunter3", &salt).unwrap());
}

#[test]
fn too_short_or_too_long_salt_is_a_hash_error() {
    assert_eq!(hash_password_with_salt("pw", &[1u8; 4]), Err(CryptoError::PasswordHash));
    assert_eq!(hash_password_with_salt("pw", &[1u8; 60]), Err(CryptoError::PasswordHash));
}

#[test]
fn password_check_result_reads_the_verdict() {
    assert_eq!(password_check_result(Some(true)), Ok(true));
    assert_eq!(password_check_result(Some(false)), Ok(false));
    assert_eq!(password_check_result(None), Err(CryptoError::PasswordVerify));
}
