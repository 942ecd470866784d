use base64::Engine;
use rsa::pkcs8::EncodePrivateKey;
use rsa::traits::PublicKeyParts;
use shloss::error::CryptoError;
use shloss::jwt::Jwks;

#[test]
fn jwks_publishes_modulus_and_exponent() {
    let mut rng = rsa::rand_core::OsRng;
    let key = rsa::RsaPrivateKey::new(&mut rng, 1024).unwrap();
    let pem = key.to_pkcs8_pem(rsa::pkcs8::LineEnding::LF).unwrap();
    let jwks = Jwks::from_private_pem(&pem).unwrap();
    assert_eq!(jwks.keys.len(), 1);
    let k = &jwks.keys[0];
    assert_eq!(k.kty, "RSA");
    assert_eq!(k.alg, "RS256");
    assert_eq!(k.use_, "sig");
    assert_eq!(k.kid, "1");
    assert_eq!(k.e, "AQAB");
    let n = base64::engine::general_purpose::URL_SAFE_NO_PAD.decode(&k.n).unwrap();
    assert_eq!(n, key.n().to_bytes_be());
}

#[test]
fn jwks_refuses_non_pem() {
    assert!(matches!(Jwks::from_private_pem("not a key"), Err(CryptoError::Jwt)));
}

#[test]
fn public_parts_are_published_in_url_safe_base64() {
    let jwks = Jwks::from_public_parts(&[0xfb, 0xff], &[1, 0, 1]);
    assert_eq!(jwks.keys.len(), 1);
    let k = &jwks.keys[0];
    assert_eq!(k.n, "-_8");
    assert_eq!(k.e, "AQAB");
    assert_eq!(k.kty, "RSA");
    assert_eq!(k.alg, "RS256");
    assert_eq!(k.use_, "sig");
    assert_eq!(k.kid, "1");
}
