use attendance::crypto::{hash_password, verify_password};
use sha2::Digest;

#[test]
fn hash_password_is_the_hex_of_the_sha256_digest() {
    assert_eq!(hash_password("password"), "5e884898da28047151d0e56f8dc6292773603d0d6aabbdd62a11ef721d1542d8");
    assert_eq!(hash_password(""), "e3b0c44298fc1c149afbf4c8996fb92427ae41e4649b934ca495991b7852b855");
    assert_eq!(hash_password("abc"), "ba7816bf8f01cfea414140de5dae2223b00361a396177a9cb410ff61f20015ad");
}

#[test]
fn hash_password_takes_the_utf8_bytes() {
    let expected = hex::encode(sha2::Sha256::digest("密码".as_bytes()));
    assert_eq!(hash_password("密码"), expected);
    assert_eq!(hash_password("密码").len(), 64);
}

#[test]
fn verify_password_compares_with_the_stored_form() {
    let stored = hash_password("correct horse");
    assert!(verify_password("correct horse", &stored));
    assert!(!verify_password("correct horse ", &stored));
    assert!(!verify_password("correct horse", &stored.to_uppercase()));
    assert!(!verify_password("correct horse", "correct horse"));
    assert!(!verify_password("", ""));
}
