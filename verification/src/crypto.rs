//! Password digests: the lower-case hexadecimal text of the SHA-256 digest of
//! a password's UTF-8 bytes.

use sha2::Digest;
use vstd::prelude::*;

verus! {

/// The lower-case hexadecimal digit of a value below 16.
pub open spec fn hex_digit(nibble: int) -> char {
    if nibble < 10 {
        ('0' as int + nibble) as char
    } else {
        ('a' as int + nibble - 10) as char
    }
}

/// Two lower-case hexadecimal digits for each byte, the high half first.
pub open spec fn hex_lower(bytes: Seq<u8>) -> Seq<char> {
    Seq::new(
        2 * bytes.len(),
        |i: int|
            if i % 2 == 0 {
                hex_digit(bytes[i / 2] as int / 16)
            } else {
                hex_digit(bytes[i / 2] as int % 16)
            },
    )
}

/// The SHA-256 digest of a byte string.
pub uninterp spec fn sha256_digest(data: Seq<u8>) -> Seq<u8>;

/// The stored form of a password.
pub open spec fn password_digest(password: Seq<char>) -> Seq<char> {
    hex_lower(sha256_digest(vstd::utf8::encode_utf8(password)))
}

/// `Digest::digest` of sha2's `Sha256`: the digest of the bytes, which is 32
/// bytes long.
#[verifier::external_body]
fn sha256(data: &[u8]) -> (digest: Vec<u8>)
    ensures
        digest@ == sha256_digest(data@),
        digest@.len() == 32,
{
    sha2::Sha256::digest(data).to_vec()
}

/// `hex::encode`: two lower-case hexadecimal digits for each byte.
#[verifier::external_body]
fn hex_encode(bytes: &[u8]) -> (text: String)
    ensures
        text@ == hex_lower(bytes@),
{
    hex::encode(bytes)
}

/// The stored form of a password: 64 hexadecimal digits.
pub fn hash_password(password: &str) -> (hash: String)
    ensures
        hash@ == password_digest(password@),
        hash@.len() == 64,
{
    let digest = sha256(password.as_bytes());
    hex_encode(digest.as_slice())
}

/// Whether a stored form is that of the password.
pub fn verify_password(password: &str, hash: &str) -> (matches: bool)
    ensures
        matches == (password_digest(password@) == hash@),
{
    let computed = hash_password(password);
    let stored = hash.to_owned();
    computed == stored
}

} // verus!
