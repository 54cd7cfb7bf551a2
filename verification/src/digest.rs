//! Password digests: SHA3-256 over salt and password, written in
//! hexadecimal.

use vstd::prelude::*;

verus! {

/// The SHA3-256 digest of a message, as the `sha3` crate computes it.
pub uninterp spec fn sha3_256(message: Seq<u8>) -> Seq<u8>;

/// Calls `sha3::Sha3_256::digest`, which hashes the whole message at once.
#[verifier::external_body]
pub(crate) fn sha3_256_digest(message: &[u8]) -> (r: Vec<u8>)
    ensures
        r@ == sha3_256(message@),
{
    <sha3::Sha3_256 as sha3::Digest>::digest(message).to_vec()
}

/// The hexadecimal digit for a value below sixteen, in lower case.
pub open spec fn hex_digit(value: int) -> char {
    seq!['0', '1', '2', '3', '4', '5', '6', '7', '8', '9', 'a', 'b', 'c', 'd', 'e', 'f'][value]
}

/// Bytes written in hexadecimal: two lower-case digits for each byte, the
/// high half first.
pub open spec fn hex_text(bytes: Seq<u8>) -> Seq<char> {
    Seq::new(
        2 * bytes.len(),
        |i: int|
            if i % 2 == 0 {
                hex_digit(bytes[i / 2] as int / 16)
            } else {
                hex_digit(bytes[i / 2] as int % 16)
            },
    )
}

/// Calls `hex::encode`, which writes each byte as two lower-case
/// hexadecimal digits.
#[verifier::external_body]
pub(crate) fn hex_encode(bytes: &[u8]) -> (r: String)
    ensures
        r@ == hex_text(bytes@),
{
    hex::encode(bytes)
}

/// The digest that is stored for a password: the SHA3-256 of the salt
/// followed by the password, both as UTF-8, in hexadecimal.
pub open spec fn salted_digest(salt: Seq<char>, password: Seq<char>) -> Seq<char> {
    hex_text(sha3_256(vstd::utf8::encode_utf8(salt + password)))
}

/// Computes the digest that is stored for a password.
pub fn salted_password(salt: &str, password: &str) -> (r: String)
    ensures
        r@ == salted_digest(salt@, password@),
{
    let mut text = salt.to_owned();
    text.append(password);
    let digest = sha3_256_digest(text.as_str().as_bytes());
    hex_encode(digest.as_slice())
}

/// The SHA3-256 digest of a message, as the `tiny_keccak` crate computes
/// it.
pub uninterp spec fn keccak_sha3_256(message: Seq<u8>) -> Seq<u8>;

/// Feeds two pieces, one after the other, to a `tiny_keccak::Sha3::v256`
/// hasher and finalizes it: the digest of the two pieces put together, 32
/// bytes long.
#[verifier::external_body]
pub(crate) fn keccak_digest(first: &[u8], second: &[u8]) -> (r: Vec<u8>)
    ensures
        r@ == keccak_sha3_256(first@ + second@),
        r@.len() == 32,
{
    let mut hasher = tiny_keccak::Sha3::v256();
    let mut output = [0u8; 32];
    tiny_keccak::Hasher::update(&mut hasher, first);
    tiny_keccak::Hasher::update(&mut hasher, second);
    tiny_keccak::Hasher::finalize(hasher, &mut output);
    output.to_vec()
}

/// The digest that a login computes for a password: the SHA3-256 of the
/// salt's bytes followed by the password's, in hexadecimal.
pub open spec fn login_digest(salt: Seq<char>, password: Seq<char>) -> Seq<char> {
    hex_text(keccak_sha3_256(vstd::utf8::encode_utf8(salt) + vstd::utf8::encode_utf8(password)))
}

/// Computes the digest of a password at login.
pub fn login_password(salt: &str, password: &str) -> (r: String)
    ensures
        r@ == login_digest(salt@, password@),
        r@.len() == 64,
{
    let digest = keccak_digest(salt.as_bytes(), password.as_bytes());
    hex_encode(digest.as_slice())
}

} // verus!
