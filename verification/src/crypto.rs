//! Trusted bindings to the cryptographic primitives: Ed25519 key decoding
//! and signature verification, SHA-256 digesting, and hexadecimal rendering.

use ed25519_dalek::Verifier;
use sha2::Digest;
use vstd::prelude::*;

verus! {

/// Whether 32 bytes encode a structurally valid Ed25519 verifying key;
/// names the outcome of `ed25519_dalek::VerifyingKey::from_bytes`, which
/// depends on the bytes alone.
pub uninterp spec fn key_is_valid(key: Seq<u8>) -> bool;

/// Whether the signature authenticates the message under the verifying key,
/// all three given as raw bytes; names the outcome of Ed25519 verification
/// (`ed25519_dalek::VerifyingKey::verify` after decoding the key), which
/// depends on the bytes alone.
pub uninterp spec fn sig_authentic(key: Seq<u8>, msg: Seq<u8>, sig: Seq<u8>) -> bool;

/// The SHA-256 digest of a byte sequence; names the outcome of
/// `sha2::Sha256::digest`, a pure function of its input.
pub uninterp spec fn sha256_of(data: Seq<u8>) -> Seq<u8>;

/// The sixteen lowercase hexadecimal digit characters, in value order.
pub open spec fn hex_digits() -> Seq<char> {
    seq!['0', '1', '2', '3', '4', '5', '6', '7', '8', '9', 'a', 'b', 'c', 'd', 'e', 'f']
}

/// The lowercase hexadecimal rendering of a byte sequence: two digits per
/// byte, high nibble first.
pub open spec fn hex_of(bytes: Seq<u8>) -> Seq<char> {
    Seq::new(
        bytes.len() * 2,
        |i: int|
            if i % 2 == 0 {
                hex_digits()[bytes[i / 2] as int / 16]
            } else {
                hex_digits()[bytes[i / 2] as int % 16]
            },
    )
}

/// Relies on `ed25519_dalek::VerifyingKey::from_bytes`: whether the bytes
/// decompress to a valid Edwards point is a function of the bytes alone.
#[verifier::external_body]
pub(crate) fn key_decode_ok(key: &Vec<u8>) -> (r: bool)
    requires
        key@.len() == 32,
    ensures
        r == key_is_valid(key@),
{
    let arr: [u8; 32] = match key.as_slice().try_into() {
        Ok(a) => a,
        Err(_) => return false,
    };
    ed25519_dalek::VerifyingKey::from_bytes(&arr).is_ok()
}

/// Relies on `ed25519_dalek::VerifyingKey::verify`, with
/// `VerifyingKey::from_bytes` and `Signature::from_bytes` turning the raw
/// bytes into the crate's types: Ed25519 verification is deterministic in
/// the key, message and signature bytes, and when the key bytes do not
/// decode no message verifies.
#[verifier::external_body]
pub(crate) fn ed25519_verify(key: &Vec<u8>, msg: &Vec<u8>, sig: &Vec<u8>) -> (r: bool)
    requires
        key@.len() == 32,
        sig@.len() == 64,
    ensures
        r == (key_is_valid(key@) && sig_authentic(key@, msg@, sig@)),
{
    let ka: [u8; 32] = match key.as_slice().try_into() {
        Ok(a) => a,
        Err(_) => return false,
    };
    let sa: [u8; 64] = match sig.as_slice().try_into() {
        Ok(a) => a,
        Err(_) => return false,
    };
    let vk = match ed25519_dalek::VerifyingKey::from_bytes(&ka) {
        Ok(k) => k,
        Err(_) => return false,
    };
    vk.verify(msg.as_slice(), &ed25519_dalek::Signature::from_bytes(&sa)).is_ok()
}

/// Relies on `sha2::Sha256::digest`: SHA-256 is a pure function of its
/// input and always yields exactly 32 bytes.
#[verifier::external_body]
pub(crate) fn sha256(data: &Vec<u8>) -> (r: Vec<u8>)
    ensures
        r@ == sha256_of(data@),
        r@.len() == 32,
{
    sha2::Sha256::digest(data.as_slice()).to_vec()
}

/// Relies on `hex::encode`: each byte becomes two lowercase hexadecimal
/// digits, high nibble first.
#[verifier::external_body]
pub(crate) fn hex_lower(bytes: &Vec<u8>) -> (r: String)
    ensures
        r@ == hex_of(bytes@),
{
    hex::encode(bytes.as_slice())
}

} // verus!
