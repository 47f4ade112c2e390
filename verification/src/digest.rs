//! The audit digest: SHA-256 of the firmware bytes, rendered as a lowercase
//! hexadecimal string for the audit trail. The digest is logged only; it
//! takes no part in the verification decision.

use crate::crypto::hex_lower;
use crate::crypto::hex_of;
use crate::crypto::sha256;
use crate::crypto::sha256_of;
use vstd::prelude::*;

verus! {

/// The audit digest of a byte sequence: its SHA-256 digest as lowercase
/// hexadecimal.
pub open spec fn digest_hex_of(data: Seq<u8>) -> Seq<char> {
    hex_of(sha256_of(data))
}

/// Hash the firmware bytes for the audit trail: 64 lowercase hexadecimal
/// digits.
pub fn calculate_hash(data: &Vec<u8>) -> (r: String)
    ensures
        r@ == digest_hex_of(data@),
        r@.len() == 64,
{
    let digest = sha256(data);
    hex_lower(&digest)
}

/// The digest is pure and deterministic: equal firmware bytes always render
/// to the identical hexadecimal string, whatever else differs between the
/// two computations.
pub proof fn lemma_digest_deterministic(a: Seq<u8>, b: Seq<u8>)
    requires
        a == b,
    ensures
        digest_hex_of(a) == digest_hex_of(b),
{
}

} // verus!
