//! The guarantees of the boot gate, stated once over the sequencer's model:
//! authentic firmware is accepted, everything else halts, missing artifacts
//! halt before verification, and length checks precede key decoding.

use crate::config::load_error;
use crate::config::BootError;
use crate::crypto::key_is_valid;
use crate::crypto::sig_authentic;
use crate::sequencer::boot_log;
use crate::sequencer::boot_outcome;
use crate::sequencer::BootOutcome;
use crate::sequencer::LogEntry;
use vstd::prelude::*;

verus! {

/// Every triple whose 32-byte key decodes, whose signature holds 64 bytes,
/// and whose signature authenticates the firmware under the key is
/// accepted, and the audit trail records the successful verification.
pub proof fn lemma_authentic_firmware_accepted(k: Seq<u8>, f: Seq<u8>, s: Seq<u8>)
    requires
        k.len() == 32,
        s.len() == 64,
        key_is_valid(k),
        sig_authentic(k, f, s),
    ensures
        boot_outcome(Some(k), Some(f), Some(s)) == BootOutcome::Accepted,
        boot_log(Some(k), Some(f), Some(s)).contains(LogEntry::VerificationSucceeded),
{
    assert(boot_log(Some(k), Some(f), Some(s))[2] == LogEntry::VerificationSucceeded);
}

/// Every triple that loads — 32-byte decodable key, 64-byte signature —
/// but whose signature does not authenticate the firmware (a wrong key, a
/// tampered image, or corrupted signature bytes of the right length) halts,
/// and the audit trail records the failed verification.
pub proof fn lemma_unauthentic_firmware_halted(k: Seq<u8>, f: Seq<u8>, s: Seq<u8>)
    requires
        k.len() == 32,
        s.len() == 64,
        key_is_valid(k),
        !sig_authentic(k, f, s),
    ensures
        boot_outcome(Some(k), Some(f), Some(s)) == BootOutcome::Halted,
        boot_log(Some(k), Some(f), Some(s)).contains(LogEntry::VerificationFailed),
{
    assert(boot_log(Some(k), Some(f), Some(s))[2] == LogEntry::VerificationFailed);
}

/// When any artifact is missing or unreadable — and the checks before it
/// pass, so that the missing read is the first failing check — the
/// sequencer halts with an I/O load failure in the audit trail, and no
/// verification entry, of either kind, is ever emitted.
pub proof fn lemma_missing_artifact_halts_before_verification(
    key: Option<Seq<u8>>,
    firmware: Option<Seq<u8>>,
    signature: Option<Seq<u8>>,
)
    requires
        key is None || firmware is None || signature is None,
        key matches Some(k) ==> k.len() == 32 && key_is_valid(k),
    ensures
        boot_outcome(key, firmware, signature) == BootOutcome::Halted,
        boot_log(key, firmware, signature).len() == 2,
        boot_log(key, firmware, signature)[1] matches LogEntry::LoadFailed(e) && e is IoError,
        forall|i: int|
            0 <= i < boot_log(key, firmware, signature).len()
                ==> !(#[trigger] boot_log(key, firmware, signature)[i] is VerificationSucceeded)
                && !(boot_log(key, firmware, signature)[i] is VerificationFailed),
{
}

/// A public key file that does not hold exactly 32 bytes is rejected as
/// malformed whatever the bytes are and whatever the other artifacts hold:
/// the length check precedes any cryptographic decoding.
pub proof fn lemma_key_length_checked_before_decode(
    k: Seq<u8>,
    firmware: Option<Seq<u8>>,
    signature: Option<Seq<u8>>,
)
    requires
        k.len() != 32,
    ensures
        load_error(Some(k), firmware, signature) == Some(BootError::MalformedKey),
        boot_outcome(Some(k), firmware, signature) == BootOutcome::Halted,
{
}

/// A signature file that does not hold exactly 64 bytes is rejected as
/// malformed, whatever its bytes are, once the checks before it pass.
pub proof fn lemma_signature_length_rejected(k: Seq<u8>, f: Seq<u8>, s: Seq<u8>)
    requires
        k.len() == 32,
        key_is_valid(k),
        s.len() != 64,
    ensures
        load_error(Some(k), Some(f), Some(s)) == Some(BootError::MalformedSignature),
        boot_outcome(Some(k), Some(f), Some(s)) == BootOutcome::Halted,
{
}

} // verus!
