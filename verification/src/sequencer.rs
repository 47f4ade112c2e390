//! The control sequencer: load, hash and log, verify, then accept or halt.
//! The whole machine resolves in at most two transitions; there are no
//! cycles and no retries.

use crate::config::load_error;
use crate::config::load_secure_boot_config;
use crate::config::opt_bytes;
use crate::config::BootError;
use crate::crypto::sig_authentic;
use crate::digest::calculate_hash;
use crate::digest::digest_hex_of;
use crate::verify::verify_firmware;
use vstd::prelude::*;

verus! {

/// The terminal state of a boot attempt.
#[derive(Clone, Copy, Debug, PartialEq, Eq, Structural)]
pub enum BootOutcome {
    /// The signature authenticates the firmware: control may pass to it.
    Accepted,
    /// Loading or verification failed: the boot sequence stops.
    Halted,
}

/// One structured line of the audit trail, in the order the sequencer emits
/// them. The hexadecimal string behind `FirmwareDigest` stands in
/// `BootReport::digest`.
#[derive(Clone, Copy, Debug, PartialEq, Eq, Structural)]
pub enum LogEntry {
    /// Info: the boot process started.
    Started,
    /// Error: the loader failed with the given error.
    LoadFailed(BootError),
    /// Info: the firmware digest was computed for the audit trail.
    FirmwareDigest,
    /// Info: signature verification succeeded.
    VerificationSucceeded,
    /// Error: signature verification failed.
    VerificationFailed,
    /// Error: the boot process halts.
    HaltNotice,
    /// Info: secure boot verification passed.
    BootAccepted,
    /// Info: control passes to the verified firmware.
    ControlHandoff,
}

/// Everything a boot attempt produces: the outcome, the audit digest where
/// the loader succeeded, and the audit trail.
#[derive(Debug)]
pub struct BootReport {
    pub outcome: BootOutcome,
    pub digest: Option<String>,
    pub log: Vec<LogEntry>,
}

/// Whether a boot attempt on these read results is accepted: every load
/// check passes and the signature authenticates the firmware under the key.
pub open spec fn boot_accepted(
    key: Option<Seq<u8>>,
    firmware: Option<Seq<u8>>,
    signature: Option<Seq<u8>>,
) -> bool {
    &&& load_error(key, firmware, signature) is None
    &&& (key matches Some(k) && firmware matches Some(f) && signature matches Some(s)
        && sig_authentic(k, f, s))
}

/// The terminal state the sequencer reaches on these read results.
pub open spec fn boot_outcome(
    key: Option<Seq<u8>>,
    firmware: Option<Seq<u8>>,
    signature: Option<Seq<u8>>,
) -> BootOutcome {
    if boot_accepted(key, firmware, signature) {
        BootOutcome::Accepted
    } else {
        BootOutcome::Halted
    }
}

/// The audit trail the sequencer emits on these read results.
pub open spec fn boot_log(
    key: Option<Seq<u8>>,
    firmware: Option<Seq<u8>>,
    signature: Option<Seq<u8>>,
) -> Seq<LogEntry> {
    match load_error(key, firmware, signature) {
        Some(e) => seq![LogEntry::Started, LogEntry::LoadFailed(e)],
        None => if boot_accepted(key, firmware, signature) {
            seq![
                LogEntry::Started,
                LogEntry::FirmwareDigest,
                LogEntry::VerificationSucceeded,
                LogEntry::BootAccepted,
                LogEntry::ControlHandoff,
            ]
        } else {
            seq![
                LogEntry::Started,
                LogEntry::FirmwareDigest,
                LogEntry::VerificationFailed,
                LogEntry::HaltNotice,
            ]
        },
    }
}

/// Run the whole sequence on the three read results: load, hash the
/// firmware for the audit trail, verify the signature, and accept or halt.
pub fn run_secure_boot(
    pub_key: Option<Vec<u8>>,
    firmware: Option<Vec<u8>>,
    signature: Option<Vec<u8>>,
) -> (r: BootReport)
    ensures
        r.outcome == boot_outcome(opt_bytes(pub_key), opt_bytes(firmware), opt_bytes(signature)),
        r.log@ == boot_log(opt_bytes(pub_key), opt_bytes(firmware), opt_bytes(signature)),
        (match load_error(opt_bytes(pub_key), opt_bytes(firmware), opt_bytes(signature)) {
            None => firmware matches Some(f) && r.digest matches Some(d) && d@ == digest_hex_of(
                f@,
            ),
            Some(_) => r.digest is None,
        }),
{
    let ghost kv = opt_bytes(pub_key);
    let ghost fv = opt_bytes(firmware);
    let ghost sv = opt_bytes(signature);
    let mut log: Vec<LogEntry> = Vec::new();
    log.push(LogEntry::Started);
    let config = match load_secure_boot_config(pub_key, firmware, signature) {
        Ok(c) => c,
        Err(e) => {
            log.push(LogEntry::LoadFailed(e));
            proof {
                assert(log@ =~= boot_log(kv, fv, sv));
            }
            return BootReport { outcome: BootOutcome::Halted, digest: None, log };
        },
    };
    let digest = calculate_hash(&config.firmware);
    log.push(LogEntry::FirmwareDigest);
    if verify_firmware(&config) {
        log.push(LogEntry::VerificationSucceeded);
        log.push(LogEntry::BootAccepted);
        log.push(LogEntry::ControlHandoff);
        proof {
            assert(log@ =~= boot_log(kv, fv, sv));
        }
        BootReport { outcome: BootOutcome::Accepted, digest: Some(digest), log }
    } else {
        log.push(LogEntry::VerificationFailed);
        log.push(LogEntry::HaltNotice);
        proof {
            assert(log@ =~= boot_log(kv, fv, sv));
        }
        BootReport { outcome: BootOutcome::Halted, digest: Some(digest), log }
    }
}

/// The process exit status for a report: `0` hands control to the verified
/// firmware, `1` halts the boot.
pub fn exit_code(report: &BootReport) -> (r: i32)
    ensures
        report.outcome is Accepted ==> r == 0,
        report.outcome is Halted ==> r == 1,
{
    match report.outcome {
        BootOutcome::Accepted => 0,
        BootOutcome::Halted => 1,
    }
}

} // verus!
