use ed25519_dalek::Signer;
use ed25519_dalek::SigningKey;
use ed25519_dalek::VerifyingKey;
use rustboot::config::load_secure_boot_config;
use rustboot::config::Artifact;
use rustboot::config::BootError;
use rustboot::digest::calculate_hash;
use rustboot::sequencer::exit_code;
use rustboot::sequencer::run_secure_boot;
use rustboot::sequencer::BootOutcome;
use rustboot::sequencer::LogEntry;
use rustboot::verify::verify_firmware;

fn keypair(seed: u8) -> (SigningKey, Vec<u8>) {
    let signing = SigningKey::from_bytes(&[seed; 32]);
    let verifying = signing.verifying_key().to_bytes().to_vec();
    (signing, verifying)
}

fn sign(signing: &SigningKey, msg: &[u8]) -> Vec<u8> {
    signing.sign(msg).to_bytes().to_vec()
}

#[test]
fn scenario_a_authentic_firmware_accepted() {
    let (signing, key) = keypair(7);
    let firmware = b"RISCV-FW-v1".to_vec();
    let signature = sign(&signing, &firmware);
    let report = run_secure_boot(Some(key), Some(firmware), Some(signature));
    assert_eq!(report.outcome, BootOutcome::Accepted);
    assert_eq!(exit_code(&report), 0);
    assert_eq!(
        report.log,
        vec![
            LogEntry::Started,
            LogEntry::FirmwareDigest,
            LogEntry::VerificationSucceeded,
            LogEntry::BootAccepted,
            LogEntry::ControlHandoff,
        ]
    );
    let digest = report.digest.expect("the loader succeeded, so a digest is logged");
    assert_eq!(digest.len(), 64);
}

#[test]
fn scenario_b_signature_over_other_firmware_halts() {
    let (signing, key) = keypair(7);
    let firmware = b"RISCV-FW-v1".to_vec();
    let mut extended = firmware.clone();
    extended.push(b'x');
    let signature = sign(&signing, &extended);
    let report = run_secure_boot(Some(key), Some(firmware), Some(signature));
    assert_eq!(report.outcome, BootOutcome::Halted);
    assert_eq!(exit_code(&report), 1);
    assert_eq!(
        report.log,
        vec![
            LogEntry::Started,
            LogEntry::FirmwareDigest,
            LogEntry::VerificationFailed,
            LogEntry::HaltNotice,
        ]
    );
    assert!(report.digest.is_some());
}

#[test]
fn scenario_c_missing_firmware_halts_before_verification() {
    let (signing, key) = keypair(7);
    let signature = sign(&signing, b"RISCV-FW-v1");
    let report = run_secure_boot(Some(key), None, Some(signature));
    assert_eq!(report.outcome, BootOutcome::Halted);
    assert_eq!(exit_code(&report), 1);
    assert_eq!(
        report.log,
        vec![
            LogEntry::Started,
            LogEntry::LoadFailed(BootError::IoError(Artifact::Firmware)),
        ]
    );
    assert!(!report.log.contains(&LogEntry::VerificationSucceeded));
    assert!(!report.log.contains(&LogEntry::VerificationFailed));
    assert!(report.digest.is_none());
}

#[test]
fn scenario_d_short_public_key_halts_without_verification() {
    let (signing, _) = keypair(7);
    let firmware = b"RISCV-FW-v1".to_vec();
    let signature = sign(&signing, &firmware);
    let report = run_secure_boot(Some(vec![0u8; 31]), Some(firmware), Some(signature));
    assert_eq!(report.outcome, BootOutcome::Halted);
    assert_eq!(exit_code(&report), 1);
    assert_eq!(
        report.log,
        vec![LogEntry::Started, LogEntry::LoadFailed(BootError::MalformedKey)]
    );
    assert!(report.digest.is_none());
}

#[test]
fn wrong_key_halts() {
    let (signing, _) = keypair(7);
    let (_, other_key) = keypair(8);
    let firmware = b"RISCV-FW-v1".to_vec();
    let signature = sign(&signing, &firmware);
    let report = run_secure_boot(Some(other_key), Some(firmware), Some(signature));
    assert_eq!(report.outcome, BootOutcome::Halted);
    assert!(report.log.contains(&LogEntry::VerificationFailed));
}

#[test]
fn tampered_firmware_halts() {
    let (signing, key) = keypair(7);
    let mut firmware = b"RISCV-FW-v1".to_vec();
    let signature = sign(&signing, &firmware);
    firmware[0] ^= 1;
    let report = run_secure_boot(Some(key), Some(firmware), Some(signature));
    assert_eq!(report.outcome, BootOutcome::Halted);
    assert!(report.log.contains(&LogEntry::VerificationFailed));
}

#[test]
fn corrupted_signature_of_correct_length_halts() {
    let (signing, key) = keypair(7);
    let firmware = b"RISCV-FW-v1".to_vec();
    let mut signature = sign(&signing, &firmware);
    signature[10] ^= 0xff;
    let report = run_secure_boot(Some(key), Some(firmware), Some(signature));
    assert_eq!(report.outcome, BootOutcome::Halted);
    assert!(report.log.contains(&LogEntry::VerificationFailed));
}

#[test]
fn missing_public_key_reported_first() {
    let report = run_secure_boot(None, None, None);
    assert_eq!(report.outcome, BootOutcome::Halted);
    assert_eq!(
        report.log,
        vec![
            LogEntry::Started,
            LogEntry::LoadFailed(BootError::IoError(Artifact::PublicKey)),
        ]
    );
}

#[test]
fn missing_signature_reported() {
    let (_, key) = keypair(7);
    let r = load_secure_boot_config(Some(key), Some(b"fw".to_vec()), None);
    assert_eq!(r.unwrap_err(), BootError::IoError(Artifact::Signature));
}

#[test]
fn signature_of_wrong_length_rejected() {
    let (_, key) = keypair(7);
    let r = load_secure_boot_config(Some(key), Some(b"fw".to_vec()), Some(vec![0u8; 63]));
    assert_eq!(r.unwrap_err(), BootError::MalformedSignature);
}

#[test]
fn key_of_33_bytes_rejected() {
    let r = load_secure_boot_config(Some(vec![0u8; 33]), Some(b"fw".to_vec()), Some(vec![0u8; 64]));
    assert_eq!(r.unwrap_err(), BootError::MalformedKey);
}

#[test]
fn undecodable_key_of_correct_length_rejected() {
    // Find 32 bytes that are not a valid compressed Edwards point.
    let mut bad = [0xffu8; 32];
    let mut found = false;
    for first in 0u8..=255 {
        bad[0] = first;
        if VerifyingKey::from_bytes(&bad).is_err() {
            found = true;
            break;
        }
    }
    assert!(found);
    let r = load_secure_boot_config(Some(bad.to_vec()), Some(b"fw".to_vec()), Some(vec![0u8; 64]));
    assert_eq!(r.unwrap_err(), BootError::InvalidKeyEncoding);
}

#[test]
fn loader_keeps_the_artifacts_unchanged() {
    let (signing, key) = keypair(9);
    let firmware = b"some firmware image".to_vec();
    let signature = sign(&signing, &firmware);
    let config = load_secure_boot_config(
        Some(key.clone()),
        Some(firmware.clone()),
        Some(signature.clone()),
    )
    .expect("a valid triple loads");
    assert_eq!(config.pub_key, key);
    assert_eq!(config.firmware, firmware);
    assert_eq!(config.signature, signature);
    assert!(verify_firmware(&config));
}

#[test]
fn empty_firmware_loads_and_verifies() {
    let (signing, key) = keypair(3);
    let firmware: Vec<u8> = Vec::new();
    let signature = sign(&signing, &firmware);
    let report = run_secure_boot(Some(key), Some(firmware), Some(signature));
    assert_eq!(report.outcome, BootOutcome::Accepted);
}

#[test]
fn digest_is_deterministic_and_input_sensitive() {
    let data = b"RISCV-FW-v1".to_vec();
    let first = calculate_hash(&data);
    let second = calculate_hash(&data);
    assert_eq!(first, second);
    let mut changed = data.clone();
    changed[0] ^= 1;
    assert_ne!(calculate_hash(&changed), first);
}

#[test]
fn digest_of_known_inputs() {
    let empty: Vec<u8> = Vec::new();
    assert_eq!(
        calculate_hash(&empty),
        "e3b0c44298fc1c149afbf4c8996fb92427ae41e4649b934ca495991b7852b855"
    );
    assert_eq!(
        calculate_hash(&b"abc".to_vec()),
        "ba7816bf8f01cfea414140de5dae2223b00361a396177a9cb410ff61f20015ad"
    );
}
