//! A secure-boot gate: load a verifying key, a firmware image and a detached
//! signature, compute an audit digest of the firmware, check the Ed25519
//! signature over the firmware bytes, and decide whether the boot proceeds.

pub mod config;
pub mod crypto;
pub mod digest;
pub mod laws;
pub mod sequencer;
pub mod verify;
