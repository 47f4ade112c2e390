//! The verification decision: does the detached signature authenticate the
//! firmware bytes under the verifying key?

use crate::config::BootConfig;
use crate::crypto::ed25519_verify;
use crate::crypto::key_is_valid;
use crate::crypto::sig_authentic;
use vstd::prelude::*;

verus! {

/// Whether the configuration's signature authenticates its firmware under
/// its key: the key bytes decode and Ed25519 verification passes.
pub open spec fn authentic(c: BootConfig) -> bool {
    key_is_valid(c.pub_key@) && sig_authentic(c.pub_key@, c.firmware@, c.signature@)
}

/// One single-shot verification call; every decoding or verification
/// failure collapses to `false`.
pub fn verify_firmware(config: &BootConfig) -> (r: bool)
    requires
        config.wf(),
    ensures
        r == authentic(*config),
{
    ed25519_verify(&config.pub_key, &config.firmware, &config.signature)
}

} // verus!
