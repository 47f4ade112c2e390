//! The boot configuration: the three input artifacts, validated by byte
//! count and key decoding, assembled all-or-nothing by the loader.

use crate::crypto::key_decode_ok;
use crate::crypto::key_is_valid;
use vstd::prelude::*;

verus! {

/// One of the three input artifacts read from fixed storage.
#[derive(Clone, Copy, Debug, PartialEq, Eq, Structural)]
pub enum Artifact {
    PublicKey,
    Firmware,
    Signature,
}

/// Why a boot attempt failed before verification was ever attempted.
#[derive(Clone, Copy, Debug, PartialEq, Eq, Structural)]
pub enum BootError {
    /// The artifact could not be read from storage.
    IoError(Artifact),
    /// The public key file did not hold exactly 32 bytes.
    MalformedKey,
    /// The signature file did not hold exactly 64 bytes.
    MalformedSignature,
    /// The key bytes do not decode to a structurally valid verifying key.
    InvalidKeyEncoding,
}

/// The aggregate the loader assembles: a 32-byte verifying key, the
/// firmware image, and a 64-byte detached signature.
#[derive(Debug)]
pub struct BootConfig {
    pub pub_key: Vec<u8>,
    pub firmware: Vec<u8>,
    pub signature: Vec<u8>,
}

impl BootConfig {
    /// The byte counts the loader guarantees: a 32-byte key and a 64-byte
    /// signature; the firmware may have any length.
    pub open spec fn wf(self) -> bool {
        self.pub_key@.len() == 32 && self.signature@.len() == 64
    }
}

/// The byte sequence behind an optional read result.
pub open spec fn opt_bytes(o: Option<Vec<u8>>) -> Option<Seq<u8>> {
    match o {
        Some(v) => Some(v@),
        None => None,
    }
}

/// The first failing check of the loader, in the order the checks run:
/// key read, key length, key decoding, firmware read, signature read,
/// signature length. `None` when every check passes.
pub open spec fn load_error(
    key: Option<Seq<u8>>,
    firmware: Option<Seq<u8>>,
    signature: Option<Seq<u8>>,
) -> Option<BootError> {
    match key {
        None => Some(BootError::IoError(Artifact::PublicKey)),
        Some(k) => if k.len() != 32 {
            Some(BootError::MalformedKey)
        } else if !key_is_valid(k) {
            Some(BootError::InvalidKeyEncoding)
        } else {
            match firmware {
                None => Some(BootError::IoError(Artifact::Firmware)),
                Some(_) => match signature {
                    None => Some(BootError::IoError(Artifact::Signature)),
                    Some(s) => if s.len() != 64 {
                        Some(BootError::MalformedSignature)
                    } else {
                        None
                    },
                },
            }
        },
    }
}

/// Assemble a `BootConfig` from the three read results, or report the first
/// failing check; construction is all-or-nothing.
pub fn load_secure_boot_config(
    pub_key: Option<Vec<u8>>,
    firmware: Option<Vec<u8>>,
    signature: Option<Vec<u8>>,
) -> (r: Result<BootConfig, BootError>)
    ensures
        (match r {
            Ok(c) => {
                &&& load_error(opt_bytes(pub_key), opt_bytes(firmware), opt_bytes(signature))
                    is None
                &&& pub_key matches Some(k) && c.pub_key@ == k@
                &&& firmware matches Some(f) && c.firmware@ == f@
                &&& signature matches Some(s) && c.signature@ == s@
                &&& c.wf()
                &&& key_is_valid(c.pub_key@)
            },
            Err(e) => load_error(opt_bytes(pub_key), opt_bytes(firmware), opt_bytes(signature))
                == Some(e),
        }),
{
    let key_bytes = match pub_key {
        Some(k) => k,
        None => {
            return Err(BootError::IoError(Artifact::PublicKey));
        },
    };
    if key_bytes.len() != 32 {
        return Err(BootError::MalformedKey);
    }
    if !key_decode_ok(&key_bytes) {
        return Err(BootError::InvalidKeyEncoding);
    }
    let fw = match firmware {
        Some(f) => f,
        None => {
            return Err(BootError::IoError(Artifact::Firmware));
        },
    };
    let sig = match signature {
        Some(s) => s,
        None => {
            return Err(BootError::IoError(Artifact::Signature));
        },
    };
    if sig.len() != 64 {
        return Err(BootError::MalformedSignature);
    }
    Ok(BootConfig { pub_key: key_bytes, firmware: fw, signature: sig })
}

} // verus!
