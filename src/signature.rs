//! Detached-signature check of a plugin artifact.
use vstd::prelude::*;
use crate::bytes_of;
use crate::plugin::PluginError;

verus! {

/// Length in bytes of a detached Ed25519 signature.
pub const SIGNATURE_LENGTH: usize = 64;

/// Whether `signature` is a valid strict (non-malleable) Ed25519 signature of
/// `message` under the encoded public key `public_key`.
pub uninterp spec fn strict_signature_valid(public_key: Seq<u8>, message: Seq<u8>, signature: Seq<u8>) -> bool;

/// Outcome of checking the detached signature read beside an artifact
/// (`None` when there was no signature file).
pub open spec fn signature_check(public_key: Seq<u8>, signature: Option<Seq<u8>>, artifact: Seq<u8>) -> Result<(), PluginError> {
    match signature {
        None => Err(PluginError::MissingSignature),
        Some(s) => if s.len() != SIGNATURE_LENGTH {
            Err(PluginError::InvalidSignatureFormat)
        } else if strict_signature_valid(public_key, artifact, s) {
            Ok(())
        } else {
            Err(PluginError::SignatureVerificationFailed)
        },
    }
}

/// Relies on ed25519_dalek: `VerifyingKey::from_bytes` decodes the key and
/// `VerifyingKey::verify_strict` checks the signature; the answer depends on
/// the three byte strings alone. A key that does not decode verifies nothing.
#[verifier::external_body]
fn ed25519_verify_strict(public_key: &[u8; 32], message: &[u8], signature: &[u8; 64]) -> (r: bool)
    ensures
        r == strict_signature_valid(public_key@, message@, signature@),
{
    match ed25519_dalek::VerifyingKey::from_bytes(public_key) {
        Ok(key) => key.verify_strict(message, &ed25519_dalek::Signature::from_bytes(signature)).is_ok(),
        Err(_) => false,
    }
}

/// Checks the detached signature of an artifact against the configured public key.
pub fn verify(signature: Option<Vec<u8>>, artifact: &Vec<u8>, public_key: &[u8; 32]) -> (r: Result<(), PluginError>)
    ensures
        r == signature_check(public_key@, bytes_of(signature), artifact@),
{
    match signature {
        None => Err(PluginError::MissingSignature),
        Some(s) => {
            if s.len() != SIGNATURE_LENGTH {
                return Err(PluginError::InvalidSignatureFormat);
            }
            let mut sig: [u8; 64] = [0u8; 64];
            let mut i: usize = 0;
            while i < SIGNATURE_LENGTH
                invariant
                    s@.len() == SIGNATURE_LENGTH,
                    i <= SIGNATURE_LENGTH,
                    forall|j: int| 0 <= j < i ==> sig@[j] == s@[j],
                decreases SIGNATURE_LENGTH - i,
            {
                sig[i] = s[i];
                i = i + 1;
            }
            assert(sig@ =~= s@);
            if ed25519_verify_strict(public_key, artifact.as_slice(), &sig) {
                Ok(())
            } else {
                Err(PluginError::SignatureVerificationFailed)
            }
        },
    }
}

} // verus!
