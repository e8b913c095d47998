//! Loading of signed plugins: verification strictly before any code of the
//! artifact is touched, then dispatch on the transport kind.
use vstd::prelude::*;
use crate::bytes_of;
use crate::signature::{signature_check, verify};

verus! {

/// Transport of a plugin artifact.
#[derive(Debug, Clone, Copy, PartialEq, Eq, Structural)]
pub enum PluginKind {
    /// A native shared library.
    Cdylib,
    /// A WebAssembly module.
    Wasi,
}

/// Why a plugin load failed. Every failure is terminal for that attempt.
#[derive(Debug, Clone, Copy, PartialEq, Eq, Structural)]
pub enum PluginError {
    MissingSignature,
    InvalidSignatureFormat,
    SignatureVerificationFailed,
    UnsupportedPluginKind,
    MissingConstructorSymbol,
    ConstructorReturnedNull,
    InstantiationFailed,
}

/// Configuration of the loader: whether signatures are checked, the public key
/// they are checked against, and which transports are available.
pub struct PluginLoader {
    pub verify_signatures: bool,
    pub public_key: [u8; 32],
    pub cdylib_enabled: bool,
    pub wasi_enabled: bool,
}

impl PluginLoader {
    /// A loader that checks every artifact against `public_key` and accepts
    /// both transports.
    pub fn new(public_key: [u8; 32]) -> (r: Self)
        ensures
            r.verify_signatures,
            r.public_key == public_key,
            r.cdylib_enabled,
            r.wasi_enabled,
    {
        PluginLoader { verify_signatures: true, public_key, cdylib_enabled: true, wasi_enabled: true }
    }

    /// Whether this loader can bring in artifacts of `kind`.
    pub open spec fn supports(&self, kind: PluginKind) -> bool {
        match kind {
            PluginKind::Cdylib => self.cdylib_enabled,
            PluginKind::Wasi => self.wasi_enabled,
        }
    }

    /// Whether an artifact may be instantiated: the signature check first (when
    /// enabled), then the support for its kind.
    pub open spec fn admission(&self, kind: PluginKind, signature: Option<Seq<u8>>, artifact: Seq<u8>) -> Result<(), PluginError> {
        if self.verify_signatures && signature_check(self.public_key@, signature, artifact) is Err {
            signature_check(self.public_key@, signature, artifact)
        } else if !self.supports(kind) {
            Err(PluginError::UnsupportedPluginKind)
        } else {
            Ok(())
        }
    }

    /// Loads a plugin. `signature` holds the detached signature file's bytes
    /// (`None` when it is absent) and `artifact` the artifact's bytes.
    /// `instantiate` brings the code in; it is called at most once, and only
    /// once the artifact has been admitted. Any failure before it returns that
    /// failure and nothing else.
    pub fn load<B, F>(&self, kind: PluginKind, signature: Option<Vec<u8>>, artifact: &Vec<u8>, instantiate: F) -> (r: Result<B, PluginError>)
        where
            F: FnOnce(PluginKind) -> Result<B, PluginError>,
        requires
            self.admission(kind, bytes_of(signature), artifact@) is Ok ==> instantiate.requires((kind,)),
        ensures
            match self.admission(kind, bytes_of(signature), artifact@) {
                Err(e) => r == Err::<B, PluginError>(e),
                Ok(_) => instantiate.ensures((kind,), r),
            },
    {
        if self.verify_signatures {
            let checked = verify(signature, artifact, &self.public_key);
            if let Err(e) = checked {
                return Err(e);
            }
        }
        let supported = match kind {
            PluginKind::Cdylib => self.cdylib_enabled,
            PluginKind::Wasi => self.wasi_enabled,
        };
        if !supported {
            return Err(PluginError::UnsupportedPluginKind);
        }
        instantiate(kind)
    }

    /// Adopts the address a plugin constructor returned: zero is a null handle.
    pub fn check_constructor_output(address: usize) -> (r: Result<usize, PluginError>)
        ensures
            r == (if address == 0 { Err(PluginError::ConstructorReturnedNull) } else { Ok::<usize, PluginError>(address) }),
    {
        if address == 0 {
            Err(PluginError::ConstructorReturnedNull)
        } else {
            Ok(address)
        }
    }
}

/// An artifact whose signature does not check out is refused with a signature
/// error before its kind is even considered.
pub proof fn lemma_unverified_artifact_rejected(loader: PluginLoader, kind: PluginKind, signature: Option<Seq<u8>>, artifact: Seq<u8>)
    requires
        loader.verify_signatures,
        match signature {
            None => true,
            Some(s) => !crate::signature::strict_signature_valid(loader.public_key@, artifact, s),
        },
    ensures
        loader.admission(kind, signature, artifact) is Err,
        loader.admission(kind, signature, artifact) == signature_check(loader.public_key@, signature, artifact),
        signature_check(loader.public_key@, signature, artifact) != Ok::<(), PluginError>(()),
{
}

/// An artifact altered after signing, so that the signature no longer checks
/// out over its bytes, is refused with a signature-verification failure,
/// whatever its kind; `load` then never calls `instantiate`, and no backend
/// comes back to be registered.
pub proof fn lemma_tampered_artifact_rejected(
    loader: PluginLoader,
    kind: PluginKind,
    signature: Seq<u8>,
    artifact: Seq<u8>,
    tampered: Seq<u8>,
)
    requires
        loader.verify_signatures,
        signature.len() == crate::signature::SIGNATURE_LENGTH,
        crate::signature::strict_signature_valid(loader.public_key@, artifact, signature),
        !crate::signature::strict_signature_valid(loader.public_key@, tampered, signature),
    ensures
        loader.admission(kind, Some(signature), tampered) == Err::<(), PluginError>(
            PluginError::SignatureVerificationFailed,
        ),
{
}

/// A validly signed artifact of a supported kind is admitted.
pub proof fn lemma_signed_artifact_admitted(loader: PluginLoader, kind: PluginKind, signature: Seq<u8>, artifact: Seq<u8>)
    requires
        loader.supports(kind),
        signature.len() == crate::signature::SIGNATURE_LENGTH,
        crate::signature::strict_signature_valid(loader.public_key@, artifact, signature),
    ensures
        loader.admission(kind, Some(signature), artifact) == Ok::<(), PluginError>(()),
{
}

} // verus!
