//! The embedded-database backend's value encoding: stored as is, or, when a
//! key is configured, sealed with AES-256-GCM-SIV under a fresh nonce that is
//! kept in front of the ciphertext.
use vstd::prelude::*;
use crate::bytes_of;

verus! {

#[verifier::external_type_specification]
#[verifier::external_body]
pub struct ExDb(sled::Db);

/// Length in bytes of the nonce in front of each sealed value.
pub const NONCE_LENGTH: usize = 12;

/// Why a stored value could not be encoded or decoded.
#[derive(Debug, Clone, Copy, PartialEq, Eq, Structural)]
pub enum StoreError {
    EncryptionFailed,
    CiphertextTooShort,
    DecryptionFailed,
}

/// AES-256-GCM-SIV encryption of `plaintext` under `key` and `nonce`
/// (`None` where the cipher refuses the input).
pub uninterp spec fn aead_sealed(key: Seq<u8>, nonce: Seq<u8>, plaintext: Seq<u8>) -> Option<Seq<u8>>;

/// AES-256-GCM-SIV decryption of `ciphertext` under `key` and `nonce`
/// (`None` where it does not authenticate).
pub uninterp spec fn aead_opened(key: Seq<u8>, nonce: Seq<u8>, ciphertext: Seq<u8>) -> Option<Seq<u8>>;

/// Relies on aes_gcm_siv's `Aead::encrypt` for `Aes256GcmSiv`: the result
/// depends on the key, nonce and plaintext alone.
#[verifier::external_body]
fn aes_gcm_siv_encrypt(key: &[u8; 32], nonce: &[u8; 12], plaintext: &[u8]) -> (r: Option<Vec<u8>>)
    ensures
        bytes_of(r) == aead_sealed(key@, nonce@, plaintext@),
{
    let cipher = <aes_gcm_siv::Aes256GcmSiv as aes_gcm_siv::aead::KeyInit>::new(key.into());
    <aes_gcm_siv::Aes256GcmSiv as aes_gcm_siv::aead::Aead>::encrypt(&cipher, nonce.into(), plaintext).ok()
}

/// Relies on aes_gcm_siv's `Aead::decrypt` for `Aes256GcmSiv`: the result
/// depends on the key, nonce and ciphertext alone.
#[verifier::external_body]
fn aes_gcm_siv_decrypt(key: &[u8; 32], nonce: &[u8; 12], ciphertext: &[u8]) -> (r: Option<Vec<u8>>)
    ensures
        bytes_of(r) == aead_opened(key@, nonce@, ciphertext@),
{
    let cipher = <aes_gcm_siv::Aes256GcmSiv as aes_gcm_siv::aead::KeyInit>::new(key.into());
    <aes_gcm_siv::Aes256GcmSiv as aes_gcm_siv::aead::Aead>::decrypt(&cipher, nonce.into(), ciphertext).ok()
}

/// Relies on aes_gcm_siv's `AeadCore::generate_nonce` with the operating
/// system's random source: some 12 bytes, nothing more is known of them.
#[verifier::external_body]
fn random_nonce() -> (r: [u8; 12]) {
    <aes_gcm_siv::Aes256GcmSiv as aes_gcm_siv::aead::AeadCore>::generate_nonce(&mut aes_gcm_siv::aead::OsRng).into()
}

/// Seals `plaintext` under `key` with the given nonce: the nonce followed by
/// the ciphertext.
pub fn seal(key: &[u8; 32], nonce: [u8; 12], plaintext: &Vec<u8>) -> (r: Result<Vec<u8>, StoreError>)
    ensures
        match aead_sealed(key@, nonce@, plaintext@) {
            Some(ct) => r is Ok && r->Ok_0@ == nonce@ + ct,
            None => r == Err::<Vec<u8>, StoreError>(StoreError::EncryptionFailed),
        },
{
    match aes_gcm_siv_encrypt(key, &nonce, plaintext.as_slice()) {
        None => Err(StoreError::EncryptionFailed),
        Some(ct) => {
            let mut out: Vec<u8> = Vec::new();
            let mut i: usize = 0;
            while i < NONCE_LENGTH
                invariant
                    i <= NONCE_LENGTH,
                    out@ == nonce@.subrange(0, i as int),
                decreases NONCE_LENGTH - i,
            {
                out.push(nonce[i]);
                i = i + 1;
            }
            assert(nonce@.subrange(0, 12) =~= nonce@);
            let mut j: usize = 0;
            while j < ct.len()
                invariant
                    j <= ct@.len(),
                    out@ == nonce@ + ct@.subrange(0, j as int),
                decreases ct@.len() - j,
            {
                out.push(ct[j]);
                j = j + 1;
            }
            assert(ct@.subrange(0, ct@.len() as int) =~= ct@);
            Ok(out)
        },
    }
}

/// Opens a value sealed by [`seal`]: the first bytes are the nonce, the rest
/// the ciphertext.
pub fn unseal(key: &[u8; 32], data: &Vec<u8>) -> (r: Result<Vec<u8>, StoreError>)
    ensures
        data@.len() < NONCE_LENGTH ==> r == Err::<Vec<u8>, StoreError>(StoreError::CiphertextTooShort),
        data@.len() >= NONCE_LENGTH ==> match aead_opened(key@, data@.subrange(0, 12), data@.subrange(12, data@.len() as int)) {
            Some(p) => r is Ok && r->Ok_0@ == p,
            None => r == Err::<Vec<u8>, StoreError>(StoreError::DecryptionFailed),
        },
{
    if data.len() < NONCE_LENGTH {
        return Err(StoreError::CiphertextTooShort);
    }
    let mut nonce: [u8; 12] = [0u8; 12];
    let mut i: usize = 0;
    while i < NONCE_LENGTH
        invariant
            i <= NONCE_LENGTH,
            data@.len() >= NONCE_LENGTH,
            forall|k: int| 0 <= k < i ==> nonce@[k] == data@[k],
        decreases NONCE_LENGTH - i,
    {
        nonce[i] = data[i];
        i = i + 1;
    }
    assert(nonce@ =~= data@.subrange(0, 12));
    let n = data.len();
    let mut ct: Vec<u8> = Vec::with_capacity(n - NONCE_LENGTH);
    let mut j: usize = NONCE_LENGTH;
    while j < n
        invariant
            NONCE_LENGTH <= j <= n,
            n == data@.len(),
            ct@ == data@.subrange(12, j as int),
        decreases n - j,
    {
        ct.push(data[j]);
        j = j + 1;
        assert(ct@ =~= data@.subrange(12, j as int));
    }
    match aes_gcm_siv_decrypt(key, &nonce, ct.as_slice()) {
        Some(p) => Ok(p),
        None => Err(StoreError::DecryptionFailed),
    }
}

/// Persistent backend over an embedded database; values are sealed when a
/// key is configured and stored as they are otherwise.
pub struct LongMem {
    db: sled::Db,
    key: Option<[u8; 32]>,
}

impl LongMem {
    /// The configured encryption key, if any.
    pub closed spec fn cipher_key(&self) -> Option<[u8; 32]> {
        self.key
    }

    /// A backend over an opened database.
    pub fn new(db: sled::Db, key: Option<[u8; 32]>) -> (r: Self)
        ensures
            r.cipher_key() == key,
    {
        LongMem { db, key }
    }

    /// The database the values live in.
    pub fn db(&self) -> (r: &sled::Db) {
        &self.db
    }

    /// The bytes to store for `value`: the value itself without a key, else
    /// a fresh nonce followed by the value sealed under it.
    pub fn encode_value(&self, value: Vec<u8>) -> (r: Result<Vec<u8>, StoreError>)
        ensures
            self.cipher_key() is None ==> r == Ok::<Vec<u8>, StoreError>(value),
            self.cipher_key() is Some ==> match r {
                Ok(stored) => stored@.len() >= NONCE_LENGTH && aead_sealed(
                    self.cipher_key()->0@,
                    stored@.subrange(0, 12),
                    value@,
                ) == Some(stored@.subrange(12, stored@.len() as int)),
                Err(e) => e == StoreError::EncryptionFailed && exists|n: Seq<u8>|
                    n.len() == NONCE_LENGTH && (#[trigger] aead_sealed(self.cipher_key()->0@, n, value@)) is None,
            },
    {
        match &self.key {
            None => Ok(value),
            Some(key) => {
                let nonce = random_nonce();
                let r = seal(key, nonce, &value);
                proof {
                    if r is Err {
                        assert(aead_sealed(key@, nonce@, value@) is None);
                    }
                    if r is Ok {
                        let stored = r->Ok_0;
                        let ct = aead_sealed(key@, nonce@, value@)->0;
                        assert(stored@.subrange(0, 12) =~= nonce@);
                        assert(stored@.subrange(12, stored@.len() as int) =~= ct);
                    }
                }
                r
            },
        }
    }

    /// The value held by stored bytes: the bytes themselves without a key,
    /// else what they open to.
    pub fn decode_value(&self, stored: Vec<u8>) -> (r: Result<Vec<u8>, StoreError>)
        ensures
            self.cipher_key() is None ==> r == Ok::<Vec<u8>, StoreError>(stored),
            self.cipher_key() is Some ==> {
                &&& stored@.len() < NONCE_LENGTH ==> r == Err::<Vec<u8>, StoreError>(StoreError::CiphertextTooShort)
                &&& stored@.len() >= NONCE_LENGTH ==> match aead_opened(
                    self.cipher_key()->0@,
                    stored@.subrange(0, 12),
                    stored@.subrange(12, stored@.len() as int),
                ) {
                    Some(p) => r is Ok && r->Ok_0@ == p,
                    None => r == Err::<Vec<u8>, StoreError>(StoreError::DecryptionFailed),
                }
            },
    {
        match &self.key {
            None => Ok(stored),
            Some(key) => unseal(key, &stored),
        }
    }
}

} // verus!
