//! Authenticated encryption (AES-GCM) for the two supported cipher suites.
//!
//! Key and nonce sizes are validated exactly before any cryptographic work;
//! the primitive itself is reached through narrow trusted wrappers around the
//! `aes_gcm` crate, whose output is named by the uninterpreted functions
//! [`gcm_seal`] and [`gcm_open`].
use vstd::prelude::*;

use crate::jobs::ErrorKind;
use crate::limits::{
    GCM_NONCE_SIZE, GCM_TAG_SIZE, KEY128_SIZE, KEY256_SIZE, MAX_ASSOCIATED_DATA_SIZE,
    MAX_CIPHERTEXT_SIZE, MAX_PLAINTEXT_SIZE,
};
use aes_gcm::aead::AeadInPlace;
use aes_gcm::{Aes128Gcm, Aes256Gcm, Key, KeyInit, Nonce, Tag};

verus! {

/// The two supported cipher suites, distinguished by key size; both use a
/// 96-bit nonce and a 128-bit tag.
#[derive(Clone, Copy, Debug, PartialEq, Eq, Structural)]
pub enum CipherSuite {
    /// AES-GCM with a 128-bit key.
    Aes128Gcm,
    /// AES-GCM with a 256-bit key.
    Aes256Gcm,
}

impl CipherSuite {
    /// The suite's exact key size in bytes.
    pub open spec fn spec_key_size(self) -> nat {
        match self {
            CipherSuite::Aes128Gcm => KEY128_SIZE as nat,
            CipherSuite::Aes256Gcm => KEY256_SIZE as nat,
        }
    }

    /// The suite's exact key size in bytes.
    pub fn key_size(self) -> (s: usize)
        ensures
            s as nat == self.spec_key_size(),
    {
        match self {
            CipherSuite::Aes128Gcm => KEY128_SIZE,
            CipherSuite::Aes256Gcm => KEY256_SIZE,
        }
    }
}

/// The `ciphertext || tag` that AES-GCM encryption produces for the given
/// key, nonce, associated data and plaintext. The key length selects the
/// suite. A function of its arguments alone.
pub uninterp spec fn gcm_seal(key: Seq<u8>, nonce: Seq<u8>, aad: Seq<u8>, plaintext: Seq<u8>) -> Seq<u8>;

/// What AES-GCM decryption yields for the given key, nonce, associated data
/// and `ciphertext || tag`: the plaintext when the tag authenticates, `None`
/// when it does not. A function of its arguments alone.
pub uninterp spec fn gcm_open(key: Seq<u8>, nonce: Seq<u8>, aad: Seq<u8>, ciphertext: Seq<u8>) -> Option<Seq<u8>>;

/// Relies on `aes_gcm`'s `AeadInPlace::encrypt_in_place_detached` for
/// `Aes128Gcm`: the buffer is replaced by the ciphertext (same length) and
/// the returned 16-byte tag is appended. The primitive fails only for inputs
/// beyond 2^36 bytes, which the preconditions exclude.
#[verifier::external_body]
fn aes128_seal(key: &[u8], nonce: &[u8], aad: &[u8], plaintext: &[u8]) -> (r: Vec<u8>)
    requires
        key@.len() == KEY128_SIZE,
        nonce@.len() == GCM_NONCE_SIZE,
        aad@.len() <= MAX_ASSOCIATED_DATA_SIZE,
        plaintext@.len() <= MAX_PLAINTEXT_SIZE,
    ensures
        r@ == gcm_seal(key@, nonce@, aad@, plaintext@),
        r@.len() == plaintext@.len() + GCM_TAG_SIZE,
{
    let mut buffer = plaintext.to_vec();
    let tag = Aes128Gcm::new(Key::<Aes128Gcm>::from_slice(key))
        .encrypt_in_place_detached(Nonce::from_slice(nonce), aad, &mut buffer)
        .expect("inputs are within the GCM length limits");
    buffer.extend_from_slice(&tag);
    buffer
}

/// Relies on `aes_gcm`'s `AeadInPlace::encrypt_in_place_detached` for
/// `Aes256Gcm`; see `aes128_seal`.
#[verifier::external_body]
pub(crate) fn aes256_seal(key: &[u8], nonce: &[u8], aad: &[u8], plaintext: &[u8]) -> (r: Vec<u8>)
    requires
        key@.len() == KEY256_SIZE,
        nonce@.len() == GCM_NONCE_SIZE,
        aad@.len() <= MAX_ASSOCIATED_DATA_SIZE,
        plaintext@.len() <= MAX_PLAINTEXT_SIZE,
    ensures
        r@ == gcm_seal(key@, nonce@, aad@, plaintext@),
        r@.len() == plaintext@.len() + GCM_TAG_SIZE,
{
    let mut buffer = plaintext.to_vec();
    let tag = Aes256Gcm::new(Key::<Aes256Gcm>::from_slice(key))
        .encrypt_in_place_detached(Nonce::from_slice(nonce), aad, &mut buffer)
        .expect("inputs are within the GCM length limits");
    buffer.extend_from_slice(&tag);
    buffer
}

/// Relies on `aes_gcm`'s `AeadInPlace::decrypt_in_place_detached` for
/// `Aes128Gcm`: it recomputes the tag over the ciphertext and succeeds if and
/// only if it matches the trailing tag, in which case the recovered plaintext
/// is exactly the one whose encryption is the input. No plaintext leaves on
/// failure.
#[verifier::external_body]
fn aes128_open(key: &[u8], nonce: &[u8], aad: &[u8], ciphertext: &[u8]) -> (r: Result<Vec<u8>, ErrorKind>)
    requires
        key@.len() == KEY128_SIZE,
        nonce@.len() == GCM_NONCE_SIZE,
        aad@.len() <= MAX_ASSOCIATED_DATA_SIZE,
        GCM_TAG_SIZE <= ciphertext@.len() <= MAX_CIPHERTEXT_SIZE + GCM_TAG_SIZE,
    ensures
        r matches Ok(p) ==> gcm_open(key@, nonce@, aad@, ciphertext@) == Some(p@)
            && ciphertext@ == gcm_seal(key@, nonce@, aad@, p@)
            && p@.len() + GCM_TAG_SIZE == ciphertext@.len(),
        r matches Err(e) ==> gcm_open(key@, nonce@, aad@, ciphertext@) is None
            && e == ErrorKind::DecryptionFailed,
        forall|pt: Seq<u8>|
            ciphertext@ == gcm_seal(key@, nonce@, aad@, pt) ==> r == Ok::<Vec<u8>, ErrorKind>(r->Ok_0) && r->Ok_0@ == pt,
{
    let (body, tag) = ciphertext.split_at(ciphertext.len() - 16);
    let mut buffer = body.to_vec();
    match Aes128Gcm::new(Key::<Aes128Gcm>::from_slice(key)).decrypt_in_place_detached(
        Nonce::from_slice(nonce),
        aad,
        &mut buffer,
        Tag::from_slice(tag),
    ) {
        Ok(()) => Ok(buffer),
        Err(_) => Err(ErrorKind::DecryptionFailed),
    }
}

/// Relies on `aes_gcm`'s `AeadInPlace::decrypt_in_place_detached` for
/// `Aes256Gcm`; see `aes128_open`.
#[verifier::external_body]
fn aes256_open(key: &[u8], nonce: &[u8], aad: &[u8], ciphertext: &[u8]) -> (r: Result<Vec<u8>, ErrorKind>)
    requires
        key@.len() == KEY256_SIZE,
        nonce@.len() == GCM_NONCE_SIZE,
        aad@.len() <= MAX_ASSOCIATED_DATA_SIZE,
        GCM_TAG_SIZE <= ciphertext@.len() <= MAX_CIPHERTEXT_SIZE + GCM_TAG_SIZE,
    ensures
        r matches Ok(p) ==> gcm_open(key@, nonce@, aad@, ciphertext@) == Some(p@)
            && ciphertext@ == gcm_seal(key@, nonce@, aad@, p@)
            && p@.len() + GCM_TAG_SIZE == ciphertext@.len(),
        r matches Err(e) ==> gcm_open(key@, nonce@, aad@, ciphertext@) is None
            && e == ErrorKind::DecryptionFailed,
        forall|pt: Seq<u8>|
            ciphertext@ == gcm_seal(key@, nonce@, aad@, pt) ==> r == Ok::<Vec<u8>, ErrorKind>(r->Ok_0) && r->Ok_0@ == pt,
{
    let (body, tag) = ciphertext.split_at(ciphertext.len() - 16);
    let mut buffer = body.to_vec();
    match Aes256Gcm::new(Key::<Aes256Gcm>::from_slice(key)).decrypt_in_place_detached(
        Nonce::from_slice(nonce),
        aad,
        &mut buffer,
        Tag::from_slice(tag),
    ) {
        Ok(()) => Ok(buffer),
        Err(_) => Err(ErrorKind::DecryptionFailed),
    }
}

/// What `encrypt` returns for each input.
pub open spec fn spec_encrypt(
    suite: CipherSuite,
    key: Seq<u8>,
    nonce: Seq<u8>,
    aad: Seq<u8>,
    plaintext: Seq<u8>,
) -> Result<Seq<u8>, ErrorKind> {
    if key.len() != suite.spec_key_size() {
        Err(ErrorKind::InvalidKeySize)
    } else if nonce.len() != GCM_NONCE_SIZE {
        Err(ErrorKind::InvalidIvSize)
    } else if plaintext.len() > MAX_PLAINTEXT_SIZE {
        Err(ErrorKind::AllocationFailed)
    } else if aad.len() > MAX_ASSOCIATED_DATA_SIZE {
        Err(ErrorKind::AllocationFailed)
    } else {
        Ok(gcm_seal(key, nonce, aad, plaintext))
    }
}

/// What `decrypt` returns for each input.
pub open spec fn spec_decrypt(
    suite: CipherSuite,
    key: Seq<u8>,
    nonce: Seq<u8>,
    aad: Seq<u8>,
    ciphertext: Seq<u8>,
) -> Result<Seq<u8>, ErrorKind> {
    if key.len() != suite.spec_key_size() {
        Err(ErrorKind::InvalidKeySize)
    } else if nonce.len() != GCM_NONCE_SIZE {
        Err(ErrorKind::InvalidIvSize)
    } else if ciphertext.len() < GCM_TAG_SIZE {
        Err(ErrorKind::InvalidBufferSize)
    } else if ciphertext.len() > MAX_CIPHERTEXT_SIZE + GCM_TAG_SIZE {
        Err(ErrorKind::AllocationFailed)
    } else if aad.len() > MAX_ASSOCIATED_DATA_SIZE {
        Err(ErrorKind::AllocationFailed)
    } else {
        match gcm_open(key, nonce, aad, ciphertext) {
            Some(p) => Ok(p),
            None => Err(ErrorKind::DecryptionFailed),
        }
    }
}

/// The view of an owned byte-vector result.
pub open spec fn bytes_result_model(r: Result<Vec<u8>, ErrorKind>) -> Result<Seq<u8>, ErrorKind> {
    match r {
        Ok(v) => Ok(v@),
        Err(e) => Err(e),
    }
}

/// Validates the key and nonce sizes for `suite`, key first.
fn check_sizes(suite: CipherSuite, key: &[u8], nonce: &[u8]) -> (r: Result<(), ErrorKind>)
    ensures
        r matches Err(e) ==> (e == ErrorKind::InvalidKeySize || e == ErrorKind::InvalidIvSize),
        r == Err::<(), ErrorKind>(ErrorKind::InvalidKeySize) <==> key@.len() != suite.spec_key_size(),
        r == Err::<(), ErrorKind>(ErrorKind::InvalidIvSize) <==> (key@.len() == suite.spec_key_size()
            && nonce@.len() != GCM_NONCE_SIZE),
        r is Ok <==> (key@.len() == suite.spec_key_size() && nonce@.len() == GCM_NONCE_SIZE),
{
    if key.len() != suite.key_size() {
        Err(ErrorKind::InvalidKeySize)
    } else if nonce.len() != GCM_NONCE_SIZE {
        Err(ErrorKind::InvalidIvSize)
    } else {
        Ok(())
    }
}

/// AES-GCM encryption: validates the exact key and nonce sizes, rejects
/// payloads beyond the configured maxima, and otherwise returns
/// `ciphertext || tag` as one contiguous output.
pub fn encrypt(suite: CipherSuite, key: &[u8], nonce: &[u8], aad: &[u8], plaintext: &[u8]) -> (r: Result<
    Vec<u8>,
    ErrorKind,
>)
    ensures
        bytes_result_model(r) == spec_encrypt(suite, key@, nonce@, aad@, plaintext@),
        r matches Ok(c) ==> c@.len() == plaintext@.len() + GCM_TAG_SIZE,
{
    check_sizes(suite, key, nonce)?;
    if plaintext.len() > MAX_PLAINTEXT_SIZE {
        return Err(ErrorKind::AllocationFailed);
    }
    if aad.len() > MAX_ASSOCIATED_DATA_SIZE {
        return Err(ErrorKind::AllocationFailed);
    }
    match suite {
        CipherSuite::Aes128Gcm => Ok(aes128_seal(key, nonce, aad, plaintext)),
        CipherSuite::Aes256Gcm => Ok(aes256_seal(key, nonce, aad, plaintext)),
    }
}

/// AES-GCM decryption: validates the exact key and nonce sizes, requires the
/// input to be long enough to hold a tag, splits the trailing tag, and
/// returns the plaintext exactly when the tag authenticates.
///
/// The final clause is the round-trip law: decrypting what `encrypt`
/// produced, with the same key, nonce and associated data, returns the
/// original plaintext.
pub fn decrypt(suite: CipherSuite, key: &[u8], nonce: &[u8], aad: &[u8], ciphertext: &[u8]) -> (r: Result<
    Vec<u8>,
    ErrorKind,
>)
    ensures
        bytes_result_model(r) == spec_decrypt(suite, key@, nonce@, aad@, ciphertext@),
        r matches Ok(p) ==> ciphertext@ == gcm_seal(key@, nonce@, aad@, p@)
            && p@.len() + GCM_TAG_SIZE == ciphertext@.len(),
        forall|pt: Seq<u8>|
            (key@.len() == suite.spec_key_size() && nonce@.len() == GCM_NONCE_SIZE
                && pt.len() <= MAX_PLAINTEXT_SIZE && aad@.len() <= MAX_ASSOCIATED_DATA_SIZE
                && ciphertext@ == gcm_seal(key@, nonce@, aad@, pt)
                && ciphertext@.len() == pt.len() + GCM_TAG_SIZE) ==> (r matches Ok(p) && p@ == pt),
{
    check_sizes(suite, key, nonce)?;
    if ciphertext.len() < GCM_TAG_SIZE {
        return Err(ErrorKind::InvalidBufferSize);
    }
    if ciphertext.len() > MAX_CIPHERTEXT_SIZE + GCM_TAG_SIZE {
        return Err(ErrorKind::AllocationFailed);
    }
    if aad.len() > MAX_ASSOCIATED_DATA_SIZE {
        return Err(ErrorKind::AllocationFailed);
    }
    match suite {
        CipherSuite::Aes128Gcm => aes128_open(key, nonce, aad, ciphertext),
        CipherSuite::Aes256Gcm => aes256_open(key, nonce, aad, ciphertext),
    }
}

/// AES-128-GCM encryption.
pub fn aes128gcm_encrypt(key: &[u8], nonce: &[u8], aad: &[u8], plaintext: &[u8]) -> (r: Result<
    Vec<u8>,
    ErrorKind,
>)
    ensures
        bytes_result_model(r) == spec_encrypt(CipherSuite::Aes128Gcm, key@, nonce@, aad@, plaintext@),
        r matches Ok(c) ==> c@.len() == plaintext@.len() + GCM_TAG_SIZE,
{
    encrypt(CipherSuite::Aes128Gcm, key, nonce, aad, plaintext)
}

/// AES-128-GCM decryption.
pub fn aes128gcm_decrypt(key: &[u8], nonce: &[u8], aad: &[u8], ciphertext: &[u8]) -> (r: Result<
    Vec<u8>,
    ErrorKind,
>)
    ensures
        bytes_result_model(r) == spec_decrypt(CipherSuite::Aes128Gcm, key@, nonce@, aad@, ciphertext@),
{
    decrypt(CipherSuite::Aes128Gcm, key, nonce, aad, ciphertext)
}

/// AES-256-GCM encryption.
pub fn aes256gcm_encrypt(key: &[u8], nonce: &[u8], aad: &[u8], plaintext: &[u8]) -> (r: Result<
    Vec<u8>,
    ErrorKind,
>)
    ensures
        bytes_result_model(r) == spec_encrypt(CipherSuite::Aes256Gcm, key@, nonce@, aad@, plaintext@),
        r matches Ok(c) ==> c@.len() == plaintext@.len() + GCM_TAG_SIZE,
{
    encrypt(CipherSuite::Aes256Gcm, key, nonce, aad, plaintext)
}

/// AES-256-GCM decryption.
pub fn aes256gcm_decrypt(key: &[u8], nonce: &[u8], aad: &[u8], ciphertext: &[u8]) -> (r: Result<
    Vec<u8>,
    ErrorKind,
>)
    ensures
        bytes_result_model(r) == spec_decrypt(CipherSuite::Aes256Gcm, key@, nonce@, aad@, ciphertext@),
{
    decrypt(CipherSuite::Aes256Gcm, key, nonce, aad, ciphertext)
}

} // verus!
