//! Key derivation and the authenticated seal/open transforms.
//!
//! A sealed blob is laid out as `ciphertext-and-tag || nonce`, with the
//! random 96-bit nonce occupying the fixed trailing bytes. The AES-256-GCM
//! primitive and the SHA-256 digest come from outside crates and are reached
//! through the trusted wrappers below; everything around them is verified.

use vstd::prelude::*;
use vstd::slice::slice_subrange;
use aes_gcm::KeyInit;
use aes_gcm::aead::Aead;

verus! {

/// Number of bytes of the random nonce appended to every sealed blob.
pub const NONCE_SIZE: usize = 12;

/// Number of bytes the AEAD appends to the plaintext as its authentication tag.
pub const TAG_SIZE: usize = 16;

/// Largest plaintext (in bytes) the AEAD primitive accepts in one call.
pub const PLAINTEXT_MAX: u64 = 0x10_0000_0000;

/// Every failure of the two transforms. Opening collapses all of its causes
/// (wrong key, tampering, truncation, too-short input) into the single
/// `AuthenticationFailure`, so that callers cannot be used as an oracle for
/// why a blob was rejected.
#[derive(Clone, Copy, Debug, PartialEq, Eq)]
pub enum CryptoError {
    /// The encryption primitive reported a failure.
    SealFailure,
    /// The authentication tag did not verify, or the input could not carry one.
    AuthenticationFailure,
}

/// What sha2's `Sha256` digest returns for the given bytes: a function of the
/// input alone.
pub uninterp spec fn sha256_of(material: Seq<u8>) -> Seq<u8>;

/// What aes_gcm's AES-256-GCM encryption returns for the given key, nonce and
/// plaintext: the ciphertext with the authentication tag appended, a function
/// of those three arguments alone.
pub uninterp spec fn aes_gcm_seal(key: Seq<u8>, nonce: Seq<u8>, plaintext: Seq<u8>) -> Seq<u8>;

/// What aes_gcm's AES-256-GCM decryption returns for the given key, nonce and
/// ciphertext-with-tag: the plaintext when the tag verifies, nothing
/// otherwise, a function of those three arguments alone.
pub uninterp spec fn aes_gcm_open(key: Seq<u8>, nonce: Seq<u8>, ciphertext: Seq<u8>) -> Option<Seq<u8>>;

/// The blob that sealing `plaintext` under `key` produces when it draws
/// `nonce`: the AEAD output with the nonce appended.
pub open spec fn seal_spec(key: Seq<u8>, nonce: Seq<u8>, plaintext: Seq<u8>) -> Seq<u8> {
    aes_gcm_seal(key, nonce, plaintext) + nonce
}

/// What opening `blob` under `key` recovers: the trailing `NONCE_SIZE` bytes
/// are the nonce and the rest is handed to the AEAD; a blob too short to
/// carry a nonce recovers nothing.
pub open spec fn open_spec(key: Seq<u8>, blob: Seq<u8>) -> Option<Seq<u8>> {
    if blob.len() >= NONCE_SIZE {
        aes_gcm_open(
            key,
            blob.subrange(blob.len() - NONCE_SIZE, blob.len() as int),
            blob.subrange(0, blob.len() - NONCE_SIZE),
        )
    } else {
        None
    }
}

/// A 256-bit symmetric key, derived deterministically from arbitrary-length
/// key material. Its view is the 32-byte key itself.
pub struct Key {
    bytes: [u8; 32],
}

impl View for Key {
    type V = Seq<u8>;

    closed spec fn view(&self) -> Seq<u8> {
        self.bytes@
    }
}

impl Key {
    /// Derive a key from key material: the SHA-256 digest of the material is
    /// the key. Any material, the empty sequence included, yields a valid
    /// key, and identical material always yields an identical key.
    pub fn new(material: &[u8]) -> (r: Result<Key, CryptoError>)
        ensures
            r is Ok,
            r matches Ok(k) ==> k@ == sha256_of(material@) && k@.len() == 32,
    {
        let bytes = sha256_digest(material);
        Ok(Key { bytes })
    }
}

/// Relies on sha2's `Sha256::digest`: a 32-byte digest that depends on the
/// input bytes alone.
#[verifier::external_body]
fn sha256_digest(material: &[u8]) -> (r: [u8; 32])
    ensures
        r@ == sha256_of(material@),
{
    <sha2::Sha256 as sha2::Digest>::digest(material).into()
}

/// Relies on rand's `thread_rng` and `Rng::gen`: `NONCE_SIZE` bytes from the
/// thread-local cryptographically secure generator. Nothing is known of the
/// value drawn.
#[verifier::external_body]
fn fresh_nonce() -> (r: [u8; NONCE_SIZE])
{
    rand::Rng::gen(&mut rand::thread_rng())
}

/// Relies on aes_gcm's `Aes256Gcm`: `KeyInit::new_from_slice` accepts every
/// 32-byte key, and `Aead::encrypt` returns the ciphertext with the tag
/// appended — a function of key, nonce and plaintext alone — accepting every
/// plaintext of at most `PLAINTEXT_MAX` bytes; decrypting its output under
/// the same key and nonce returns the plaintext.
#[verifier::external_body]
fn aead_seal(key: &Key, nonce: &[u8; NONCE_SIZE], plaintext: &[u8]) -> (r: Result<Vec<u8>, CryptoError>)
    ensures
        r matches Ok(c) ==> c@ == aes_gcm_seal(key@, nonce@, plaintext@),
        r matches Ok(c) ==> c@.len() == plaintext@.len() + TAG_SIZE,
        r matches Ok(c) ==> aes_gcm_open(key@, nonce@, c@) == Some(plaintext@),
        r matches Err(e) ==> e == CryptoError::SealFailure,
        plaintext@.len() <= PLAINTEXT_MAX ==> r is Ok,
{
    let cipher = match aes_gcm::Aes256Gcm::new_from_slice(&key.bytes) {
        Ok(c) => c,
        Err(_) => return Err(CryptoError::SealFailure),
    };
    cipher
        .encrypt(aes_gcm::Nonce::from_slice(nonce.as_slice()), plaintext)
        .map_err(|_| CryptoError::SealFailure)
}

/// Relies on aes_gcm's `Aes256Gcm`: `KeyInit::new_from_slice` accepts every
/// 32-byte key, and `Aead::decrypt` — a function of key, nonce and
/// ciphertext alone — returns the plaintext exactly when the authentication
/// tag verifies, and reports failure otherwise.
#[verifier::external_body]
fn aead_open(key: &Key, nonce: &[u8], ciphertext: &[u8]) -> (r: Result<Vec<u8>, CryptoError>)
    requires
        nonce@.len() == NONCE_SIZE,
    ensures
        r matches Ok(p) ==> aes_gcm_open(key@, nonce@, ciphertext@) == Some(p@),
        r is Err ==> aes_gcm_open(key@, nonce@, ciphertext@) is None,
        r matches Err(e) ==> e == CryptoError::AuthenticationFailure,
{
    let cipher = match aes_gcm::Aes256Gcm::new_from_slice(&key.bytes) {
        Ok(c) => c,
        Err(_) => return Err(CryptoError::AuthenticationFailure),
    };
    cipher
        .decrypt(aes_gcm::Nonce::from_slice(nonce), ciphertext)
        .map_err(|_| CryptoError::AuthenticationFailure)
}

/// Round trip: sealing appends the nonce to the AEAD output and opening
/// splits it off again, so a blob that sealing `plaintext` under `key` with
/// `nonce` produces opens, under the same key, to exactly `plaintext`.
pub proof fn lemma_round_trip(key: Seq<u8>, nonce: Seq<u8>, plaintext: Seq<u8>)
    requires
        nonce.len() == NONCE_SIZE,
        aes_gcm_open(key, nonce, aes_gcm_seal(key, nonce, plaintext)) == Some(plaintext),
    ensures
        open_spec(key, seal_spec(key, nonce, plaintext)) == Some(plaintext),
{
    let body = aes_gcm_seal(key, nonce, plaintext);
    let blob = seal_spec(key, nonce, plaintext);
    assert(blob.subrange(blob.len() - NONCE_SIZE, blob.len() as int) =~= nonce);
    assert(blob.subrange(0, blob.len() - NONCE_SIZE) =~= body);
}

/// Seal: encrypt `plaintext` under `key` with a fresh random 96-bit nonce
/// and append that nonce to the AEAD output. The blob opens under the same
/// key to exactly `plaintext`, and sealing is owed to succeed for every
/// plaintext the primitive accepts.
pub fn encrypt(plaintext: &[u8], key: Key) -> (r: Result<Vec<u8>, CryptoError>)
    ensures
        r matches Ok(blob) ==> ({
            &&& blob@.len() == plaintext@.len() + TAG_SIZE + NONCE_SIZE
            &&& exists|nonce: Seq<u8>|
                nonce.len() == NONCE_SIZE && blob@ == #[trigger] seal_spec(key@, nonce, plaintext@)
            &&& open_spec(key@, blob@) == Some(plaintext@)
        }),
        r matches Err(e) ==> e == CryptoError::SealFailure,
        plaintext@.len() <= PLAINTEXT_MAX ==> r is Ok,
{
    let nonce = fresh_nonce();
    match aead_seal(&key, &nonce, plaintext) {
        Ok(mut blob) => {
            let ghost sealed = blob@;
            assert(blob@ =~= sealed + nonce@.take(0));
            let mut i: usize = 0;
            while i < NONCE_SIZE
                invariant
                    i <= NONCE_SIZE,
                    blob@ == sealed + nonce@.take(i as int),
                decreases NONCE_SIZE - i,
            {
                blob.push(nonce[i]);
                assert(blob@ =~= sealed + nonce@.take(i + 1));
                i = i + 1;
            }
            assert(nonce@.take(NONCE_SIZE as int) =~= nonce@);
            proof {
                lemma_round_trip(key@, nonce@, plaintext@);
            }
            assert(blob@ == seal_spec(key@, nonce@, plaintext@));
            Ok(blob)
        },
        Err(e) => Err(e),
    }
}

/// Open: split the trailing 96-bit nonce off `ciphertext` and run the AEAD
/// over the rest. The plaintext comes back exactly when the blob, under
/// `key`, carries a verifying tag; every other input — wrong key, tampered
/// or truncated blob, or one too short to carry a nonce — is rejected with
/// the single undifferentiated `AuthenticationFailure`.
pub fn decrypt(ciphertext: &[u8], key: Key) -> (r: Result<Vec<u8>, CryptoError>)
    ensures
        r matches Ok(p) ==> open_spec(key@, ciphertext@) == Some(p@),
        r is Err ==> open_spec(key@, ciphertext@) is None,
        r matches Err(e) ==> e == CryptoError::AuthenticationFailure,
        ciphertext@.len() < NONCE_SIZE ==> r is Err,
{
    if ciphertext.len() < NONCE_SIZE {
        return Err(CryptoError::AuthenticationFailure);
    }
    let split: usize = ciphertext.len() - NONCE_SIZE;
    let body = slice_subrange(ciphertext, 0, split);
    let nonce = slice_subrange(ciphertext, split, ciphertext.len());
    aead_open(&key, nonce, body)
}

/// Determinism of derivation: two keys independently derived from the same
/// material are the same key, and behave identically under seal and open.
pub proof fn lemma_derive_deterministic(k1: Key, k2: Key, material: Seq<u8>)
    requires
        k1@ == sha256_of(material),
        k2@ == sha256_of(material),
    ensures
        k1@ == k2@,
        forall|blob: Seq<u8>| #[trigger] open_spec(k1@, blob) == open_spec(k2@, blob),
        forall|nonce: Seq<u8>, plaintext: Seq<u8>|
            #[trigger] seal_spec(k1@, nonce, plaintext) == seal_spec(k2@, nonce, plaintext),
{
}

/// Nonce freshness, the part that holds of the layout: a sealed blob carries
/// its nonce in the trailing bytes, so two seals of the same plaintext under
/// the same key that draw distinct nonces produce distinct blobs. That two
/// draws are distinct with overwhelming probability is a property of the
/// random source, not provable here.
pub proof fn lemma_distinct_nonces_distinct_blobs(
    key: Seq<u8>,
    plaintext: Seq<u8>,
    n1: Seq<u8>,
    n2: Seq<u8>,
)
    requires
        n1.len() == NONCE_SIZE,
        n2.len() == NONCE_SIZE,
        n1 != n2,
    ensures
        seal_spec(key, n1, plaintext) != seal_spec(key, n2, plaintext),
{
    let b1 = seal_spec(key, n1, plaintext);
    let b2 = seal_spec(key, n2, plaintext);
    assert(b1.subrange(b1.len() - NONCE_SIZE, b1.len() as int) =~= n1);
    assert(b2.subrange(b2.len() - NONCE_SIZE, b2.len() as int) =~= n2);
}

} // verus!
