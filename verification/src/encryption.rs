//! Symmetric encryption of notification channel configurations with
//! AES-256-GCM: a fresh 12-byte nonce is put in front of each ciphertext.

use vstd::prelude::*;
use aes_gcm::aead::{Aead, AeadCore, KeyInit, OsRng};

verus! {

/// Length of an AES-256 key in bytes.
pub const KEY_LENGTH: usize = 32;

/// Length of an AES-GCM nonce in bytes.
pub const NONCE_LENGTH: usize = 12;

/// Length of the authentication tag that AES-GCM appends.
pub const TAG_LENGTH: usize = 16;

/// The largest plaintext that AES-GCM encrypts (`aes_gcm::P_MAX`).
pub const MAX_PLAINTEXT: u64 = 0x10_0000_0000;

/// Errors of the encryption service.
#[derive(Debug)]
pub enum EncryptionError {
    EncryptionFailed(String),
    DecryptionFailed(String),
    InvalidKeyLength,
}

/// The ciphertext (with its tag) that AES-256-GCM produces for a key, a
/// nonce and a plaintext, with no associated data.
pub uninterp spec fn aes256gcm_seal(key: Seq<u8>, nonce: Seq<u8>, plaintext: Seq<u8>) -> Seq<u8>;

/// The plaintext that AES-256-GCM recovers from a ciphertext under a key and
/// a nonce, or `None` when authentication fails.
pub uninterp spec fn aes256gcm_open(key: Seq<u8>, nonce: Seq<u8>, ciphertext: Seq<u8>) -> Option<Seq<u8>>;

/// Calls `aes_gcm::Aes256Gcm::new_from_slice`. The contract claims what its
/// source shows: the key is accepted exactly when it is 32 bytes long.
#[verifier::external_body]
fn aes256gcm_accepts_key(key: &[u8]) -> (r: bool)
    ensures
        r == (key@.len() == KEY_LENGTH),
{
    aes_gcm::Aes256Gcm::new_from_slice(key).is_ok()
}

/// Calls `aes_gcm::Aes256Gcm::generate_nonce` with the operating system's
/// random source. The contract claims only the nonce's length; its bytes are
/// random.
#[verifier::external_body]
fn random_nonce() -> (n: Vec<u8>)
    ensures
        n@.len() == NONCE_LENGTH,
{
    aes_gcm::Aes256Gcm::generate_nonce(&mut OsRng).to_vec()
}

/// Calls `Aead::encrypt` of `aes_gcm::Aes256Gcm` (no associated data). The
/// contract claims what the source shows: it fails exactly when the plaintext
/// is longer than `P_MAX`, and otherwise returns the ciphertext followed by
/// the 16-byte tag; and what AEAD encryption promises: decryption under the
/// same key and nonce gives the plaintext back.
#[verifier::external_body]
fn aes256gcm_encrypt(key: &[u8], nonce: &[u8], plaintext: &[u8]) -> (r: Result<Vec<u8>, String>)
    requires
        key@.len() == KEY_LENGTH,
        nonce@.len() == NONCE_LENGTH,
    ensures
        r is Ok <==> plaintext@.len() <= MAX_PLAINTEXT,
        r matches Ok(c) ==> c@ == aes256gcm_seal(key@, nonce@, plaintext@),
        r matches Ok(c) ==> c@.len() == plaintext@.len() + TAG_LENGTH,
        r is Ok ==> aes256gcm_open(key@, nonce@, aes256gcm_seal(key@, nonce@, plaintext@)) == Some(plaintext@),
{
    let cipher = aes_gcm::Aes256Gcm::new_from_slice(key).map_err(|e| e.to_string())?;
    cipher.encrypt(aes_gcm::Nonce::from_slice(nonce), plaintext).map_err(|e| e.to_string())
}

/// Calls `Aead::decrypt` of `aes_gcm::Aes256Gcm` (no associated data). The
/// contract claims that it succeeds exactly when AES-256-GCM opens the
/// ciphertext, with the plaintext it recovers; the error text is the
/// `aead::Error` message. It also claims what the source shows of an
/// accepted ciphertext: the 16-byte tag follows a body as long as the
/// plaintext, and since the tag is recomputed over the body and compared,
/// and the body is the plaintext under the same keystream that encryption
/// applies, an accepted ciphertext is exactly what encrypting its plaintext
/// under the same key and nonce gives (for a plaintext encryption accepts).
#[verifier::external_body]
fn aes256gcm_decrypt(key: &[u8], nonce: &[u8], ciphertext: &[u8]) -> (r: Result<Vec<u8>, String>)
    requires
        key@.len() == KEY_LENGTH,
        nonce@.len() == NONCE_LENGTH,
    ensures
        match aes256gcm_open(key@, nonce@, ciphertext@) {
            Some(p) => r matches Ok(v) && v@ == p,
            None => r is Err,
        },
        r is Ok ==> ciphertext@.len() == r->Ok_0@.len() + TAG_LENGTH,
        r is Ok && r->Ok_0@.len() <= MAX_PLAINTEXT ==> ciphertext@ == aes256gcm_seal(key@, nonce@, r->Ok_0@),
{
    let cipher = aes_gcm::Aes256Gcm::new_from_slice(key).map_err(|e| e.to_string())?;
    cipher.decrypt(aes_gcm::Nonce::from_slice(nonce), ciphertext).map_err(|e| e.to_string())
}

/// The outcome of decrypting `data` under `key`: data shorter than a nonce
/// is refused, otherwise the first 12 bytes are the nonce and the rest is
/// opened with it.
pub open spec fn spec_decrypt(key: Seq<u8>, data: Seq<u8>) -> Option<Seq<u8>> {
    if data.len() < NONCE_LENGTH {
        None
    } else {
        aes256gcm_open(key, data.subrange(0, NONCE_LENGTH as int), data.subrange(NONCE_LENGTH as int, data.len() as int))
    }
}

/// A service for encrypting and decrypting channel configurations.
pub struct EncryptionService {
    key: Vec<u8>,
}

impl EncryptionService {
    /// The service's key.
    pub closed spec fn key(&self) -> Seq<u8> {
        self.key@
    }

    /// Every service holds an AES-256 key.
    #[verifier::type_invariant]
    spec fn key_is_aes256(&self) -> bool {
        self.key@.len() == KEY_LENGTH
    }

    /// Creates a service from a key; fails with `InvalidKeyLength` unless the
    /// key is 32 bytes long.
    pub fn new(key: &[u8]) -> (r: Result<EncryptionService, EncryptionError>)
        ensures
            match r {
                Ok(s) => key@.len() == KEY_LENGTH && s.key() == key@,
                Err(e) => key@.len() != KEY_LENGTH && e is InvalidKeyLength,
            },
    {
        if !aes256gcm_accepts_key(key) {
            return Err(EncryptionError::InvalidKeyLength);
        }
        let mut k: Vec<u8> = Vec::new();
        let mut i: usize = 0;
        while i < key.len()
            invariant
                i <= key@.len(),
                k@ == key@.subrange(0, i as int),
            decreases key@.len() - i,
        {
            k.push(key[i]);
            i = i + 1;
        }
        assert(k@ =~= key@);
        Ok(EncryptionService { key: k })
    }

    /// Encrypts a plaintext under a fresh random nonce and returns the nonce
    /// followed by the ciphertext; fails only for a plaintext longer than
    /// AES-GCM allows.
    pub fn encrypt(&self, plaintext: &[u8]) -> (r: Result<Vec<u8>, EncryptionError>)
        ensures
            r is Ok <==> plaintext@.len() <= MAX_PLAINTEXT,
            r matches Ok(out) ==> out@.len() == NONCE_LENGTH + plaintext@.len() + TAG_LENGTH
                && out@ == out@.subrange(0, NONCE_LENGTH as int) + aes256gcm_seal(
                self.key(),
                out@.subrange(0, NONCE_LENGTH as int),
                plaintext@,
            ) && spec_decrypt(self.key(), out@) == Some(plaintext@),
            r matches Err(e) ==> e is EncryptionFailed,
    {
        proof {
            use_type_invariant(self);
        }
        let nonce = random_nonce();
        let sealed = aes256gcm_encrypt(self.key.as_slice(), nonce.as_slice(), plaintext);
        match sealed {
            Ok(c) => {
                let mut out = nonce;
                let ghost n = out@;
                let mut c = c;
                let ghost cv = c@;
                out.append(&mut c);
                assert(out@.subrange(0, NONCE_LENGTH as int) =~= n);
                assert(out@.subrange(NONCE_LENGTH as int, out@.len() as int) =~= cv);
                Ok(out)
            },
            Err(e) => Err(EncryptionError::EncryptionFailed(e)),
        }
    }

    /// Decrypts data laid out as a 12-byte nonce followed by the ciphertext;
    /// data too short to hold a nonce, and data that fails authentication, are
    /// refused. Data that is accepted is exactly the nonce followed by the
    /// encryption of the plaintext returned, so data that differs from an
    /// encryption of `p` in anything but its nonce never decrypts to `p`.
    pub fn decrypt(&self, encrypted_data: &[u8]) -> (r: Result<Vec<u8>, EncryptionError>)
        ensures
            match spec_decrypt(self.key(), encrypted_data@) {
                Some(p) => r matches Ok(v) && v@ == p,
                None => r matches Err(e) && e is DecryptionFailed,
            },
            encrypted_data@.len() < NONCE_LENGTH ==> (r matches Err(EncryptionError::DecryptionFailed(m))
                && m@ == "Invalid encrypted data: too short to contain a nonce"@),
            r matches Ok(v) ==> encrypted_data@.len() == NONCE_LENGTH + v@.len() + TAG_LENGTH,
            r matches Ok(v) ==> (v@.len() <= MAX_PLAINTEXT ==> encrypted_data@ == encrypted_data@.subrange(
                0,
                NONCE_LENGTH as int,
            ) + aes256gcm_seal(self.key(), encrypted_data@.subrange(0, NONCE_LENGTH as int), v@)),
    {
        proof {
            use_type_invariant(self);
        }
        if encrypted_data.len() < NONCE_LENGTH {
            return Err(EncryptionError::DecryptionFailed(
                "Invalid encrypted data: too short to contain a nonce".to_string(),
            ));
        }
        let mut nonce: Vec<u8> = Vec::new();
        let mut rest: Vec<u8> = Vec::new();
        let mut i: usize = 0;
        while i < encrypted_data.len()
            invariant
                i <= encrypted_data@.len(),
                NONCE_LENGTH <= encrypted_data@.len(),
                i <= NONCE_LENGTH ==> nonce@ == encrypted_data@.subrange(0, i as int) && rest@.len() == 0,
                i > NONCE_LENGTH ==> nonce@ == encrypted_data@.subrange(0, NONCE_LENGTH as int)
                    && rest@ == encrypted_data@.subrange(NONCE_LENGTH as int, i as int),
            decreases encrypted_data@.len() - i,
        {
            if i < NONCE_LENGTH {
                nonce.push(encrypted_data[i]);
            } else {
                rest.push(encrypted_data[i]);
            }
            i = i + 1;
        }
        assert(rest@ =~= encrypted_data@.subrange(NONCE_LENGTH as int, encrypted_data@.len() as int));
        match aes256gcm_decrypt(self.key.as_slice(), nonce.as_slice(), rest.as_slice()) {
            Ok(p) => Ok(p),
            Err(e) => Err(EncryptionError::DecryptionFailed(e)),
        }
    }
}

} // verus!
