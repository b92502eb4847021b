//! Password-based authenticated encryption of secret bytes into a storable
//! base64 blob: `salt (16) ∥ nonce (12) ∥ ciphertext‖tag`.
//!
//! A 256-bit key is derived from the password and a fresh random salt with
//! PBKDF2-HMAC-SHA-256 at 100,000 rounds; the secret is sealed under
//! AES-256-GCM with a fresh random 96-bit nonce and a 128-bit tag.

use crate::buf::{subvec, wipe};
use crate::WalletError;
use aes_gcm::aead::Aead;
use aes_gcm::KeyInit;
use vstd::prelude::*;

verus! {

/// Length in bytes of the random salt at the head of a blob.
pub const SALT_LEN: usize = 16;

/// Length in bytes of the random nonce following the salt.
pub const NONCE_LEN: usize = 12;

/// Length in bytes of the derived symmetric key.
pub const KEY_LEN: usize = 32;

/// Length in bytes of the authentication tag appended to the ciphertext.
pub const TAG_LEN: usize = 16;

/// Length in bytes of the salt and nonce header of a decoded blob.
pub const HEADER_LEN: usize = 28;

/// PBKDF2 iteration count: deliberately slow to resist offline brute force.
pub const PBKDF2_ROUNDS: u32 = 100000;

/// Largest plaintext the codec accepts, comfortably below the AEAD's own
/// length bound; wallet secrets are 64 bytes.
pub const PLAINTEXT_MAX: usize = 4096;

/// The 256-bit key that PBKDF2-HMAC-SHA-256 derives from a password and a
/// salt at the given round count; a function of its arguments alone.
pub uninterp spec fn derived_key(password: Seq<char>, salt: Seq<u8>, rounds: u32, len: usize) -> Seq<u8>;

/// The ciphertext-and-tag that AES-256-GCM produces for a key, a nonce and a
/// plaintext; a function of its arguments alone.
pub uninterp spec fn sealed(key: Seq<u8>, nonce: Seq<u8>, plain: Seq<u8>) -> Seq<u8>;

/// The standard base64 text of a byte string; a function of the bytes alone.
pub uninterp spec fn base64_of(bytes: Seq<u8>) -> Seq<char>;

/// `blob` is the base64 text of `salt ∥ nonce ∥ AES-GCM(key(password, salt), nonce, secret)`.
pub open spec fn blob_parts(
    blob: Seq<char>,
    salt: Seq<u8>,
    nonce: Seq<u8>,
    secret: Seq<u8>,
    password: Seq<char>,
) -> bool {
    &&& salt.len() == SALT_LEN
    &&& nonce.len() == NONCE_LEN
    &&& sealed(derived_key(password, salt, PBKDF2_ROUNDS, KEY_LEN), nonce, secret).len()
        == secret.len() + TAG_LEN
    &&& blob == base64_of(
        salt + nonce + sealed(derived_key(password, salt, PBKDF2_ROUNDS, KEY_LEN), nonce, secret),
    )
}

/// `blob` is a possible result of encrypting `secret` under `password`:
/// for some well-formed salt and nonce it encodes exactly that encryption.
pub open spec fn is_encryption_of(blob: Seq<char>, secret: Seq<u8>, password: Seq<char>) -> bool {
    &&& secret.len() <= PLAINTEXT_MAX
    &&& exists|salt: Seq<u8>, nonce: Seq<u8>| #[trigger] blob_parts(blob, salt, nonce, secret, password)
}

/// Relies on `rand::fill`: fills a buffer from the thread-local
/// cryptographically secure generator. Nothing is assumed about the values
/// drawn; every caller must work for every outcome.
#[verifier::external_body]
pub(crate) fn random_bytes(n: usize) -> (r: Vec<u8>)
    ensures
        r@.len() == n,
{
    let mut v = vec![0u8; n];
    rand::fill(&mut v[..]);
    v
}

/// Relies on `pbkdf2::pbkdf2_hmac` with `sha2::Sha256`: fills `len` bytes
/// that are a function of the password bytes, the salt and the round count
/// alone, and never fails.
#[verifier::external_body]
pub(crate) fn pbkdf2_sha256(password: &str, salt: &Vec<u8>, rounds: u32, len: usize) -> (r: Vec<u8>)
    requires
        rounds >= 1,
    ensures
        r@ == derived_key(password@, salt@, rounds, len),
        r@.len() == len,
{
    let mut key = vec![0u8; len];
    pbkdf2::pbkdf2_hmac::<sha2::Sha256>(password.as_bytes(), salt.as_slice(), rounds, &mut key);
    key
}

/// Relies on `aes_gcm::Aes256Gcm` (`KeyInit::new_from_slice` and
/// `Aead::encrypt`): for a 32-byte key, a 12-byte nonce and a plaintext
/// within the AEAD's length bound, encryption always succeeds and returns the
/// ciphertext followed by a 16-byte tag, a function of key, nonce and
/// plaintext alone.
#[verifier::external_body]
pub(crate) fn aes_gcm_seal(key: &Vec<u8>, nonce: &Vec<u8>, plain: &Vec<u8>) -> (r: Vec<u8>)
    requires
        key@.len() == KEY_LEN,
        nonce@.len() == NONCE_LEN,
        plain@.len() <= PLAINTEXT_MAX,
    ensures
        r@ == sealed(key@, nonce@, plain@),
        r@.len() == plain@.len() + TAG_LEN,
{
    let cipher = aes_gcm::Aes256Gcm::new_from_slice(key.as_slice()).unwrap();
    let nonce_arr: [u8; 12] = nonce.as_slice().try_into().unwrap();
    cipher.encrypt(&nonce_arr.into(), plain.as_slice()).unwrap()
}

/// Relies on `aes_gcm::Aes256Gcm` (`KeyInit::new_from_slice` and
/// `Aead::decrypt`): authenticated decryption inverts `encrypt` for the same
/// key and nonce; it succeeds on exactly the byte strings that `encrypt` can
/// produce under that key and nonce, returning the unique plaintext, and
/// fails on every other input.
#[verifier::external_body]
pub(crate) fn aes_gcm_open(key: &Vec<u8>, nonce: &Vec<u8>, cipher_text: &Vec<u8>) -> (r: Option<
    Vec<u8>,
>)
    requires
        key@.len() == KEY_LEN,
        nonce@.len() == NONCE_LEN,
        cipher_text@.len() <= PLAINTEXT_MAX + TAG_LEN,
    ensures
        match r {
            Some(p) => cipher_text@ == sealed(key@, nonce@, p@) && p@.len() + TAG_LEN
                == cipher_text@.len() && (forall|q: Seq<u8>|
                cipher_text@ == sealed(key@, nonce@, q) ==> q == p@),
            None => forall|p: Seq<u8>| cipher_text@ != sealed(key@, nonce@, p),
        },
{
    let cipher = aes_gcm::Aes256Gcm::new_from_slice(key.as_slice()).unwrap();
    let nonce_arr: [u8; 12] = nonce.as_slice().try_into().unwrap();
    cipher.decrypt(&nonce_arr.into(), cipher_text.as_slice()).ok()
}

/// Relies on base64's `STANDARD` engine `encode`: the canonical base64 text
/// of the bytes, a function of the bytes alone.
#[verifier::external_body]
pub(crate) fn base64_encode(bytes: &Vec<u8>) -> (r: String)
    ensures
        r@ == base64_of(bytes@),
{
    base64::Engine::encode(&base64::engine::general_purpose::STANDARD, bytes.as_slice())
}

/// Relies on base64's `STANDARD` engine `decode`, which accepts exactly the
/// canonical encodings: it returns the unique preimage of its input and fails
/// on every string that no byte string encodes to.
#[verifier::external_body]
pub(crate) fn base64_decode(text: &str) -> (r: Option<Vec<u8>>)
    ensures
        match r {
            Some(v) => text@ == base64_of(v@) && (forall|w: Seq<u8>|
                text@ == base64_of(w) ==> w == v@),
            None => forall|v: Seq<u8>| text@ != base64_of(v),
        },
{
    base64::Engine::decode(&base64::engine::general_purpose::STANDARD, text).ok()
}

/// Encrypts `secret` under `password` into a storable base64 blob.
///
/// A fresh random salt and nonce are drawn on every call, so two calls on the
/// same inputs may return different blobs; each result is an encryption of
/// `secret` under `password`.
pub fn encrypt(secret: &Vec<u8>, password: &str) -> (blob: String)
    requires
        secret@.len() <= PLAINTEXT_MAX,
    ensures
        is_encryption_of(blob@, secret@, password@),
{
    let salt = random_bytes(SALT_LEN);
    let nonce = random_bytes(NONCE_LEN);
    let mut key = pbkdf2_sha256(password, &salt, PBKDF2_ROUNDS, KEY_LEN);
    let cipher_text = aes_gcm_seal(&key, &nonce, secret);
    wipe(&mut key);
    let mut combined: Vec<u8> = Vec::new();
    combined.extend_from_slice(salt.as_slice());
    combined.extend_from_slice(nonce.as_slice());
    combined.extend_from_slice(cipher_text.as_slice());
    let blob = base64_encode(&combined);
    proof {
        assert(combined@ =~= salt@ + nonce@ + cipher_text@);
        assert(blob_parts(blob@, salt@, nonce@, secret@, password@));
    }
    blob
}

/// Everything [`decrypt`] promises of its result: a success is an encryption
/// of the returned secret, a failure is the generic authentication error and
/// happens exactly when the blob encrypts nothing under the password, and
/// every secret the blob does encrypt is the one returned.
pub open spec fn decrypt_post(
    blob: Seq<char>,
    password: Seq<char>,
    r: Result<Vec<u8>, WalletError>,
) -> bool {
    &&& match r {
        Ok(secret) => is_encryption_of(blob, secret@, password),
        Err(e) => e == WalletError::Authentication && (forall|s: Seq<u8>|
            !is_encryption_of(blob, s, password)),
    }
    &&& forall|s: Seq<u8>|
        is_encryption_of(blob, s, password) ==> (r matches Ok(secret) && secret@ == s)
}

/// Decrypts a blob produced by [`encrypt`].
///
/// Returns the unique secret that `blob` encrypts under `password`. Fails
/// with [`WalletError::Authentication`] when `blob` encrypts no secret under
/// `password` — because it is not base64, too short, or its authentication
/// tag does not verify (a wrong password and corrupted data are deliberately
/// indistinguishable).
pub fn decrypt(blob: &str, password: &str) -> (r: Result<Vec<u8>, WalletError>)
    ensures
        decrypt_post(blob@, password@, r),
{
    let combined = match base64_decode(blob) {
        Some(v) => v,
        None => {
            proof {
                assert forall|s: Seq<u8>| !is_encryption_of(blob@, s, password@) by {
                    if is_encryption_of(blob@, s, password@) {
                        let (salt, nonce) = choose|salt: Seq<u8>, nonce: Seq<u8>|
                            #[trigger] blob_parts(blob@, salt, nonce, s, password@);
                        assert(blob@ == base64_of(
                            salt + nonce + sealed(
                                derived_key(password@, salt, PBKDF2_ROUNDS, KEY_LEN),
                                nonce,
                                s,
                            ),
                        ));
                    }
                }
            }
            return Err(WalletError::Authentication);
        },
    };
    if combined.len() < HEADER_LEN + TAG_LEN || combined.len() > HEADER_LEN + PLAINTEXT_MAX
        + TAG_LEN {
        proof {
            assert forall|s: Seq<u8>| !is_encryption_of(blob@, s, password@) by {
                if is_encryption_of(blob@, s, password@) {
                    let (salt, nonce) = choose|salt: Seq<u8>, nonce: Seq<u8>|
                        #[trigger] blob_parts(blob@, salt, nonce, s, password@);
                    let payload = salt + nonce + sealed(
                        derived_key(password@, salt, PBKDF2_ROUNDS, KEY_LEN),
                        nonce,
                        s,
                    );
                    assert(combined@ == payload);
                    assert(payload.len() == HEADER_LEN + s.len() + TAG_LEN);
                }
            }
        }
        return Err(WalletError::Authentication);
    }
    let salt = subvec(&combined, 0, SALT_LEN);
    let nonce = subvec(&combined, SALT_LEN, HEADER_LEN);
    let cipher_text = subvec(&combined, HEADER_LEN, combined.len());
    proof {
        assert(combined@ =~= salt@ + nonce@ + cipher_text@);
    }
    let mut key = pbkdf2_sha256(password, &salt, PBKDF2_ROUNDS, KEY_LEN);
    let opened = aes_gcm_open(&key, &nonce, &cipher_text);
    wipe(&mut key);
    match opened {
        Some(plain) => {
            proof {
                assert(blob_parts(blob@, salt@, nonce@, plain@, password@));
                assert forall|s: Seq<u8>|
                    is_encryption_of(blob@, s, password@) implies plain@ == s by {
                    let (salt2, nonce2) = choose|salt2: Seq<u8>, nonce2: Seq<u8>|
                        #[trigger] blob_parts(blob@, salt2, nonce2, s, password@);
                    let sealed2 = sealed(
                        derived_key(password@, salt2, PBKDF2_ROUNDS, KEY_LEN),
                        nonce2,
                        s,
                    );
                    let payload = salt2 + nonce2 + sealed2;
                    assert(combined@ == payload);
                    assert(salt2 =~= combined@.subrange(0, SALT_LEN as int));
                    assert(nonce2 =~= combined@.subrange(SALT_LEN as int, HEADER_LEN as int));
                    assert(sealed2 =~= combined@.subrange(HEADER_LEN as int, combined@.len() as int));
                    assert(cipher_text@ == sealed(
                        derived_key(password@, salt@, PBKDF2_ROUNDS, KEY_LEN),
                        nonce@,
                        s,
                    ));
                }
            }
            Ok(plain)
        },
        None => {
            proof {
                assert forall|s: Seq<u8>| !is_encryption_of(blob@, s, password@) by {
                    if is_encryption_of(blob@, s, password@) {
                        let (salt2, nonce2) = choose|salt2: Seq<u8>, nonce2: Seq<u8>|
                            #[trigger] blob_parts(blob@, salt2, nonce2, s, password@);
                        let sealed2 = sealed(
                            derived_key(password@, salt2, PBKDF2_ROUNDS, KEY_LEN),
                            nonce2,
                            s,
                        );
                        let payload = salt2 + nonce2 + sealed2;
                        assert(combined@ == payload);
                        assert(salt2 =~= combined@.subrange(0, SALT_LEN as int));
                        assert(nonce2 =~= combined@.subrange(SALT_LEN as int, HEADER_LEN as int));
                        assert(sealed2 =~= combined@.subrange(
                            HEADER_LEN as int,
                            combined@.len() as int,
                        ));
                        assert(cipher_text@ == sealed(
                            derived_key(password@, salt@, PBKDF2_ROUNDS, KEY_LEN),
                            nonce@,
                            s,
                        ));
                    }
                }
            }
            Err(WalletError::Authentication)
        },
    }
}

} // verus!
