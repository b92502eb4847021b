//! Ed25519 keypairs in the 64-byte Solana wire form: the 32-byte signing
//! seed followed by the 32-byte public key derived from it, with the
//! wallet address as the base58 text of the public key half.

use crate::buf::{bytes_eq, subvec, wipe};
use crate::WalletError;
use vstd::prelude::*;

verus! {

/// Length in bytes of the full keypair: signing seed followed by public key.
pub const KEYPAIR_LEN: usize = 64;

/// Length in bytes of the signing seed (and of the public key).
pub const SEED_LEN: usize = 32;

/// The base58 text of a byte string; a function of the bytes alone.
pub uninterp spec fn b58_of(bytes: Seq<u8>) -> Seq<char>;

/// The 64-byte keypair that ed25519 key expansion derives from a 32-byte
/// signing seed; a function of the seed alone, with the seed as its first
/// half.
pub uninterp spec fn keypair_of_seed(seed: Seq<u8>) -> Seq<u8>;

/// `bytes` is a well-formed keypair: 64 bytes whose public half is derived
/// from its seed half.
pub open spec fn is_consistent_keypair(bytes: Seq<u8>) -> bool {
    &&& bytes.len() == KEYPAIR_LEN
    &&& bytes == keypair_of_seed(bytes.subrange(0, SEED_LEN as int))
}

/// The address encoded by a well-formed keypair: base58 of its public half.
pub open spec fn address_of(bytes: Seq<u8>) -> Seq<char> {
    b58_of(bytes.subrange(SEED_LEN as int, KEYPAIR_LEN as int))
}

/// Relies on `bs58::encode`: the canonical base58 text of the bytes, a
/// function of the bytes alone.
#[verifier::external_body]
pub(crate) fn bs58_encode(bytes: &Vec<u8>) -> (r: String)
    ensures
        r@ == b58_of(bytes@),
{
    bs58::encode(bytes.as_slice()).into_string()
}

/// Relies on `bs58::decode`: base58 decoding accepts exactly the canonical
/// encodings, returns the unique preimage of its input, and fails on every
/// string that no byte string encodes to.
#[verifier::external_body]
pub(crate) fn bs58_decode(text: &str) -> (r: Option<Vec<u8>>)
    ensures
        match r {
            Some(v) => text@ == b58_of(v@) && (forall|w: Seq<u8>| text@ == b58_of(w) ==> w == v@),
            None => forall|v: Seq<u8>| text@ != b58_of(v),
        },
{
    bs58::decode(text).into_vec().ok()
}

/// Relies on `solana_sdk::signer::keypair::keypair_from_seed` and
/// `Keypair::to_bytes`: for a 32-byte seed the call succeeds and the 64-byte
/// result — the seed followed by its ed25519 public key — is a function of
/// the seed alone.
#[verifier::external_body]
pub(crate) fn expand_seed(seed: &Vec<u8>) -> (r: Vec<u8>)
    requires
        seed@.len() == SEED_LEN,
    ensures
        r@ == keypair_of_seed(seed@),
        r@.len() == KEYPAIR_LEN,
        r@.subrange(0, SEED_LEN as int) == seed@,
{
    let kp = solana_sdk::signer::keypair::keypair_from_seed(seed.as_slice()).unwrap();
    kp.to_bytes().to_vec()
}

/// An ed25519 keypair held in volatile memory together with its address.
/// It exists only inside an unlocked session and is never serialized in
/// plaintext; leaving the session wipes its bytes.
pub struct Keypair {
    bytes: Vec<u8>,
    address: String,
}

impl Keypair {
    /// The 64 keypair bytes: signing seed followed by public key.
    pub closed spec fn key_bytes(self) -> Seq<u8> {
        self.bytes@
    }

    /// The base58 address held beside the bytes.
    pub closed spec fn spec_address(self) -> Seq<char> {
        self.address@
    }

    /// Well-formedness: the bytes are a consistent keypair and the address
    /// is the base58 text of the public half.
    pub open spec fn wf(self) -> bool {
        &&& is_consistent_keypair(self.key_bytes())
        &&& self.spec_address() == address_of(self.key_bytes())
    }

    /// Expands a 32-byte signing seed into a keypair.
    pub fn from_seed(seed: &Vec<u8>) -> (kp: Keypair)
        requires
            seed@.len() == SEED_LEN,
        ensures
            kp.wf(),
            kp.key_bytes() == keypair_of_seed(seed@),
    {
        let bytes = expand_seed(seed);
        let pubkey = subvec(&bytes, SEED_LEN, KEYPAIR_LEN);
        let address = bs58_encode(&pubkey);
        Keypair { bytes, address }
    }

    /// Validates 64 candidate keypair bytes and takes them over.
    ///
    /// Fails with [`WalletError::Validation`] when the length is wrong or
    /// the public half does not match the one derived from the seed half.
    pub fn try_from_bytes(bytes: Vec<u8>) -> (r: Result<Keypair, WalletError>)
        ensures
            match r {
                Ok(kp) => kp.wf() && kp.key_bytes() == bytes@ && is_consistent_keypair(bytes@),
                Err(e) => e == WalletError::Validation && !is_consistent_keypair(bytes@),
            },
    {
        let mut bytes = bytes;
        if bytes.len() != KEYPAIR_LEN {
            wipe(&mut bytes);
            return Err(WalletError::Validation);
        }
        let mut seed = subvec(&bytes, 0, SEED_LEN);
        let mut expanded = expand_seed(&seed);
        if !bytes_eq(&expanded, &bytes) {
            proof {
                if is_consistent_keypair(bytes@) {
                    assert(bytes@.subrange(0, SEED_LEN as int) == seed@);
                }
            }
            wipe(&mut seed);
            wipe(&mut expanded);
            wipe(&mut bytes);
            return Err(WalletError::Validation);
        }
        proof {
            assert(bytes@.subrange(0, SEED_LEN as int) == seed@);
            assert(is_consistent_keypair(bytes@));
        }
        wipe(&mut seed);
        wipe(&mut expanded);
        let pubkey = subvec(&bytes, SEED_LEN, KEYPAIR_LEN);
        let address = bs58_encode(&pubkey);
        Ok(Keypair { bytes, address })
    }

    /// The wallet address: base58 of the public key half.
    pub fn address(&self) -> (r: String)
        ensures
            r@ == self.spec_address(),
    {
        self.address.clone()
    }

    /// Borrows the raw keypair bytes for encryption at rest.
    pub(crate) fn bytes_ref(&self) -> (r: &Vec<u8>)
        ensures
            r@ == self.key_bytes(),
    {
        &self.bytes
    }

    /// The keypair in its exported text form: base58 of all 64 bytes.
    pub fn export(&self) -> (r: String)
        ensures
            r@ == b58_of(self.key_bytes()),
    {
        bs58_encode(&self.bytes)
    }

    /// Overwrites the secret bytes with zeros, so that leaving the session
    /// releases no readable key material.
    pub fn zeroize(&mut self)
        ensures
            final(self).key_bytes().len() == old(self).key_bytes().len(),
            forall|i: int|
                0 <= i < final(self).key_bytes().len() ==> final(self).key_bytes()[i] == 0u8,
    {
        wipe(&mut self.bytes);
    }
}

} // verus!
