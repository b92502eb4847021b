//! Recovery phrases: generation of a twelve-word checksummed phrase,
//! validation against the English wordlist, and deterministic derivation of
//! the 64-byte seed (empty passphrase, standard phrase-to-seed stretching).

use crate::WalletError;
use vstd::prelude::*;

verus! {

/// Length in bytes of the seed derived from a phrase.
pub const SEED_BYTES: usize = 64;

/// Whether a phrase is a valid checksummed mnemonic over the English
/// wordlist; a function of the phrase alone.
pub uninterp spec fn is_valid_phrase(phrase: Seq<char>) -> bool;

/// The 64-byte seed derived from a valid phrase with an empty passphrase;
/// a function of the phrase alone.
pub uninterp spec fn seed_of_phrase(phrase: Seq<char>) -> Seq<u8>;

/// Relies on `bip39::Mnemonic::generate` with the twelve-word count: it
/// draws fresh entropy from the system generator — nothing is assumed about
/// which phrase comes back — and a generated mnemonic always renders as a
/// valid phrase.
#[verifier::external_body]
pub(crate) fn generate_phrase() -> (r: String)
    ensures
        is_valid_phrase(r@),
{
    let m = bip39::Mnemonic::generate(bip39::WordCount::Words12).unwrap();
    m.to_string()
}

/// Relies on `bip39::Mnemonic::parse_in` with the English wordlist: whether
/// a phrase parses as a valid checksummed mnemonic is a function of the
/// phrase alone.
#[verifier::external_body]
pub(crate) fn parse_phrase(phrase: &str) -> (r: bool)
    ensures
        r == is_valid_phrase(phrase@),
{
    bip39::Mnemonic::parse_in(bip39::Language::English, phrase).is_ok()
}

/// Relies on `bip39::Mnemonic::parse_in` and `Mnemonic::to_seed` with an
/// empty passphrase: parsing succeeds exactly on valid phrases, and the
/// 64-byte seed is a function of the phrase alone.
#[verifier::external_body]
pub(crate) fn phrase_seed(phrase: &str) -> (r: Option<Vec<u8>>)
    ensures
        r is Some <==> is_valid_phrase(phrase@),
        r matches Some(v) ==> v@ == seed_of_phrase(phrase@) && v@.len() == SEED_BYTES,
{
    match bip39::Mnemonic::parse_in(bip39::Language::English, phrase) {
        Ok(m) => Some(m.to_seed("").to_vec()),
        Err(_) => None,
    }
}

/// Generates a fresh twelve-word recovery phrase (128 bits of entropy plus
/// checksum) from the secure random source.
pub fn generate() -> (r: String)
    ensures
        is_valid_phrase(r@),
{
    generate_phrase()
}

/// Checks wordlist membership and checksum of a phrase.
pub fn validate(phrase: &str) -> (r: bool)
    ensures
        r == is_valid_phrase(phrase@),
{
    parse_phrase(phrase)
}

/// Derives the 64-byte seed of a valid phrase; rejects an invalid phrase
/// with [`WalletError::Validation`] before any key material is derived.
pub fn to_seed(phrase: &str) -> (r: Result<Vec<u8>, WalletError>)
    ensures
        r is Ok <==> is_valid_phrase(phrase@),
        r matches Ok(v) ==> v@ == seed_of_phrase(phrase@) && v@.len() == SEED_BYTES,
        r matches Err(e) ==> e == WalletError::Validation,
{
    match phrase_seed(phrase) {
        Some(v) => Ok(v),
        None => Err(WalletError::Validation),
    }
}

} // verus!
