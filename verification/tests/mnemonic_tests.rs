//! Tests of recovery-phrase generation, validation and seed derivation.

use solana_wallet::mnemonic::{generate, to_seed, validate};
use solana_wallet::WalletError;

fn hex_to_bytes(s: &str) -> Vec<u8> {
    let chars: Vec<u8> = s.as_bytes().to_vec();
    let mut out = Vec::new();
    let mut i = 0;
    while i + 1 < chars.len() {
        let hi = (chars[i] as char).to_digit(16).unwrap() as u8;
        let lo = (chars[i + 1] as char).to_digit(16).unwrap() as u8;
        out.push(hi * 16 + lo);
        i += 2;
    }
    out
}

#[test]
fn generated_phrase_is_valid_and_twelve_words() {
    let phrase = generate();
    assert!(validate(&phrase));
    assert_eq!(phrase.split_whitespace().count(), 12);
}

#[test]
fn two_generated_phrases_differ() {
    assert_ne!(generate(), generate());
}

#[test]
fn known_phrase_validates() {
    let phrase = "abandon abandon abandon abandon abandon abandon abandon abandon abandon abandon abandon about";
    assert!(validate(phrase));
}

#[test]
fn unknown_word_invalidates() {
    assert!(!validate("abandon abandon notaword"));
}

#[test]
fn bad_checksum_invalidates() {
    let phrase = "abandon abandon abandon abandon abandon abandon abandon abandon abandon abandon abandon abandon";
    assert!(!validate(phrase));
}

#[test]
fn seed_of_known_phrase_matches_reference_vector() {
    let phrase = "abandon abandon abandon abandon abandon abandon abandon abandon abandon abandon abandon about";
    let seed = to_seed(phrase).expect("valid phrase");
    let expected = hex_to_bytes(
        "5eb00bbddcf069084889a8ab9155568165f5c453ccb85e70811aaed6f6da5fc1\
         9a5ac40b389cd370d086206dec8aa6c43daea6690f20ad3d8d48b2d2ce9e38e4",
    );
    assert_eq!(seed, expected);
}

#[test]
fn seed_of_invalid_phrase_is_refused() {
    assert_eq!(to_seed("not a phrase"), Err(WalletError::Validation));
}

#[test]
fn generated_phrase_round_trips_through_seed() {
    let phrase = generate();
    let s1 = to_seed(&phrase).unwrap();
    let s2 = to_seed(&phrase).unwrap();
    assert_eq!(s1, s2);
    assert_eq!(s1.len(), 64);
}
