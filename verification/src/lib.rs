//! Key-custody core of a local Solana software wallet.
//!
//! The library owns the security-critical logic: password-based authenticated
//! encryption of secret key bytes (`codec`), mnemonic phrase handling
//! (`mnemonic`), keypair construction and base58 encoding (`keys`), and the
//! locked/unlocked session state machine that ties them together (`wallet`).
//! Network and user-interface glue lives outside the library and hands plain
//! values in and out.

use vstd::prelude::*;

pub mod api;
pub mod auth;
pub mod buf;
pub mod codec;
pub mod keys;
pub mod laws;
pub mod mnemonic;
pub mod render;
pub mod wallet;

verus! {

/// The error taxonomy of the wallet core. Every failure is returned as a
/// typed result; the core performs no retries and no recovery.
#[derive(Clone, Copy, Debug, PartialEq, Eq, Structural)]
pub enum WalletError {
    /// Malformed mnemonic, malformed encoded private key, or wrong secret length.
    Validation,
    /// Decryption failure: wrong password or corrupted data, deliberately
    /// indistinguishable so the error is no password-guessing oracle.
    Authentication,
    /// The operation requires the opposite lock state.
    State,
    /// Persistence read or write failure.
    Storage,
    /// Balance query failure.
    Network,
}

impl WalletError {
    /// A short description of the error. The authentication message is kept
    /// generic on purpose: it never distinguishes a wrong password from
    /// corrupted data.
    pub fn message(&self) -> &'static str {
        match self {
            WalletError::Validation => "invalid input",
            WalletError::Authentication => "decryption failed",
            WalletError::State => "operation not allowed in the current lock state",
            WalletError::Storage => "storage failure",
            WalletError::Network => "network failure",
        }
    }
}

} // verus!
