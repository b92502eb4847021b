//! The library's cross-function guarantees, written down as proof functions.
//! Each law quantifies over the possible results of the executable functions
//! it names, through their contracts.

use crate::codec::{decrypt, encrypt};
use crate::wallet::{Balance, SolanaWallet};
use crate::WalletError;
use vstd::prelude::*;

verus! {

/// Round trip: for every secret and password, any blob that `encrypt` may
/// return — whatever salt and nonce were drawn — decrypts under the same
/// password to exactly that secret.
pub proof fn lemma_encrypt_then_decrypt(
    secret: &Vec<u8>,
    password: &str,
    blob: String,
    stored: &str,
    r: Result<Vec<u8>, WalletError>,
)
    requires
        call_ensures(encrypt, (secret, password), blob),
        stored@ == blob@,
        call_ensures(decrypt, (stored, password), r),
    ensures
        r is Ok,
        r matches Ok(v) ==> v@ == secret@,
{
    assert(crate::codec::is_encryption_of(stored@, secret@, password@));
    assert(crate::codec::decrypt_post(stored@, password@, r));
}

/// State guard, refusal half: on a locked session every unlocked-only read —
/// `get_address`, `export_private_key`, `get_balance` — can only fail with
/// the state error, whatever the balance oracle replied.
pub proof fn lemma_locked_reads_refused(
    w: SolanaWallet,
    r_addr: Result<String, WalletError>,
    r_key: Result<String, WalletError>,
    lamports: Option<u64>,
    r_bal: Result<Balance, WalletError>,
)
    requires
        !w.spec_unlocked(),
        call_ensures(SolanaWallet::get_address, (&w,), r_addr),
        call_ensures(SolanaWallet::export_private_key, (&w,), r_key),
        call_ensures(SolanaWallet::get_balance, (&w, lamports), r_bal),
    ensures
        r_addr == Err::<String, WalletError>(WalletError::State),
        r_key == Err::<String, WalletError>(WalletError::State),
        r_bal == Err::<Balance, WalletError>(WalletError::State),
{
}

/// State guard, success half: on an unlocked session the same reads succeed;
/// `get_balance` succeeds whenever the oracle answered.
pub proof fn lemma_unlocked_reads_succeed(
    w: SolanaWallet,
    r_addr: Result<String, WalletError>,
    r_key: Result<String, WalletError>,
    amount: u64,
    r_bal: Result<Balance, WalletError>,
)
    requires
        w.spec_unlocked(),
        call_ensures(SolanaWallet::get_address, (&w,), r_addr),
        call_ensures(SolanaWallet::export_private_key, (&w,), r_key),
        call_ensures(SolanaWallet::get_balance, (&w, Some(amount)), r_bal),
    ensures
        r_addr is Ok,
        r_key is Ok,
        r_bal matches Ok(b) && b.lamports == amount,
{
}

} // verus!
