//! The stateful core of the wallet: a session that owns at most one live
//! keypair, the lifecycle transitions between the locked and unlocked
//! states, and persistence of the single wallet record through the
//! encryption codec.

use crate::codec::{decrypt, encrypt, is_encryption_of};
use crate::keys::{
    address_of, b58_of, bs58_decode, is_consistent_keypair, keypair_of_seed, Keypair, SEED_LEN,
};
use crate::mnemonic::{generate, is_valid_phrase, seed_of_phrase, to_seed};
use crate::buf::{subvec, wipe};
use crate::WalletError;
use vstd::prelude::*;

verus! {

/// Smallest ledger units per whole display unit.
pub const LAMPORTS_PER_SOL: u64 = 1000000000;

/// The persisted wallet record: the two well-known storage entries, held as
/// plain values. The surrounding application loads them from and writes them
/// to its durable store; the core reads and fills them.
pub struct WalletStore {
    /// The encrypted wallet blob (storage key `solana_wallet_encrypted`).
    pub encrypted: Option<String>,
    /// The plaintext address (storage key `solana_wallet_address`), kept for
    /// existence and display checks without decryption.
    pub address: Option<String>,
}

impl WalletStore {
    /// A wallet record exists.
    pub open spec fn has_record(self) -> bool {
        self.encrypted is Some
    }

    /// An empty store, holding no wallet record.
    pub fn new() -> (s: WalletStore)
        ensures
            !s.has_record(),
            s.encrypted is None,
            s.address is None,
    {
        WalletStore { encrypted: None, address: None }
    }
}

/// The store holds exactly the record of a wallet with keypair bytes
/// `kp_bytes`, encrypted under `password`.
pub open spec fn stored_wallet(store: WalletStore, kp_bytes: Seq<u8>, password: Seq<char>) -> bool {
    &&& store.encrypted matches Some(b) && is_encryption_of(b@, kp_bytes, password)
    &&& store.address matches Some(a) && a@ == address_of(kp_bytes)
}

/// What a successful wallet creation hands back: the address, and — once,
/// never persisted — the recovery phrase.
pub struct NewWallet {
    pub address: String,
    pub mnemonic: String,
}

/// A balance in smallest ledger units, with verified conversion to the
/// whole-and-fraction display form.
#[derive(Clone, Copy, Debug, PartialEq, Eq, Structural)]
pub struct Balance {
    pub lamports: u64,
}

impl Balance {
    /// The whole display units.
    pub fn sol_whole(&self) -> (r: u64)
        ensures
            r == self.lamports / LAMPORTS_PER_SOL,
    {
        self.lamports / LAMPORTS_PER_SOL
    }

    /// The remainder in smallest units below one whole display unit.
    pub fn sol_fraction(&self) -> (r: u64)
        ensures
            r == self.lamports % LAMPORTS_PER_SOL,
            r < LAMPORTS_PER_SOL,
    {
        self.lamports % LAMPORTS_PER_SOL
    }
}

/// The wallet session: owner of at most one live keypair, tagged by its
/// lock state. All lifecycle operations go through this type.
pub struct SolanaWallet {
    session: Option<Keypair>,
}

impl SolanaWallet {
    /// The session's keypair, if unlocked.
    pub closed spec fn spec_session(self) -> Option<Keypair> {
        self.session
    }

    /// The session holds a live keypair.
    pub open spec fn spec_unlocked(self) -> bool {
        self.spec_session() is Some
    }

    /// The keypair bytes of the unlocked session (empty when locked).
    pub open spec fn session_bytes(self) -> Seq<u8> {
        match self.spec_session() {
            Some(kp) => kp.key_bytes(),
            None => Seq::empty(),
        }
    }

    /// Any keypair held by the session is well formed.
    pub open spec fn wf(self) -> bool {
        self.spec_session() matches Some(kp) ==> kp.wf()
    }

    /// A fresh wallet session, locked.
    pub fn new() -> (w: SolanaWallet)
        ensures
            w.wf(),
            !w.spec_unlocked(),
    {
        SolanaWallet { session: None }
    }

    /// Whether a wallet record exists in the store.
    pub fn has_wallet(&self, store: &WalletStore) -> (r: bool)
        ensures
            r == store.has_record(),
    {
        match &store.encrypted {
            Some(_) => true,
            None => false,
        }
    }

    /// Generates a new wallet: fresh mnemonic, keypair derived from its
    /// seed, encrypted and persisted; the session is unlocked on it. Any
    /// previous wallet record is overwritten.
    pub fn generate_new(&mut self, password: &str, store: &mut WalletStore) -> (r: NewWallet)
        ensures
            final(self).wf(),
            final(self).spec_unlocked(),
            is_valid_phrase(r.mnemonic@),
            final(self).session_bytes() == keypair_of_seed(
                seed_of_phrase(r.mnemonic@).subrange(0, SEED_LEN as int),
            ),
            r.address@ == address_of(final(self).session_bytes()),
            stored_wallet(*final(store), final(self).session_bytes(), password@),
    {
        let phrase = generate();
        let mut seed = match to_seed(phrase.as_str()) {
            Ok(v) => v,
            Err(_) => {
                proof {
                    assert(false);
                }
                Vec::new()
            },
        };
        let mut seed32 = subvec(&seed, 0, SEED_LEN);
        let kp = Keypair::from_seed(&seed32);
        wipe(&mut seed);
        wipe(&mut seed32);
        let address = kp.address();
        let blob = encrypt(kp.bytes_ref(), password);
        store.encrypted = Some(blob);
        store.address = Some(address.clone());
        self.session = Some(kp);
        NewWallet { address, mnemonic: phrase }
    }

    /// Imports a wallet from a recovery phrase. An invalid phrase is
    /// rejected with [`WalletError::Validation`] before anything is derived
    /// or written; on success the derived keypair is encrypted, persisted
    /// (overwriting any previous record) and the session unlocked on it.
    pub fn import_from_mnemonic(
        &mut self,
        phrase: &str,
        password: &str,
        store: &mut WalletStore,
    ) -> (r: Result<String, WalletError>)
        requires
            old(self).wf(),
        ensures
            final(self).wf(),
            r is Ok <==> is_valid_phrase(phrase@),
            r matches Err(e) ==> e == WalletError::Validation && *final(self) == *old(self)
                && *final(store) == *old(store),
            r matches Ok(a) ==> final(self).spec_unlocked() && final(self).session_bytes()
                == keypair_of_seed(seed_of_phrase(phrase@).subrange(0, SEED_LEN as int))
                && a@ == address_of(final(self).session_bytes())
                && stored_wallet(*final(store), final(self).session_bytes(), password@),
    {
        let mut seed = match to_seed(phrase) {
            Ok(v) => v,
            Err(e) => {
                return Err(e);
            },
        };
        let mut seed32 = subvec(&seed, 0, SEED_LEN);
        let kp = Keypair::from_seed(&seed32);
        wipe(&mut seed);
        wipe(&mut seed32);
        let address = kp.address();
        let blob = encrypt(kp.bytes_ref(), password);
        store.encrypted = Some(blob);
        store.address = Some(address.clone());
        self.session = Some(kp);
        Ok(address)
    }

    /// Imports a wallet from a base58-encoded private key. A string that is
    /// not base58, decodes to a length other than 64 bytes, or carries a
    /// public half that does not match its seed half is rejected with
    /// [`WalletError::Validation`] before any storage write; on success the
    /// keypair is encrypted, persisted and the session unlocked on it.
    pub fn import_from_private_key(
        &mut self,
        encoded: &str,
        password: &str,
        store: &mut WalletStore,
    ) -> (r: Result<String, WalletError>)
        requires
            old(self).wf(),
        ensures
            final(self).wf(),
            r is Ok <==> (exists|b: Seq<u8>|
                encoded@ == b58_of(b) && #[trigger] is_consistent_keypair(b)),
            r matches Err(e) ==> e == WalletError::Validation && *final(self) == *old(self)
                && *final(store) == *old(store),
            r matches Ok(a) ==> final(self).spec_unlocked() && encoded@ == b58_of(
                final(self).session_bytes(),
            ) && is_consistent_keypair(final(self).session_bytes()) && a@ == address_of(
                final(self).session_bytes(),
            ) && stored_wallet(*final(store), final(self).session_bytes(), password@),
            forall|b: Seq<u8>|
                (encoded@ == #[trigger] b58_of(b) && is_consistent_keypair(b)) ==> (r matches Ok(
                    a,
                ) && final(self).session_bytes() == b && a@ == address_of(b)),
    {
        let decoded = match bs58_decode(encoded) {
            Some(v) => v,
            None => {
                return Err(WalletError::Validation);
            },
        };
        let ghost decoded_view = decoded@;
        let kp = match Keypair::try_from_bytes(decoded) {
            Ok(kp) => kp,
            Err(e) => {
                proof {
                    assert forall|b: Seq<u8>|
                        encoded@ == b58_of(b) implies !is_consistent_keypair(b) by {
                        assert(b == decoded_view);
                    }
                }
                return Err(e);
            },
        };
        let address = kp.address();
        let blob = encrypt(kp.bytes_ref(), password);
        store.encrypted = Some(blob);
        store.address = Some(address.clone());
        self.session = Some(kp);
        Ok(address)
    }

    /// Unlocks the wallet: loads the record, decrypts it with the password,
    /// and sets the session on success. Fails with [`WalletError::State`]
    /// when no record exists; with [`WalletError::Authentication`] when the
    /// blob decrypts to nothing under this password (wrong password or
    /// corrupted data, indistinguishable by design); with
    /// [`WalletError::Validation`] when the decrypted bytes are no
    /// consistent keypair. On failure the session is left as it was.
    pub fn unlock(&mut self, password: &str, store: &WalletStore) -> (r: Result<
        String,
        WalletError,
    >)
        requires
            old(self).wf(),
        ensures
            final(self).wf(),
            r is Err ==> *final(self) == *old(self),
            !store.has_record() ==> r == Err::<String, WalletError>(WalletError::State),
            store.encrypted matches Some(blob) ==> match r {
                Ok(a) => final(self).spec_unlocked() && is_encryption_of(
                    blob@,
                    final(self).session_bytes(),
                    password@,
                ) && is_consistent_keypair(final(self).session_bytes()) && a@ == address_of(
                    final(self).session_bytes(),
                ),
                Err(e) => (e == WalletError::Authentication && (forall|s: Seq<u8>|
                    !is_encryption_of(blob@, s, password@))) || (e == WalletError::Validation
                    && (exists|s: Seq<u8>|
                    #[trigger] is_encryption_of(blob@, s, password@) && !is_consistent_keypair(
                        s,
                    ))),
            },
            forall|s: Seq<u8>|
                (store.encrypted is Some && #[trigger] is_encryption_of(
                    store.encrypted->0@,
                    s,
                    password@,
                ) && is_consistent_keypair(s)) ==> (r matches Ok(a)
                    && final(self).session_bytes() == s && a@ == address_of(s)),
    {
        let blob = match &store.encrypted {
            Some(b) => b,
            None => {
                return Err(WalletError::State);
            },
        };
        let secret = match decrypt(blob.as_str(), password) {
            Ok(s) => s,
            Err(e) => {
                return Err(e);
            },
        };
        let ghost secret_view = secret@;
        let kp = match Keypair::try_from_bytes(secret) {
            Ok(kp) => kp,
            Err(_) => {
                return Err(WalletError::Validation);
            },
        };
        let address = kp.address();
        self.session = Some(kp);
        Ok(address)
    }

    /// Locks the wallet: the secret bytes held by the session are
    /// overwritten with zeros before the keypair is dropped.
    pub fn lock(&mut self)
        ensures
            final(self).wf(),
            !final(self).spec_unlocked(),
    {
        match &mut self.session {
            Some(kp) => kp.zeroize(),
            None => {},
        }
        self.session = None;
    }

    /// The unlocked session's address; [`WalletError::State`] when locked.
    pub fn get_address(&self) -> (r: Result<String, WalletError>)
        requires
            self.wf(),
        ensures
            r is Ok <==> self.spec_unlocked(),
            r matches Ok(a) ==> a@ == address_of(self.session_bytes()),
            r matches Err(e) ==> e == WalletError::State,
    {
        match &self.session {
            Some(kp) => Ok(kp.address()),
            None => Err(WalletError::State),
        }
    }

    /// The oracle's balance reply for the unlocked session, converted to a
    /// typed amount. [`WalletError::State`] when locked;
    /// [`WalletError::Network`] when the oracle failed (`None`).
    pub fn get_balance(&self, lamports: Option<u64>) -> (r: Result<Balance, WalletError>)
        ensures
            r is Ok <==> (self.spec_unlocked() && lamports is Some),
            !self.spec_unlocked() ==> r == Err::<Balance, WalletError>(WalletError::State),
            self.spec_unlocked() && lamports is None ==> r == Err::<Balance, WalletError>(
                WalletError::Network,
            ),
            r matches Ok(b) ==> lamports matches Some(l) && b.lamports == l,
    {
        match &self.session {
            Some(_) => match lamports {
                Some(l) => Ok(Balance { lamports: l }),
                None => Err(WalletError::Network),
            },
            None => Err(WalletError::State),
        }
    }

    /// The unlocked session's keypair as base58 text — the only path that
    /// exposes raw secret material; [`WalletError::State`] when locked.
    pub fn export_private_key(&self) -> (r: Result<String, WalletError>)
        requires
            self.wf(),
        ensures
            r is Ok <==> self.spec_unlocked(),
            r matches Ok(s) ==> s@ == b58_of(self.session_bytes()),
            r matches Err(e) ==> e == WalletError::State,
    {
        match &self.session {
            Some(kp) => Ok(kp.export()),
            None => Err(WalletError::State),
        }
    }

    /// Whether the session holds a live keypair.
    pub fn is_unlocked(&self) -> (r: bool)
        ensures
            r == self.spec_unlocked(),
    {
        match &self.session {
            Some(_) => true,
            None => false,
        }
    }
}

} // verus!
