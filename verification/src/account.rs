//! Accounts and their keys.
//!
//! An account's records are encrypted under its data key. The data key is
//! stored only inside an envelope, sealed under a key that is derived from
//! the login password; the password itself is stored only as a salted
//! verifier. Changing the password thus means sealing the data key again,
//! and nothing else.

use vstd::prelude::*;

use crate::codec::text_bytes;
use crate::encrypted::{
    bytes_equal, new_rand_key, new_rand_nonce, opened, os_random, sealed, Aes256Key, Aes256Nonce,
    Encrypted, EncryptedView,
};
use crate::error::VaultError;
use crate::kdf::{key_at, pbkdf2_derive, pbkdf2_hmac_sha256};

verus! {

/// The length of the salt of a password, in bytes.
pub const SALT_LEN: usize = 16;

/// The length of a key, in bytes.
pub const KEY_LEN: usize = 32;

/// The number of rounds of the key derivation.
pub const KDF_ROUNDS: u32 = 100_000;

/// A salt of a password.
pub type Salt = [u8; 16];

/// All that is derived from a password and its salt: sixty-four bytes, the
/// verifier first, then the key that seals the data key.
pub open spec fn derived(password: Seq<char>, salt: Seq<u8>) -> Seq<u8> {
    pbkdf2_hmac_sha256(text_bytes(password), salt, KDF_ROUNDS, 64)
}

/// The verifier of a password under a salt.
pub open spec fn verifier_of(password: Seq<char>, salt: Seq<u8>) -> Seq<u8> {
    derived(password, salt).subrange(0, 32)
}

/// The key that a password gives under a salt. It seals the data key.
pub open spec fn password_key_of(password: Seq<char>, salt: Seq<u8>) -> Seq<u8> {
    derived(password, salt).subrange(32, 64)
}

/// Derives the verifier and the password key from a password and a salt.
pub fn derive_keys(password: &str, salt: &Salt) -> (keys: (Aes256Key, Aes256Key))
    ensures
        keys.0@ == verifier_of(password@, salt@),
        keys.1@ == password_key_of(password@, salt@),
{
    let bytes: Vec<u8> = pbkdf2_derive(password.as_bytes(), salt, KDF_ROUNDS, 64);
    (key_at(bytes.as_slice(), 0), key_at(bytes.as_slice(), 32))
}

/// An account: the identity that credentials and files belong to, and the
/// root of their key.
#[derive(Debug, Clone, PartialEq, Eq)]
pub struct Account {
    username: String,
    salt: Salt,
    verifier: Aes256Key,
    data_key_envelope: Encrypted,
}

/// What an account holds.
pub struct AccountView {
    /// The unique name of the account.
    pub username: Seq<char>,
    /// The salt of the password.
    pub salt: Seq<u8>,
    /// The verifier of the password under the salt.
    pub verifier: Seq<u8>,
    /// The data key, sealed under the password key.
    pub data_key_envelope: EncryptedView,
}

impl View for Account {
    type V = AccountView;

    closed spec fn view(&self) -> AccountView {
        AccountView {
            username: self.username@,
            salt: self.salt@,
            verifier: self.verifier@,
            data_key_envelope: self.data_key_envelope@,
        }
    }
}

/// The account that registering makes of a name, a password, a data key, a
/// salt and a nonce.
pub open spec fn registered(
    username: Seq<char>,
    password: Seq<char>,
    data_key: Seq<u8>,
    salt: Seq<u8>,
    nonce: Seq<u8>,
) -> AccountView {
    AccountView {
        username,
        salt,
        verifier: verifier_of(password, salt),
        data_key_envelope: sealed(data_key, password_key_of(password, salt), nonce),
    }
}

/// Whether an account is what registering makes of a name, a password and
/// a data key, under the salt and the nonce that the account holds.
pub open spec fn registers(
    account: AccountView,
    username: Seq<char>,
    password: Seq<char>,
    data_key: Seq<u8>,
) -> bool {
    data_key.len() == KEY_LEN && account == registered(
        username,
        password,
        data_key,
        account.salt,
        account.data_key_envelope.nonce,
    )
}

/// What unlocking an account with a password gives: the data key, or the
/// reason why there is none. The envelope is opened only once the password
/// has been found to match.
pub open spec fn unlock_spec(account: AccountView, password: Seq<char>) -> Result<
    Seq<u8>,
    VaultError,
> {
    if verifier_of(password, account.salt) != account.verifier {
        Err(VaultError::AuthFailure)
    } else {
        match opened(account.data_key_envelope, password_key_of(password, account.salt)) {
            Some(data_key) => if data_key.len() == KEY_LEN {
                Ok(data_key)
            } else {
                Err(VaultError::DecryptionFailure)
            },
            None => Err(VaultError::DecryptionFailure),
        }
    }
}

/// Whether a password fails an account depends on the salt and the
/// verifier alone: two accounts with the same salt and verifier reject the
/// same passwords, whatever their envelopes hold and whether or not these
/// would open.
pub proof fn lemma_auth_failure_ignores_envelope(a: AccountView, b: AccountView, password: Seq<char>)
    requires
        a.salt == b.salt,
        a.verifier == b.verifier,
    ensures
        unlock_spec(a, password) == Err::<Seq<u8>, VaultError>(VaultError::AuthFailure)
            <==> unlock_spec(b, password) == Err::<Seq<u8>, VaultError>(VaultError::AuthFailure),
        unlock_spec(a, password) == Err::<Seq<u8>, VaultError>(VaultError::AuthFailure)
            <==> verifier_of(password, a.salt) != a.verifier,
{
}

/// An account whose data key is at hand: the session in which its records
/// can be read and written. The key is in memory as long as the session
/// lasts, and `lock` ends it. A session cannot be copied or printed.
pub struct UnlockedAccount {
    username: String,
    key: Aes256Key,
}

/// What a session holds.
pub struct UnlockedAccountView {
    /// The name of the account.
    pub username: Seq<char>,
    /// The data key of the account.
    pub key: Seq<u8>,
}

impl View for UnlockedAccount {
    type V = UnlockedAccountView;

    closed spec fn view(&self) -> UnlockedAccountView {
        UnlockedAccountView { username: self.username@, key: self.key@ }
    }
}

/// A key of zeros: what is left of a data key when its session has ended.
pub open spec fn erased_key() -> Seq<u8> {
    Seq::new(KEY_LEN as nat, |i: int| 0u8)
}

impl UnlockedAccount {
    /// The name of the account.
    pub fn username(&self) -> (name: &str)
        ensures
            name@ == self@.username,
    {
        self.username.as_str()
    }

    /// The data key of the account. Every field of its credentials and
    /// every file of its own is encrypted under this key.
    pub fn key(&self) -> (key: Aes256Key)
        ensures
            key@ == self@.key,
    {
        self.key
    }

    /// Ends the session: the data key is overwritten with zeros.
    pub fn lock(&mut self)
        ensures
            final(self)@.username == old(self)@.username,
            final(self)@.key == erased_key(),
        opens_invariants none
        no_unwind
    {
        let mut i: usize = 0;
        while i < 32
            invariant
                i <= 32,
                self.username == old(self).username,
                forall|j: int| 0 <= j < i ==> self.key@[j] == 0u8,
            decreases 32 - i,
        {
            self.key[i] = 0;
            i += 1;
        }
        assert(self.key@ =~= erased_key());
    }
}

impl Drop for UnlockedAccount {
    /// The end of a session erases the data key, also where `lock` was
    /// never called.
    fn drop(&mut self)
        opens_invariants none
        no_unwind
    {
        self.lock();
    }
}

impl Account {
    /// Registers an account: draws a fresh data key, a fresh salt and a
    /// fresh nonce, and seals the data key under the password.
    ///
    /// Fails with `IOFailure` where the random source does, and not
    /// otherwise. Whether the name is free is for the store to say when the
    /// account is inserted.
    pub fn new(username: &str, password: &str) -> (account: Result<Account, VaultError>)
        ensures
            match account {
                Ok(a) => exists|key: Seq<u8>| registers(a@, username@, password@, key),
                Err(err) => err == VaultError::IOFailure,
            },
    {
        let data_key: Aes256Key = match new_rand_key() {
            Ok(key) => key,
            Err(err) => {
                return Err(err);
            },
        };
        let salt: Salt = match os_random::<16>() {
            Some(salt) => salt,
            None => {
                return Err(VaultError::IOFailure);
            },
        };
        let nonce: Aes256Nonce = match new_rand_nonce() {
            Ok(nonce) => nonce,
            Err(err) => {
                return Err(err);
            },
        };
        let account: Result<Account, VaultError> = Ok(
            Self::register(username, password, data_key, salt, nonce),
        );
        assert(registers(account->Ok_0@, username@, password@, data_key@));
        account
    }

    /// Registers an account with the given data key, salt and nonce.
    pub fn register(
        username: &str,
        password: &str,
        data_key: Aes256Key,
        salt: Salt,
        nonce: Aes256Nonce,
    ) -> (account: Account)
        ensures
            account@ == registered(username@, password@, data_key@, salt@, nonce@),
    {
        let (verifier, password_key) = derive_keys(password, &salt);
        let envelope: Result<Encrypted, VaultError> = Encrypted::try_encrypt_bytes_key_nonce(
            &data_key,
            password_key,
            nonce,
        );
        match envelope {
            Ok(data_key_envelope) => Account {
                username: username.to_owned(),
                salt,
                verifier,
                data_key_envelope,
            },
            Err(_) => {
                proof {
                    assert(false);
                }
                Account {
                    username: username.to_owned(),
                    salt,
                    verifier,
                    data_key_envelope: Encrypted::from_fields(Vec::new(), nonce),
                }
            },
        }
    }

    /// An account made of the values that a store holds of it.
    pub fn from_fields(
        username: String,
        salt: Salt,
        verifier: Aes256Key,
        data_key_envelope: Encrypted,
    ) -> (account: Account)
        ensures
            account@ == (AccountView {
                username: username@,
                salt: salt@,
                verifier: verifier@,
                data_key_envelope: data_key_envelope@,
            }),
    {
        Account { username, salt, verifier, data_key_envelope }
    }

    /// The name of the account.
    pub fn username(&self) -> (name: &str)
        ensures
            name@ == self@.username,
    {
        self.username.as_str()
    }

    /// The salt of the password.
    pub fn salt(&self) -> (salt: Salt)
        ensures
            salt@ == self@.salt,
    {
        self.salt
    }

    /// The verifier of the password.
    pub fn password_verifier(&self) -> (verifier: Aes256Key)
        ensures
            verifier@ == self@.verifier,
    {
        self.verifier
    }

    /// The envelope that holds the data key.
    pub fn data_key_envelope(&self) -> (envelope: &Encrypted)
        ensures
            envelope@ == self@.data_key_envelope,
    {
        &self.data_key_envelope
    }

    /// Whether a verifier is the one that the account holds. Every byte is
    /// looked at, whatever the others are.
    pub fn verifies(&self, verifier: &Aes256Key) -> (matches: bool)
        ensures
            matches == (verifier@ == self@.verifier),
    {
        bytes_equal(verifier, &self.verifier)
    }

    /// Whether the password is the one that the account was registered
    /// with, as far as the verifier tells.
    pub fn check_password(&self, password: &str) -> (matches: bool)
        ensures
            matches == (verifier_of(password@, self@.salt) == self@.verifier),
    {
        let (verifier, _password_key) = derive_keys(password, &self.salt);
        self.verifies(&verifier)
    }

    /// The session of what the envelope of the account opened to: a data
    /// key of thirty-two bytes unlocks the account, anything else is a
    /// `DecryptionFailure`.
    pub fn session(&self, opened: Option<Vec<u8>>) -> (session: Result<UnlockedAccount, VaultError>)
        ensures
            match session {
                Ok(s) => opened is Some && opened->0@.len() == KEY_LEN && s@.key == opened->0@
                    && s@.username == self@.username,
                Err(err) => err == VaultError::DecryptionFailure && !(opened is Some
                    && opened->0@.len() == KEY_LEN),
            },
    {
        match opened {
            Some(data_key) => {
                if data_key.len() != KEY_LEN {
                    return Err(VaultError::DecryptionFailure);
                }
                let key: Aes256Key = key_at(data_key.as_slice(), 0);
                assert(key@ =~= data_key@);
                Ok(UnlockedAccount { username: self.username.clone(), key })
            },
            None => Err(VaultError::DecryptionFailure),
        }
    }

    /// Unlocks the account with a password.
    ///
    /// A password that the verifier rejects gives `AuthFailure`, and the
    /// envelope is not touched. Otherwise the envelope is opened under the
    /// password key: the session holds the data key found there, and
    /// `DecryptionFailure` tells that none was found. An account unlocks
    /// under the password it was registered with, to the data key it was
    /// registered with.
    pub fn unlock(&self, password: &str) -> (session: Result<UnlockedAccount, VaultError>)
        ensures
            match session {
                Ok(s) => unlock_spec(self@, password@) == Ok::<Seq<u8>, VaultError>(s@.key)
                    && s@.username == self@.username,
                Err(err) => unlock_spec(self@, password@) == Err::<Seq<u8>, VaultError>(err),
            },
            forall|data_key: Seq<u8>|
                registers(self@, self@.username, password@, data_key) ==> session is Ok
                    && session->Ok_0@.key == data_key,
    {
        let (verifier, password_key) = derive_keys(password, &self.salt);
        if !self.verifies(&verifier) {
            return Err(VaultError::AuthFailure);
        }
        let opened: Result<Vec<u8>, VaultError> = self.data_key_envelope.decrypt_bytes(&password_key);
        proof {
            assert forall|data_key: Seq<u8>|
                registers(self@, self@.username, password@, data_key) implies opened is Ok
                && opened->Ok_0@ == data_key by {
                assert(self@.data_key_envelope == sealed(
                    data_key,
                    password_key@,
                    self@.data_key_envelope.nonce,
                ));
            }
        }
        match opened {
            Ok(data_key) => self.session(Some(data_key)),
            Err(_) => self.session(None),
        }
    }
}

} // verus!
