//! Credentials: login records whose every field but the owner is encrypted
//! under the owner's data key.
//!
//! A credential is found by its owner and its encrypted name. For the name
//! to be found again its ciphertext has to be the same each time, so the
//! nonce of the name, and of the name only, is derived from the key, the
//! owner and the name. The other fields keep random nonces.

use vstd::prelude::*;
use vstd::slice::slice_to_vec;

use crate::codec::text_bytes;
use crate::encrypted::{
    new_rand_nonce, opened, sealed, Aes256Key, Aes256Nonce, Encrypted, EncryptedView,
    PLAINTEXT_MAX,
};
use crate::error::VaultError;
use crate::kdf::{pbkdf2_derive, pbkdf2_hmac_sha256};

verus! {

/// What the nonce of a name is derived from: the owner, a zero byte, the
/// name.
pub open spec fn name_material(owner_username: Seq<char>, name: Seq<char>) -> Seq<u8> {
    text_bytes(owner_username) + seq![0u8] + text_bytes(name)
}

/// The nonce of the name of a credential.
pub open spec fn name_nonce_of(key: Seq<u8>, owner_username: Seq<char>, name: Seq<char>) -> Seq<
    u8,
> {
    pbkdf2_hmac_sha256(key, name_material(owner_username, name), 1, 12)
}

/// The envelope of the name of a credential: the second part of its key.
pub open spec fn sealed_name(key: Seq<u8>, owner_username: Seq<char>, name: Seq<char>) -> EncryptedView {
    sealed(text_bytes(name), key, name_nonce_of(key, owner_username, name))
}

/// Appends bytes to a vector.
fn append(bytes: &mut Vec<u8>, more: &[u8])
    ensures
        final(bytes)@ == old(bytes)@ + more@,
{
    let mut i: usize = 0;
    while i < more.len()
        invariant
            i <= more@.len(),
            bytes@ == old(bytes)@ + more@.subrange(0, i as int),
        decreases more@.len() - i,
    {
        bytes.push(more[i]);
        assert(bytes@ =~= old(bytes)@ + more@.subrange(0, i + 1));
        i += 1;
    }
    assert(more@.subrange(0, i as int) =~= more@);
}

/// The nonce under which the name of a credential is encrypted.
pub fn name_nonce(key: &Aes256Key, owner_username: &str, name: &str) -> (nonce: Aes256Nonce)
    ensures
        nonce@ == name_nonce_of(key@, owner_username@, name@),
{
    let mut material: Vec<u8> = slice_to_vec(owner_username.as_bytes());
    material.push(0);
    append(&mut material, name.as_bytes());
    assert(material@ =~= name_material(owner_username@, name@));
    let derived: Vec<u8> = pbkdf2_derive(key, material.as_slice(), 1, 12);
    let mut nonce: Aes256Nonce = [0u8; 12];
    let mut i: usize = 0;
    while i < 12
        invariant
            i <= 12,
            derived@.len() == 12,
            forall|j: int| 0 <= j < i ==> nonce@[j] == derived@[j],
        decreases 12 - i,
    {
        nonce[i] = derived[i];
        i += 1;
    }
    assert(nonce@ =~= derived@);
    nonce
}

/// A login record of an account.
#[derive(Debug, Clone, PartialEq, Eq)]
pub struct Credential {
    owner_username: String,
    encrypted_name: Encrypted,
    encrypted_username: Encrypted,
    encrypted_password: Encrypted,
    encrypted_notes: Encrypted,
}

/// What a credential holds.
pub struct CredentialView {
    /// The name of the account that owns the credential.
    pub owner_username: Seq<char>,
    /// The name of the credential, encrypted.
    pub encrypted_name: EncryptedView,
    /// The login name, encrypted.
    pub encrypted_username: EncryptedView,
    /// The login password, encrypted.
    pub encrypted_password: EncryptedView,
    /// The notes, encrypted.
    pub encrypted_notes: EncryptedView,
}

impl View for Credential {
    type V = CredentialView;

    closed spec fn view(&self) -> CredentialView {
        CredentialView {
            owner_username: self.owner_username@,
            encrypted_name: self.encrypted_name@,
            encrypted_username: self.encrypted_username@,
            encrypted_password: self.encrypted_password@,
            encrypted_notes: self.encrypted_notes@,
        }
    }
}

/// The plain fields of a credential.
pub struct Secrets {
    /// The name of the credential.
    pub name: Seq<char>,
    /// The login name.
    pub username: Seq<char>,
    /// The login password.
    pub password: Seq<char>,
    /// The notes.
    pub notes: Seq<char>,
}

/// Whether every field is short enough for one envelope.
pub open spec fn fits(secrets: Secrets) -> bool {
    &&& text_bytes(secrets.name).len() <= PLAINTEXT_MAX
    &&& text_bytes(secrets.username).len() <= PLAINTEXT_MAX
    &&& text_bytes(secrets.password).len() <= PLAINTEXT_MAX
    &&& text_bytes(secrets.notes).len() <= PLAINTEXT_MAX
}

/// The credential that holds the given fields under a key, the three
/// fields after the name under the three nonces given.
pub open spec fn credential_of(
    owner_username: Seq<char>,
    key: Seq<u8>,
    secrets: Secrets,
    nonces: (Seq<u8>, Seq<u8>, Seq<u8>),
) -> CredentialView {
    CredentialView {
        owner_username,
        encrypted_name: sealed_name(key, owner_username, secrets.name),
        encrypted_username: sealed(text_bytes(secrets.username), key, nonces.0),
        encrypted_password: sealed(text_bytes(secrets.password), key, nonces.1),
        encrypted_notes: sealed(text_bytes(secrets.notes), key, nonces.2),
    }
}

/// The three nonces that a credential holds besides that of its name.
pub open spec fn nonces_of(credential: CredentialView) -> (Seq<u8>, Seq<u8>, Seq<u8>) {
    (
        credential.encrypted_username.nonce,
        credential.encrypted_password.nonce,
        credential.encrypted_notes.nonce,
    )
}

impl Credential {
    /// A credential of the given fields, encrypted under the owner's data
    /// key, with fresh random nonces for all fields but the name.
    ///
    /// Fails with `PlaintextTooLong` where a field is too long for one
    /// envelope, and else with `IOFailure` where the random source fails.
    pub fn try_new(
        owner_username: &str,
        key: Aes256Key,
        name: &str,
        username: &str,
        password: &str,
        notes: &str,
    ) -> (credential: Result<Credential, VaultError>)
        ensures
            match credential {
                Ok(c) => fits(Secrets { name: name@, username: username@, password: password@, notes: notes@ })
                    && c@ == credential_of(
                    owner_username@,
                    key@,
                    Secrets { name: name@, username: username@, password: password@, notes: notes@ },
                    nonces_of(c@),
                ),
                Err(err) => if fits(
                    Secrets { name: name@, username: username@, password: password@, notes: notes@ },
                ) {
                    err == VaultError::IOFailure
                } else {
                    err == VaultError::PlaintextTooLong
                },
            },
    {
        if name.as_bytes().len() as u64 > PLAINTEXT_MAX || username.as_bytes().len() as u64
            > PLAINTEXT_MAX || password.as_bytes().len() as u64 > PLAINTEXT_MAX
            || notes.as_bytes().len() as u64 > PLAINTEXT_MAX {
            return Err(VaultError::PlaintextTooLong);
        }
        let first: Aes256Nonce = match new_rand_nonce() {
            Ok(nonce) => nonce,
            Err(err) => {
                return Err(err);
            },
        };
        let second: Aes256Nonce = match new_rand_nonce() {
            Ok(nonce) => nonce,
            Err(err) => {
                return Err(err);
            },
        };
        let third: Aes256Nonce = match new_rand_nonce() {
            Ok(nonce) => nonce,
            Err(err) => {
                return Err(err);
            },
        };
        Self::seal(owner_username, key, name, username, password, notes, (first, second, third))
    }

    /// A credential of the given fields, encrypted under the owner's data
    /// key, the three fields after the name under the nonces given.
    ///
    /// The caller sees to it that none of the nonces was used under the key
    /// before. Fails with `PlaintextTooLong` where a field is too long for
    /// one envelope, and not otherwise.
    pub fn seal(
        owner_username: &str,
        key: Aes256Key,
        name: &str,
        username: &str,
        password: &str,
        notes: &str,
        nonces: (Aes256Nonce, Aes256Nonce, Aes256Nonce),
    ) -> (credential: Result<Credential, VaultError>)
        ensures
            match credential {
                Ok(c) => fits(Secrets { name: name@, username: username@, password: password@, notes: notes@ })
                    && c@ == credential_of(
                    owner_username@,
                    key@,
                    Secrets { name: name@, username: username@, password: password@, notes: notes@ },
                    (nonces.0@, nonces.1@, nonces.2@),
                ),
                Err(err) => err == VaultError::PlaintextTooLong && !fits(
                    Secrets { name: name@, username: username@, password: password@, notes: notes@ },
                ),
            },
    {
        let encrypted_name: Encrypted = match Self::seal_name(owner_username, key, name) {
            Ok(envelope) => envelope,
            Err(err) => {
                return Err(err);
            },
        };
        let encrypted_username: Encrypted = match Encrypted::try_encrypt_bytes_key_nonce(
            username.as_bytes(),
            key,
            nonces.0,
        ) {
            Ok(envelope) => envelope,
            Err(err) => {
                return Err(err);
            },
        };
        let encrypted_password: Encrypted = match Encrypted::try_encrypt_bytes_key_nonce(
            password.as_bytes(),
            key,
            nonces.1,
        ) {
            Ok(envelope) => envelope,
            Err(err) => {
                return Err(err);
            },
        };
        let encrypted_notes: Encrypted = match Encrypted::try_encrypt_bytes_key_nonce(
            notes.as_bytes(),
            key,
            nonces.2,
        ) {
            Ok(envelope) => envelope,
            Err(err) => {
                return Err(err);
            },
        };
        Ok(
            Credential {
                owner_username: owner_username.to_owned(),
                encrypted_name,
                encrypted_username,
                encrypted_password,
                encrypted_notes,
            },
        )
    }

    /// The envelope of a name: with the owner, the key under which the
    /// credential of that name is stored and found.
    pub fn seal_name(owner_username: &str, key: Aes256Key, name: &str) -> (envelope: Result<
        Encrypted,
        VaultError,
    >)
        ensures
            match envelope {
                Ok(e) => text_bytes(name@).len() <= PLAINTEXT_MAX && e@ == sealed_name(
                    key@,
                    owner_username@,
                    name@,
                ),
                Err(err) => err == VaultError::PlaintextTooLong && text_bytes(name@).len()
                    > PLAINTEXT_MAX,
            },
    {
        let nonce: Aes256Nonce = name_nonce(&key, owner_username, name);
        Encrypted::try_encrypt_bytes_key_nonce(name.as_bytes(), key, nonce)
    }

    /// A credential made of the values that a store holds of it.
    pub fn from_fields(
        owner_username: String,
        encrypted_name: Encrypted,
        encrypted_username: Encrypted,
        encrypted_password: Encrypted,
        encrypted_notes: Encrypted,
    ) -> (credential: Credential)
        ensures
            credential@ == (CredentialView {
                owner_username: owner_username@,
                encrypted_name: encrypted_name@,
                encrypted_username: encrypted_username@,
                encrypted_password: encrypted_password@,
                encrypted_notes: encrypted_notes@,
            }),
    {
        Credential {
            owner_username,
            encrypted_name,
            encrypted_username,
            encrypted_password,
            encrypted_notes,
        }
    }

    /// The name of the account that owns this credential.
    pub fn owner_username(&self) -> (name: &str)
        ensures
            name@ == self@.owner_username,
    {
        self.owner_username.as_str()
    }

    /// The encrypted name of this credential.
    pub fn encrypted_name(&self) -> (envelope: &Encrypted)
        ensures
            envelope@ == self@.encrypted_name,
    {
        &self.encrypted_name
    }

    /// The encrypted login name.
    pub fn encrypted_username(&self) -> (envelope: &Encrypted)
        ensures
            envelope@ == self@.encrypted_username,
    {
        &self.encrypted_username
    }

    /// The encrypted login password.
    pub fn encrypted_password(&self) -> (envelope: &Encrypted)
        ensures
            envelope@ == self@.encrypted_password,
    {
        &self.encrypted_password
    }

    /// The encrypted notes.
    pub fn encrypted_notes(&self) -> (envelope: &Encrypted)
        ensures
            envelope@ == self@.encrypted_notes,
    {
        &self.encrypted_notes
    }

    /// The name of this credential, decrypted under the owner's data key.
    pub fn name(&self, key: Aes256Key) -> (text: Result<String, VaultError>)
        ensures
            reads(self@.encrypted_name, key@, text),
    {
        self.encrypted_name.decrypt_text(&key)
    }

    /// The login name, decrypted under the owner's data key.
    pub fn username(&self, key: Aes256Key) -> (text: Result<String, VaultError>)
        ensures
            reads(self@.encrypted_username, key@, text),
    {
        self.encrypted_username.decrypt_text(&key)
    }

    /// The login password, decrypted under the owner's data key.
    pub fn password(&self, key: Aes256Key) -> (text: Result<String, VaultError>)
        ensures
            reads(self@.encrypted_password, key@, text),
    {
        self.encrypted_password.decrypt_text(&key)
    }

    /// The notes, decrypted under the owner's data key.
    pub fn notes(&self, key: Aes256Key) -> (text: Result<String, VaultError>)
        ensures
            reads(self@.encrypted_notes, key@, text),
    {
        self.encrypted_notes.decrypt_text(&key)
    }
}

/// What reading a field of a credential under a key gives: the text that
/// the envelope opens to, or `DecryptionFailure` where it opens to none. A
/// field that was sealed under the key reads as the text that was sealed.
pub open spec fn reads(envelope: EncryptedView, key: Seq<u8>, text: Result<String, VaultError>) -> bool {
    &&& match text {
        Ok(t) => opened(envelope, key) == Some(text_bytes(t@)),
        Err(err) => err == VaultError::DecryptionFailure && (opened(envelope, key) matches Some(p)
            ==> !vstd::utf8::valid_utf8(p)),
    }
    &&& forall|t: Seq<char>|
        #![trigger sealed(text_bytes(t), key, envelope.nonce)]
        text_bytes(t).len() <= PLAINTEXT_MAX && envelope == sealed(text_bytes(t), key, envelope.nonce)
            ==> text is Ok && text->Ok_0@ == t
}

} // verus!
