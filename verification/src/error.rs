//! The failures that the vault reports.

use vstd::prelude::*;

verus! {

/// Why an operation of the vault failed. Every failure is handed to the
/// caller; none is retried or suppressed.
#[derive(Clone, Copy, Debug, PartialEq, Eq, Structural)]
pub enum VaultError {
    /// No row has the given key. Reported by a delete, never by a select.
    NotFound,
    /// A foreign key has no target, or the primary key is already taken.
    ConstraintViolation,
    /// The password does not match the stored verifier.
    AuthFailure,
    /// Authenticated decryption failed: a wrong key or an altered envelope.
    DecryptionFailure,
    /// A stored row does not decode into its entity.
    CorruptRow,
    /// The filesystem or the store could not be reached.
    IOFailure,
    /// A commit or a rollback itself failed. Nothing can be done about it.
    TransactionFailure,
    /// The plaintext is longer than the cipher accepts in one envelope.
    PlaintextTooLong,
}

impl VaultError {
    /// A short description of the failure, for the user.
    pub fn describe(&self) -> (text: &'static str)
        ensures
            text@ == Self::description(*self),
    {
        match self {
            VaultError::NotFound => "no entry matches the given key",
            VaultError::ConstraintViolation => "the entry's owner is missing or its key is already in use",
            VaultError::AuthFailure => "the password is not correct",
            VaultError::DecryptionFailure => "the data could not be decrypted",
            VaultError::CorruptRow => "a stored entry is damaged",
            VaultError::IOFailure => "the data could not be read or written",
            VaultError::TransactionFailure => "the store could not finish the transaction",
            VaultError::PlaintextTooLong => "the data is too long to encrypt",
        }
    }

    /// The text of `describe`.
    pub open spec fn description(e: VaultError) -> Seq<char> {
        match e {
            VaultError::NotFound => "no entry matches the given key"@,
            VaultError::ConstraintViolation => "the entry's owner is missing or its key is already in use"@,
            VaultError::AuthFailure => "the password is not correct"@,
            VaultError::DecryptionFailure => "the data could not be decrypted"@,
            VaultError::CorruptRow => "a stored entry is damaged"@,
            VaultError::IOFailure => "the data could not be read or written"@,
            VaultError::TransactionFailure => "the store could not finish the transaction"@,
            VaultError::PlaintextTooLong => "the data is too long to encrypt"@,
        }
    }
}

} // verus!
