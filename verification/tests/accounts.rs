use dgruft::account::{derive_keys, Account};
use dgruft::credential::{name_nonce, Credential};
use dgruft::encrypted::Encrypted;
use dgruft::error::VaultError;

#[test]
fn unlock_with_the_password() {
    let account = Account::new("mr_test", "pw1").unwrap();
    assert_eq!(account.username(), "mr_test");
    let session = account.unlock("pw1").ok().unwrap();
    assert_eq!(session.username(), "mr_test");
    assert!(account.check_password("pw1"));
    assert!(!account.check_password("pw2"));

    let credential =
        Credential::try_new("mr_test", session.key(), "site", "login", "secret", "notes").unwrap();
    let again = account.unlock("pw1").ok().unwrap();
    assert_eq!(again.key(), session.key());
    assert_eq!(credential.name(again.key()).unwrap(), "site");
    assert_eq!(credential.username(again.key()).unwrap(), "login");
    assert_eq!(credential.password(again.key()).unwrap(), "secret");
    assert_eq!(credential.notes(again.key()).unwrap(), "notes");
}

#[test]
fn unlock_with_a_wrong_password() {
    let account = Account::register("a", "right", [5u8; 32], [6u8; 16], [7u8; 12]);
    assert_eq!(account.unlock("wrong").err().unwrap(), VaultError::AuthFailure);
    assert_eq!(account.unlock("").err().unwrap(), VaultError::AuthFailure);
    assert_eq!(account.unlock("right ").err().unwrap(), VaultError::AuthFailure);
    assert_eq!(account.unlock("right").ok().unwrap().key(), [5u8; 32]);

    // Whether the envelope would open makes no difference to a wrong password.
    let broken = Account::from_fields(
        "a".to_string(),
        account.salt(),
        account.password_verifier(),
        Encrypted::from_fields(vec![0u8; 48], [7u8; 12]),
    );
    assert_eq!(broken.unlock("wrong").err().unwrap(), VaultError::AuthFailure);
    assert_eq!(broken.unlock("right").err().unwrap(), VaultError::DecryptionFailure);

    // A data key of the wrong length is no data key.
    let (_, password_key) = derive_keys("right", &account.salt());
    let short = Account::from_fields(
        "a".to_string(),
        account.salt(),
        account.password_verifier(),
        Encrypted::try_encrypt_bytes_key_nonce(&[1u8; 31], password_key, [7u8; 12]).unwrap(),
    );
    assert_eq!(short.unlock("right").err().unwrap(), VaultError::DecryptionFailure);
}

#[test]
fn registering_is_determined_by_its_inputs() {
    let a = Account::register("a", "pw", [1u8; 32], [2u8; 16], [3u8; 12]);
    let b = Account::register("a", "pw", [1u8; 32], [2u8; 16], [3u8; 12]);
    assert_eq!(a, b);
    assert_eq!(a.salt(), [2u8; 16]);
    assert_eq!(a.data_key_envelope().nonce(), [3u8; 12]);
    assert_eq!(a.data_key_envelope().cipherbytes().len(), 48);
    let other_salt = Account::register("a", "pw", [1u8; 32], [9u8; 16], [3u8; 12]);
    assert_ne!(a.password_verifier(), other_salt.password_verifier());
    assert_ne!(a.data_key_envelope(), other_salt.data_key_envelope());
    let fresh = Account::new("a", "pw").unwrap();
    let fresh_2 = Account::new("a", "pw").unwrap();
    assert_ne!(fresh.salt(), fresh_2.salt());
    assert_ne!(fresh, fresh_2);
}

#[test]
fn known_answer_of_the_derivation() {
    // The verifier and the key are the two halves of one derivation, and
    // differ.
    let mut salt = [0u8; 16];
    salt[..4].copy_from_slice(b"salt");
    let (verifier, key) = derive_keys("password", &salt);
    assert_ne!(verifier, key);
    assert_eq!(derive_keys("password", &salt), (verifier, key));
    assert_ne!(derive_keys("Password", &salt).0, verifier);
    let account = Account::register("n", "password", [0u8; 32], salt, [0u8; 12]);
    assert_eq!(account.password_verifier(), verifier);
    assert_eq!(
        account.data_key_envelope(),
        &Encrypted::try_encrypt_bytes_key_nonce(&[0u8; 32], key, [0u8; 12]).unwrap()
    );
}

#[test]
fn locking_erases_the_key() {
    let account = Account::register("a", "pw", [0xaau8; 32], [2u8; 16], [3u8; 12]);
    let mut session = account.unlock("pw").ok().unwrap();
    assert_eq!(session.key(), [0xaau8; 32]);
    session.lock();
    assert_eq!(session.key(), [0u8; 32]);
    assert_eq!(session.username(), "a");
}

#[test]
fn the_name_of_a_credential_is_found_again() {
    let key = [4u8; 32];
    let first = Credential::try_new("owner", key, "name", "u", "p", "n").unwrap();
    let second = Credential::try_new("owner", key, "name", "u", "p", "n").unwrap();
    assert_eq!(first.encrypted_name(), second.encrypted_name());
    assert_ne!(first.encrypted_username(), second.encrypted_username());
    assert_ne!(first.encrypted_password(), second.encrypted_password());
    assert_ne!(first.encrypted_notes(), second.encrypted_notes());
    assert_eq!(first.owner_username(), "owner");
    assert_eq!(first.encrypted_name().nonce(), name_nonce(&key, "owner", "name"));
    assert_ne!(name_nonce(&key, "owner", "name"), name_nonce(&key, "owner", "nam"));
    assert_ne!(name_nonce(&key, "owner", "name"), name_nonce(&key, "ownern", "ame"));
    assert_ne!(name_nonce(&key, "owner", "name"), name_nonce(&[5u8; 32], "owner", "name"));
    assert_eq!(
        Credential::seal_name("owner", key, "name").unwrap(),
        first.encrypted_name().duplicate()
    );
    let other_owner = Credential::try_new("other", key, "name", "u", "p", "n").unwrap();
    assert_ne!(first.encrypted_name(), other_owner.encrypted_name());
}

#[test]
fn credentials_under_given_nonces() {
    let key = [4u8; 32];
    let nonces = ([1u8; 12], [2u8; 12], [3u8; 12]);
    let credential = Credential::seal("o", key, "n", "user", "pass", "note", nonces).unwrap();
    assert_eq!(
        credential.encrypted_username(),
        &Encrypted::try_encrypt_bytes_key_nonce(b"user", key, [1u8; 12]).unwrap()
    );
    assert_eq!(
        credential.encrypted_password(),
        &Encrypted::try_encrypt_bytes_key_nonce(b"pass", key, [2u8; 12]).unwrap()
    );
    assert_eq!(
        credential.encrypted_notes(),
        &Encrypted::try_encrypt_bytes_key_nonce(b"note", key, [3u8; 12]).unwrap()
    );
    assert_eq!(credential.password([5u8; 32]), Err(VaultError::DecryptionFailure));
    assert_eq!(
        Credential::from_fields(
            "o".to_string(),
            credential.encrypted_name().duplicate(),
            credential.encrypted_username().duplicate(),
            credential.encrypted_password().duplicate(),
            credential.encrypted_notes().duplicate(),
        ),
        credential
    );
}

#[test]
fn sessions_of_opened_envelopes() {
    let account = Account::register("a", "pw", [1u8; 32], [2u8; 16], [3u8; 12]);
    assert!(account.verifies(&account.password_verifier()));
    let mut other = account.password_verifier();
    other[0] ^= 1;
    assert!(!account.verifies(&other));
    let session = account.session(Some(vec![9u8; 32])).ok().unwrap();
    assert_eq!(session.key(), [9u8; 32]);
    assert_eq!(session.username(), "a");
    assert_eq!(account.session(Some(vec![9u8; 31])).err().unwrap(), VaultError::DecryptionFailure);
    assert_eq!(account.session(Some(vec![9u8; 33])).err().unwrap(), VaultError::DecryptionFailure);
    assert_eq!(account.session(Some(vec![])).err().unwrap(), VaultError::DecryptionFailure);
    assert_eq!(account.session(None).err().unwrap(), VaultError::DecryptionFailure);
}
