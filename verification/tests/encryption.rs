use camino::{Utf8Path, Utf8PathBuf};
use dgruft::encrypted::{bytes_equal, drawn, new_rand_key, new_rand_nonce, Encrypted};
use dgruft::error::VaultError;

#[test]
fn aes_256_consistency() {
    let test_string = String::from("this is a test.");

    let (encrypted_1, key) = Encrypted::try_encrypt_new_key(test_string.clone().as_bytes()).unwrap();
    let encrypted_2 =
        Encrypted::try_encrypt_bytes_key_nonce(test_string.clone().as_bytes(), key, encrypted_1.nonce())
            .unwrap();

    assert_eq!(encrypted_1, encrypted_2);

    let decrypted_1 = encrypted_1.decrypt_text(&key).unwrap();
    let decrypted_2 = encrypted_2.decrypt_text(&key).unwrap();

    assert_eq!(decrypted_1, test_string);
    assert_eq!(decrypted_1, decrypted_2);
}

#[test]
fn check_utf8() {
    let test_str = "您好!";

    let (encrypted, key) = Encrypted::try_encrypt_new_key(test_str.as_bytes()).unwrap();
    let decrypted = encrypted.try_decrypt_bytes(key).unwrap();

    assert_eq!(test_str.as_bytes(), decrypted);
    assert_eq!(test_str, std::str::from_utf8(&decrypted).unwrap());
}

#[test]
fn utf8_paths() {
    let test_path_buf = Utf8PathBuf::from("src/backend/encryption/encrypted.rs");
    let test_path: &Utf8Path = &test_path_buf;

    let (encrypted_1, key) =
        Encrypted::try_encrypt_new_key(test_path_buf.clone().as_str().as_bytes()).unwrap();
    let encrypted_2 =
        Encrypted::try_encrypt_bytes_key_nonce(test_path.as_str().as_bytes(), key, encrypted_1.nonce())
            .unwrap();

    assert_eq!(encrypted_1, encrypted_2);

    let decrypted_1: &[u8] = &encrypted_1.try_decrypt_bytes(key).unwrap();
    let decrypted_2: &[u8] = &encrypted_2.try_decrypt_bytes(key).unwrap();

    assert_eq!(decrypted_1, decrypted_2);
}

#[test]
fn known_answer_of_the_cipher() {
    // AES-256-GCM with a key, a nonce and a plaintext of zeros: a published
    // test vector of the cipher.
    let key = [0u8; 32];
    let nonce = [0u8; 12];
    let envelope = Encrypted::try_encrypt_bytes_key_nonce(&[0u8; 16], key, nonce).unwrap();
    let expected: [u8; 32] = [
        0xce, 0xa7, 0x40, 0x3d, 0x4d, 0x60, 0x6b, 0x6e, 0x07, 0x4e, 0xc5, 0xd3, 0xba, 0xf3, 0x9d,
        0x18, 0xd0, 0xd1, 0xc8, 0xa7, 0x99, 0x99, 0x6b, 0xf0, 0x26, 0x5b, 0x98, 0xb5, 0xd4, 0x8a,
        0xb9, 0x19,
    ];
    assert_eq!(envelope.cipherbytes(), &expected[..]);
    assert_eq!(envelope.nonce(), nonce);
}

#[test]
fn empty_plaintext_gives_the_tag_alone() {
    let envelope = Encrypted::try_encrypt_bytes_key_nonce(b"", [1u8; 32], [2u8; 12]).unwrap();
    assert_eq!(envelope.cipherbytes().len(), 16);
    assert_eq!(envelope.try_decrypt_bytes([1u8; 32]).unwrap(), Vec::<u8>::new());
}

#[test]
fn round_trip_of_all_byte_values() {
    let plaintext: Vec<u8> = (0..=255u8).collect();
    let key = [0x42u8; 32];
    let nonce = [0x24u8; 12];
    let envelope = Encrypted::try_encrypt_bytes_key_nonce(&plaintext, key, nonce).unwrap();
    assert_eq!(envelope.cipherbytes().len(), plaintext.len() + 16);
    assert_ne!(&envelope.cipherbytes()[..256], &plaintext[..]);
    assert_eq!(envelope.try_decrypt_bytes(key).unwrap(), plaintext);
}

#[test]
fn wrong_key_fails_closed() {
    let key = [3u8; 32];
    let mut other = key;
    other[31] ^= 1;
    let envelope = Encrypted::try_encrypt_bytes_key_nonce(b"secret", key, [0u8; 12]).unwrap();
    assert_eq!(envelope.clone().try_decrypt_bytes(other), Err(VaultError::DecryptionFailure));
    assert_eq!(envelope.try_decrypt_bytes(key).unwrap(), b"secret".to_vec());
}

#[test]
fn every_flipped_bit_fails_closed() {
    let key = [5u8; 32];
    let nonce = [6u8; 12];
    let envelope = Encrypted::try_encrypt_bytes_key_nonce(b"attack at dawn", key, nonce).unwrap();
    let cipherbytes = envelope.cipherbytes().to_vec();
    for i in 0..cipherbytes.len() {
        for bit in 0..8 {
            let mut altered = cipherbytes.clone();
            altered[i] ^= 1 << bit;
            let forged = Encrypted::from_fields(altered, nonce);
            assert_eq!(forged.try_decrypt_bytes(key), Err(VaultError::DecryptionFailure));
        }
    }
    for i in 0..nonce.len() {
        for bit in 0..8 {
            let mut altered = nonce;
            altered[i] ^= 1 << bit;
            let forged = Encrypted::from_fields(cipherbytes.clone(), altered);
            assert_eq!(forged.try_decrypt_bytes(key), Err(VaultError::DecryptionFailure));
        }
    }
}

#[test]
fn truncated_envelopes_fail_closed() {
    let key = [8u8; 32];
    let nonce = [9u8; 12];
    let envelope = Encrypted::try_encrypt_bytes_key_nonce(b"abc", key, nonce).unwrap();
    let cipherbytes = envelope.cipherbytes().to_vec();
    for len in 0..cipherbytes.len() {
        let forged = Encrypted::from_fields(cipherbytes[..len].to_vec(), nonce);
        assert_eq!(forged.try_decrypt_bytes(key), Err(VaultError::DecryptionFailure));
    }
}

#[test]
fn text_that_is_no_text_fails() {
    let key = [1u8; 32];
    let envelope = Encrypted::try_encrypt_bytes_key_nonce(&[0xff, 0xfe], key, [0u8; 12]).unwrap();
    assert_eq!(envelope.decrypt_text(&key), Err(VaultError::DecryptionFailure));
    assert_eq!(envelope.decrypt_bytes(&key).unwrap(), vec![0xff, 0xfe]);
}

#[test]
fn random_keys_and_nonces_differ() {
    assert_ne!(new_rand_key().unwrap(), new_rand_key().unwrap());
    assert_ne!(new_rand_nonce().unwrap(), new_rand_nonce().unwrap());
    let first = Encrypted::try_encrypt_with_key(b"same", [0u8; 32]).unwrap();
    let second = Encrypted::try_encrypt_with_key(b"same", [0u8; 32]).unwrap();
    assert_ne!(first, second);
    assert_eq!(first.decrypt_bytes(&[0u8; 32]).unwrap(), b"same".to_vec());
}

#[test]
fn copies_and_comparison() {
    let envelope = Encrypted::try_encrypt_bytes_key_nonce(b"x", [1u8; 32], [1u8; 12]).unwrap();
    let copy = envelope.duplicate();
    assert_eq!(envelope, copy);
    assert!(envelope.same_as(&copy));
    let other = Encrypted::try_encrypt_bytes_key_nonce(b"y", [1u8; 32], [1u8; 12]).unwrap();
    assert!(!envelope.same_as(&other));
    let renonced = Encrypted::from_fields(envelope.cipherbytes().to_vec(), [2u8; 12]);
    assert!(!envelope.same_as(&renonced));
    assert!(bytes_equal(b"", b""));
    assert!(bytes_equal(b"abc", b"abc"));
    assert!(!bytes_equal(b"abc", b"abd"));
    assert!(!bytes_equal(b"abc", b"ab"));
    assert!(!bytes_equal(b"\x00", b"\x80"));
}

#[test]
fn what_becomes_of_a_draw() {
    assert_eq!(drawn(Some([7u8; 32])), Ok([7u8; 32]));
    assert_eq!(drawn(Some([1u8, 2, 3])), Ok([1u8, 2, 3]));
    assert_eq!(drawn::<12>(None), Err(VaultError::IOFailure));
    assert_eq!(drawn::<32>(None), Err(VaultError::IOFailure));
}
