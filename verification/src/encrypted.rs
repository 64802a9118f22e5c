//! The encryption envelope: a ciphertext with its authentication tag, and
//! the nonce it was made with.
//!
//! The cipher is AES-256-GCM of the `aes-gcm` crate. What it computes is not
//! restated here: the sealed bytes and the result of opening them are named,
//! and of the two names only what the crate documents is taken for granted.

use aes_gcm::aead::rand_core::RngCore;
use aes_gcm::aead::{Aead, KeyInit, OsRng};
use aes_gcm::Aes256Gcm;
use vstd::prelude::*;
use vstd::slice::slice_to_vec;

use crate::codec::{text_bytes, text_from_bytes};
use crate::error::VaultError;

verus! {

/// A 96-bit nonce of AES-256-GCM.
pub type Aes256Nonce = [u8; 12];

/// A 256-bit key of AES-256-GCM.
pub type Aes256Key = [u8; 32];

/// The longest plaintext that one envelope holds, in bytes.
pub const PLAINTEXT_MAX: u64 = 0x10_0000_0000;

/// The length of the authentication tag that ends every ciphertext.
pub const TAG_LEN: usize = 16;

/// What AES-256-GCM makes of a plaintext under a key and a nonce, with no
/// associated data: the ciphertext, followed by its tag.
pub uninterp spec fn aes256_gcm_seal(key: Seq<u8>, nonce: Seq<u8>, plaintext: Seq<u8>) -> Seq<u8>;

/// What AES-256-GCM makes of sealed bytes under a key and a nonce: the
/// plaintext, where the tag is the one that belongs to them, else nothing.
pub uninterp spec fn aes256_gcm_open(key: Seq<u8>, nonce: Seq<u8>, sealed: Seq<u8>) -> Option<
    Seq<u8>,
>;

/// `Aead::encrypt` of `Aes256Gcm`, on a cipher made by `KeyInit::new`.
///
/// Claimed: for a plaintext within the cipher's limit the call succeeds, its
/// result depends on the key, the nonce and the plaintext alone, and it is
/// sixteen bytes longer than the plaintext.
#[verifier::external_body]
fn aes_gcm_encrypt(key: &Aes256Key, nonce: &Aes256Nonce, plaintext: &[u8]) -> (sealed: Option<
    Vec<u8>,
>)
    requires
        plaintext@.len() <= PLAINTEXT_MAX,
    ensures
        sealed is Some,
        sealed->0@ == aes256_gcm_seal(key@, nonce@, plaintext@),
        sealed->0@.len() == plaintext@.len() + TAG_LEN,
{
    let cipher = Aes256Gcm::new(key.into());
    cipher.encrypt(nonce.into(), plaintext).ok()
}

/// `Aead::decrypt` of `Aes256Gcm`, on a cipher made by `KeyInit::new`.
///
/// Claimed: the result depends on the key, the nonce and the sealed bytes
/// alone; a plaintext that comes back is sixteen bytes shorter than they
/// are; and what `Aead::encrypt` made under the same key and nonce opens to
/// the plaintext it was made from.
#[verifier::external_body]
fn aes_gcm_decrypt(key: &Aes256Key, nonce: &Aes256Nonce, sealed: &[u8]) -> (opened: Option<
    Vec<u8>,
>)
    ensures
        opened is Some <==> aes256_gcm_open(key@, nonce@, sealed@) is Some,
        opened is Some ==> opened->0@ == aes256_gcm_open(key@, nonce@, sealed@)->0,
        opened is Some ==> opened->0@.len() + TAG_LEN == sealed@.len(),
        forall|plaintext: Seq<u8>|
            #![trigger aes256_gcm_seal(key@, nonce@, plaintext)]
            plaintext.len() <= PLAINTEXT_MAX && sealed@ == aes256_gcm_seal(
                key@,
                nonce@,
                plaintext,
            ) ==> opened is Some && opened->0@ == plaintext,
{
    let cipher = Aes256Gcm::new(key.into());
    cipher.decrypt(nonce.into(), sealed).ok()
}

/// `RngCore::try_fill_bytes` of `OsRng`: bytes from the operating system's
/// random source, or nothing where the source fails. Nothing is claimed of
/// the bytes.
#[verifier::external_body]
pub(crate) fn os_random<const N: usize>() -> (bytes: Option<[u8; N]>) {
    let mut bytes = [0u8; N];
    match OsRng.try_fill_bytes(&mut bytes) {
        Ok(()) => Some(bytes),
        Err(_) => None,
    }
}

/// A fresh random key, or `IOFailure` where the random source fails.
pub fn new_rand_key() -> (key: Result<Aes256Key, VaultError>)
    ensures
        key is Err ==> key == Err::<Aes256Key, VaultError>(VaultError::IOFailure),
{
    drawn(os_random::<32>())
}

/// A fresh random nonce, or `IOFailure` where the random source fails.
pub fn new_rand_nonce() -> (nonce: Result<Aes256Nonce, VaultError>)
    ensures
        nonce is Err ==> nonce == Err::<Aes256Nonce, VaultError>(VaultError::IOFailure),
{
    drawn(os_random::<12>())
}

/// What becomes of a draw from the random source: the bytes where it gave
/// some, and `IOFailure` where it gave none.
pub fn drawn<const N: usize>(bytes: Option<[u8; N]>) -> (random: Result<[u8; N], VaultError>)
    ensures
        random == match bytes {
            Some(b) => Ok::<[u8; N], VaultError>(b),
            None => Err::<[u8; N], VaultError>(VaultError::IOFailure),
        },
{
    match bytes {
        Some(b) => Ok(b),
        None => Err(VaultError::IOFailure),
    }
}

/// An encrypted byte string.
#[derive(Debug, Clone, PartialEq, Eq)]
pub struct Encrypted {
    cipherbytes: Vec<u8>,
    nonce: Aes256Nonce,
}

/// What an envelope holds.
pub struct EncryptedView {
    /// The ciphertext, its tag included.
    pub cipherbytes: Seq<u8>,
    /// The nonce that the ciphertext was made with.
    pub nonce: Seq<u8>,
}

impl View for Encrypted {
    type V = EncryptedView;

    closed spec fn view(&self) -> EncryptedView {
        EncryptedView { cipherbytes: self.cipherbytes@, nonce: self.nonce@ }
    }
}

/// The envelope that holds a plaintext under a key and a nonce.
pub open spec fn sealed(plaintext: Seq<u8>, key: Seq<u8>, nonce: Seq<u8>) -> EncryptedView {
    EncryptedView { cipherbytes: aes256_gcm_seal(key, nonce, plaintext), nonce }
}

/// What an envelope opens to under a key.
pub open spec fn opened(envelope: EncryptedView, key: Seq<u8>) -> Option<Seq<u8>> {
    aes256_gcm_open(key, envelope.nonce, envelope.cipherbytes)
}

impl Encrypted {
    /// An envelope made of a ciphertext and the nonce that belongs to it.
    pub fn from_fields(cipherbytes: Vec<u8>, nonce: Aes256Nonce) -> (envelope: Encrypted)
        ensures
            envelope@ == (EncryptedView { cipherbytes: cipherbytes@, nonce: nonce@ }),
    {
        Encrypted { cipherbytes, nonce }
    }

    /// Encrypts a byte string under a key and a nonce.
    ///
    /// Succeeds on every plaintext within the cipher's limit, and gives the
    /// same envelope whenever plaintext, key and nonce are the same. The
    /// caller sees to it that no nonce is used twice under one key.
    pub fn try_encrypt_bytes_key_nonce(
        byte_slice: &[u8],
        key: Aes256Key,
        nonce: Aes256Nonce,
    ) -> (envelope: Result<Encrypted, VaultError>)
        ensures
            match envelope {
                Ok(e) => byte_slice@.len() <= PLAINTEXT_MAX && e@ == sealed(
                    byte_slice@,
                    key@,
                    nonce@,
                ) && e@.cipherbytes.len() == byte_slice@.len() + TAG_LEN,
                Err(err) => byte_slice@.len() > PLAINTEXT_MAX && err == VaultError::PlaintextTooLong,
            },
    {
        if byte_slice.len() as u64 > PLAINTEXT_MAX {
            return Err(VaultError::PlaintextTooLong);
        }
        match aes_gcm_encrypt(&key, &nonce, byte_slice) {
            Some(cipherbytes) => Ok(Encrypted { cipherbytes, nonce }),
            None => Err(VaultError::PlaintextTooLong),
        }
    }

    /// Encrypts a byte string under a key, with a fresh random nonce.
    ///
    /// Fails with `PlaintextTooLong` on a plaintext beyond the cipher's
    /// limit, and with `IOFailure` where no random nonce can be had.
    pub fn try_encrypt_with_key(byte_slice: &[u8], key: Aes256Key) -> (envelope: Result<
        Encrypted,
        VaultError,
    >)
        ensures
            match envelope {
                Ok(e) => byte_slice@.len() <= PLAINTEXT_MAX && e@ == sealed(
                    byte_slice@,
                    key@,
                    e@.nonce,
                ),
                Err(err) => if byte_slice@.len() > PLAINTEXT_MAX {
                    err == VaultError::PlaintextTooLong
                } else {
                    err == VaultError::IOFailure
                },
            },
    {
        if byte_slice.len() as u64 > PLAINTEXT_MAX {
            return Err(VaultError::PlaintextTooLong);
        }
        match new_rand_nonce() {
            Ok(nonce) => Self::try_encrypt_bytes_key_nonce(byte_slice, key, nonce),
            Err(err) => Err(err),
        }
    }

    /// Encrypts a byte string under a fresh random key, with a fresh random
    /// nonce, and hands the key back with the envelope.
    pub fn try_encrypt_new_key(byte_slice: &[u8]) -> (sealed_with: Result<
        (Encrypted, Aes256Key),
        VaultError,
    >)
        ensures
            match sealed_with {
                Ok((e, key)) => byte_slice@.len() <= PLAINTEXT_MAX && e@ == sealed(
                    byte_slice@,
                    key@,
                    e@.nonce,
                ),
                Err(err) => if byte_slice@.len() > PLAINTEXT_MAX {
                    err == VaultError::PlaintextTooLong
                } else {
                    err == VaultError::IOFailure
                },
            },
    {
        if byte_slice.len() as u64 > PLAINTEXT_MAX {
            return Err(VaultError::PlaintextTooLong);
        }
        match new_rand_key() {
            Ok(key) => match Self::try_encrypt_with_key(byte_slice, key) {
                Ok(envelope) => Ok((envelope, key)),
                Err(err) => Err(err),
            },
            Err(err) => Err(err),
        }
    }

    /// Decrypts this envelope into its plaintext.
    ///
    /// The result is the plaintext that the cipher hands out under the key,
    /// or `DecryptionFailure` where it hands out none: never anything else.
    /// An envelope that holds a plaintext under this key gives it back.
    pub fn try_decrypt_bytes(self, key: Aes256Key) -> (plaintext: Result<Vec<u8>, VaultError>)
        ensures
            match plaintext {
                Ok(p) => opened(self@, key@) == Some(p@),
                Err(err) => opened(self@, key@) is None && err == VaultError::DecryptionFailure,
            },
            forall|p: Seq<u8>|
                #![trigger sealed(p, key@, self@.nonce)]
                p.len() <= PLAINTEXT_MAX && self@ == sealed(p, key@, self@.nonce) ==> plaintext
                    is Ok && plaintext->Ok_0@ == p,
    {
        self.decrypt_bytes(&key)
    }

    /// Decrypts this envelope, which stays with the caller.
    pub fn decrypt_bytes(&self, key: &Aes256Key) -> (plaintext: Result<Vec<u8>, VaultError>)
        ensures
            match plaintext {
                Ok(p) => opened(self@, key@) == Some(p@),
                Err(err) => opened(self@, key@) is None && err == VaultError::DecryptionFailure,
            },
            forall|p: Seq<u8>|
                #![trigger sealed(p, key@, self@.nonce)]
                p.len() <= PLAINTEXT_MAX && self@ == sealed(p, key@, self@.nonce) ==> plaintext
                    is Ok && plaintext->Ok_0@ == p,
    {
        let opened: Option<Vec<u8>> = aes_gcm_decrypt(key, &self.nonce, self.cipherbytes.as_slice());
        proof {
            assert forall|p: Seq<u8>|
                #![trigger sealed(p, key@, self@.nonce)]
                p.len() <= PLAINTEXT_MAX && self@ == sealed(p, key@, self@.nonce) implies opened
                is Some && opened->0@ == p by {
                assert(self.cipherbytes@ == aes256_gcm_seal(key@, self.nonce@, p));
            }
        }
        match opened {
            Some(plaintext) => Ok(plaintext),
            None => Err(VaultError::DecryptionFailure),
        }
    }

    /// Decrypts this envelope into a text. Fails with `DecryptionFailure`
    /// also where the plaintext is no text.
    pub fn decrypt_text(&self, key: &Aes256Key) -> (text: Result<String, VaultError>)
        ensures
            match text {
                Ok(t) => opened(self@, key@) == Some(text_bytes(t@)),
                Err(err) => err == VaultError::DecryptionFailure && (opened(self@, key@) matches Some(
                    p,
                ) ==> !vstd::utf8::valid_utf8(p)),
            },
            forall|t: Seq<char>|
                #![trigger sealed(text_bytes(t), key@, self@.nonce)]
                text_bytes(t).len() <= PLAINTEXT_MAX && self@ == sealed(
                    text_bytes(t),
                    key@,
                    self@.nonce,
                ) ==> text is Ok && text->Ok_0@ == t,
    {
        let plaintext: Vec<u8> = match self.decrypt_bytes(key) {
            Ok(plaintext) => plaintext,
            Err(err) => {
                return Err(err);
            },
        };
        let ghost bytes = plaintext@;
        let text: Option<String> = text_from_bytes(plaintext);
        proof {
            assert forall|t: Seq<char>|
                #![trigger sealed(text_bytes(t), key@, self@.nonce)]
                text_bytes(t).len() <= PLAINTEXT_MAX && self@ == sealed(
                    text_bytes(t),
                    key@,
                    self@.nonce,
                ) implies text is Some && text->0@ == t by {
                assert(bytes == text_bytes(t));
                vstd::utf8::encode_utf8_valid_utf8(t);
                vstd::utf8::encode_utf8_decode_utf8(t);
                vstd::utf8::encode_utf8_decode_utf8(text->0@);
            }
        }
        match text {
            Some(text) => Ok(text),
            None => Err(VaultError::DecryptionFailure),
        }
    }

    /// The ciphertext of this envelope, its tag included.
    pub fn cipherbytes(&self) -> (bytes: &[u8])
        ensures
            bytes@ == self@.cipherbytes,
    {
        self.cipherbytes.as_slice()
    }

    /// The nonce of this envelope.
    pub fn nonce(&self) -> (nonce: Aes256Nonce)
        ensures
            nonce@ == self@.nonce,
    {
        self.nonce
    }

    /// A copy of this envelope.
    pub fn duplicate(&self) -> (copy: Encrypted)
        ensures
            copy@ == self@,
    {
        Encrypted { cipherbytes: slice_to_vec(self.cipherbytes.as_slice()), nonce: self.nonce }
    }

    /// Whether two envelopes hold the same ciphertext and the same nonce.
    pub fn same_as(&self, other: &Encrypted) -> (same: bool)
        ensures
            same == (self@ == other@),
    {
        let same: bool = bytes_equal(self.cipherbytes.as_slice(), other.cipherbytes.as_slice())
            && bytes_equal(&self.nonce, &other.nonce);
        proof {
            if same {
                assert(self@.cipherbytes =~= other@.cipherbytes);
                assert(self@.nonce =~= other@.nonce);
            }
        }
        same
    }
}

/// Whether two byte strings are equal. Every byte is looked at, whatever
/// the others are.
pub fn bytes_equal(a: &[u8], b: &[u8]) -> (equal: bool)
    ensures
        equal == (a@ == b@),
{
    if a.len() != b.len() {
        return false;
    }
    let mut difference: u8 = 0;
    let mut i: usize = 0;
    while i < a.len()
        invariant
            i <= a@.len(),
            a@.len() == b@.len(),
            (difference == 0) == (a@.subrange(0, i as int) =~= b@.subrange(0, i as int)),
        decreases a@.len() - i,
    {
        let x: u8 = a[i];
        let y: u8 = b[i];
        proof {
            let pa = a@.subrange(0, i as int);
            let pb = b@.subrange(0, i as int);
            let qa = a@.subrange(0, i + 1);
            let qb = b@.subrange(0, i + 1);
            assert(qa.subrange(0, i as int) =~= pa);
            assert(qb.subrange(0, i as int) =~= pb);
            assert(qa[i as int] == x && qb[i as int] == y);
            if pa == pb && x == y {
                assert(qa =~= qb);
            }
            assert(((x ^ y) == 0) == (x == y)) by (bit_vector);
            assert((difference | (x ^ y)) == 0 <==> difference == 0 && (x ^ y) == 0)
                by (bit_vector);
        }
        difference = difference | (x ^ y);
        i += 1;
    }
    proof {
        assert(a@.subrange(0, i as int) =~= a@);
        assert(b@.subrange(0, i as int) =~= b@);
    }
    difference == 0
}

} // verus!
