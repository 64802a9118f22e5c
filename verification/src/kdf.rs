//! Key derivation: PBKDF2 with HMAC-SHA-256, of the `pbkdf2` and `sha2`
//! crates. What it computes is named, not restated.

use vstd::prelude::*;

use crate::encrypted::Aes256Key;

verus! {

/// What PBKDF2 with HMAC-SHA-256 derives from a password and a salt, in the
/// given number of rounds and of the given length.
pub uninterp spec fn pbkdf2_hmac_sha256(password: Seq<u8>, salt: Seq<u8>, rounds: u32, len: nat) -> Seq<
    u8,
>;

/// `pbkdf2::pbkdf2_hmac` with `sha2::Sha256`.
///
/// Claimed: the bytes derived depend on the password, the salt, the number
/// of rounds and the length asked for alone, and are as many as asked for.
#[verifier::external_body]
pub(crate) fn pbkdf2_derive(password: &[u8], salt: &[u8], rounds: u32, len: usize) -> (derived: Vec<u8>)
    requires
        len <= 1024,
    ensures
        derived@ == pbkdf2_hmac_sha256(password@, salt@, rounds, len as nat),
        derived@.len() == len,
{
    let mut derived = vec![0u8; len];
    pbkdf2::pbkdf2_hmac::<sha2::Sha256>(password, salt, rounds, &mut derived);
    derived
}

/// The greatest length that `derive_bytes` derives.
pub const DERIVED_MAX: usize = 1024;

/// Derives bytes from a password and a salt, by PBKDF2 with HMAC-SHA-256.
/// Gives nothing where more than `DERIVED_MAX` bytes are asked for.
pub fn derive_bytes(password: &[u8], salt: &[u8], rounds: u32, len: usize) -> (derived: Option<Vec<u8>>)
    ensures
        match derived {
            Some(bytes) => len <= DERIVED_MAX && bytes@ == pbkdf2_hmac_sha256(
                password@,
                salt@,
                rounds,
                len as nat,
            ) && bytes@.len() == len,
            None => len > DERIVED_MAX,
        },
{
    if len > DERIVED_MAX {
        None
    } else {
        Some(pbkdf2_derive(password, salt, rounds, len))
    }
}

/// The thirty-two bytes of `bytes` that start at `from`.
pub(crate) fn key_at(bytes: &[u8], from: usize) -> (key: Aes256Key)
    requires
        from + 32 <= bytes@.len(),
    ensures
        key@ == bytes@.subrange(from as int, from + 32),
{
    let n: usize = bytes.len();
    let mut key: Aes256Key = [0u8; 32];
    let mut i: usize = 0;
    while i < 32
        invariant
            i <= 32,
            n == bytes@.len(),
            from + 32 <= n,
            forall|j: int| 0 <= j < i ==> key@[j] == bytes@[from + j],
        decreases 32 - i,
    {
        key[i] = bytes[from + i];
        i += 1;
    }
    assert(key@ =~= bytes@.subrange(from as int, from + 32));
    key
}

} // verus!
