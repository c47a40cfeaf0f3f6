//! The concrete cryptographic primitives, behind trusted wrappers.
//!
//! Everything here is the boundary to outside crates: each wrapper's body
//! makes one outside call and converts its arguments and result, and its
//! contract states only what the outside crate's source shows. Results that
//! are pure functions of the input but have no short description (a digest,
//! a block-cipher output, a public-key derivation) are given uninterpreted
//! names; the verified code above reasons about those names only.

use vstd::prelude::*;

verus! {

/// The SHA-256 digest of `data`: 32 bytes, a function of `data` alone.
pub uninterp spec fn sha256_of(data: Seq<u8>) -> Seq<u8>;

/// The AES-128 encryption of the 16-byte `block` under the 16-byte `key`,
/// as computed by the bit-sliced software implementation.
pub uninterp spec fn aes128_safe_of(key: Seq<u8>, block: Seq<u8>) -> Seq<u8>;

/// The AES-128 encryption of the 16-byte `block` under the 16-byte `key`,
/// as computed by the hardware-accelerated implementation.
pub uninterp spec fn aes128_ni_of(key: Seq<u8>, block: Seq<u8>) -> Seq<u8>;

/// The Ed25519 public key derived from a 32-byte secret key: 32 bytes,
/// a function of the secret alone.
pub uninterp spec fn ed25519_public_of(secret: Seq<u8>) -> Seq<u8>;

/// Relies on `rand::thread_rng` and `RngCore::fill_bytes`: fills the whole
/// buffer with cryptographically secure random bytes. Nothing can be said
/// of the values, only of the length.
#[verifier::external_body]
pub(crate) fn random_bytes(len: usize) -> (r: Vec<u8>)
    ensures
        r@.len() == len,
{
    let mut buf = vec![0u8; len];
    rand::RngCore::fill_bytes(&mut rand::thread_rng(), &mut buf);
    buf
}

/// Relies on `crypto::util::fixed_time_eq`: true exactly when the two
/// slices hold the same bytes (false outright on a length mismatch), with
/// a running time independent of the position of the first difference.
/// Its comparison helper reports two empty slices as unequal and reads the
/// first byte whenever the lengths agree, so an empty left side is excluded
/// here; with a non-empty left side the result is exactly byte equality.
#[verifier::external_body]
pub(crate) fn fixed_time_eq(lhs: &Vec<u8>, rhs: &Vec<u8>) -> (r: bool)
    requires
        lhs@.len() > 0,
    ensures
        r == (lhs@ == rhs@),
{
    crypto::util::fixed_time_eq(lhs.as_slice(), rhs.as_slice())
}

/// Relies on `crypto::sha2::Sha256` via `crypto::digest::Digest`: `result`
/// writes the 32-byte SHA-256 digest of everything passed to `input`.
#[verifier::external_body]
pub(crate) fn sha256(data: &Vec<u8>) -> (r: Vec<u8>)
    ensures
        r@ == sha256_of(data@),
        r@.len() == 32,
{
    let mut digest = crypto::sha2::Sha256::new();
    crypto::digest::Digest::input(&mut digest, data.as_slice());
    let mut out = vec![0u8; 32];
    crypto::digest::Digest::result(&mut digest, &mut out);
    out
}

/// Relies on `crypto::aessafe::AesSafe128Encryptor`: `new` panics unless the
/// key is the 16 bytes its 128-bit key schedule lays out (the requires
/// admits exactly that), and `encrypt_block` writes the 16-byte AES
/// encryption of the 16-byte block.
#[verifier::external_body]
pub(crate) fn aes128_safe_encrypt(key: &Vec<u8>, block: &Vec<u8>) -> (r: Vec<u8>)
    requires
        key@.len() == 16,
        block@.len() == 16,
    ensures
        r@ == aes128_safe_of(key@, block@),
        r@.len() == 16,
{
    let cipher = crypto::aessafe::AesSafe128Encryptor::new(key.as_slice());
    let mut out = vec![0u8; 16];
    crypto::symmetriccipher::BlockEncryptor::encrypt_block(&cipher, block.as_slice(), &mut out);
    out
}

/// Relies on `crypto::aesni::AesNiEncryptor`: as `aes128_safe_encrypt`, but
/// through the AES-NI instructions. `new` panics on a machine without
/// AES-NI support, faithfully to the primitive it stands for; no input
/// avoids that.
#[verifier::external_body]
pub(crate) fn aes128_ni_encrypt(key: &Vec<u8>, block: &Vec<u8>) -> (r: Vec<u8>)
    requires
        key@.len() == 16,
        block@.len() == 16,
    ensures
        r@ == aes128_ni_of(key@, block@),
        r@.len() == 16,
{
    let cipher = crypto::aesni::AesNiEncryptor::new(crypto::aes::KeySize::KeySize128, key.as_slice());
    let mut out = vec![0u8; 16];
    crypto::symmetriccipher::BlockEncryptor::encrypt_block(&cipher, block.as_slice(), &mut out);
    out
}

/// Relies on `ed25519_dalek::SecretKey::from_bytes` (always `Ok` on 32
/// bytes) and `ed25519_dalek::PublicKey::from`, which derives the public
/// key deterministically from the secret bytes.
#[verifier::external_body]
pub(crate) fn ed25519_public(secret: &Vec<u8>) -> (r: Vec<u8>)
    requires
        secret@.len() == 32,
    ensures
        r@ == ed25519_public_of(secret@),
        r@.len() == 32,
{
    let sk = ed25519_dalek::SecretKey::from_bytes(secret.as_slice()).expect("32-byte secret");
    let pk = ed25519_dalek::PublicKey::from(&sk);
    pk.to_bytes().to_vec()
}

} // verus!
