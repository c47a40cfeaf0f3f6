//! The block-cipher-backed commitment schemes: the secret is an AES-128 key,
//! and the commitment to it is the encryption of the all-zero block under it.

use vstd::prelude::*;

use crate::primitive::{
    aes128_ni_encrypt, aes128_ni_of, aes128_safe_encrypt, aes128_safe_of, fixed_time_eq,
    random_bytes,
};

verus! {

/// The all-zero 16-byte block every AES-backed commitment encrypts.
pub open spec fn zero_block() -> Seq<u8> {
    Seq::new(16, |i: int| 0u8)
}

/// A 16-byte vector of zeroes.
fn zero_block_bytes() -> (r: Vec<u8>)
    ensures
        r@ == zero_block(),
{
    let mut r: Vec<u8> = Vec::new();
    let mut i: usize = 0;
    while i < 16
        invariant
            i <= 16,
            r@.len() == i,
            forall|k: int| 0 <= k < i ==> r@[k] == 0u8,
        decreases 16 - i,
    {
        r.push(0u8);
        i = i + 1;
    }
    proof {
        assert(r@ =~= zero_block());
    }
    r
}

/// AES-128 (software implementation) as a commitment scheme: 16-byte
/// secrets, commitment is the zero block encrypted under the secret.
pub struct Aes128SafeEncryptor;

impl super::Commitment for Aes128SafeEncryptor {
    open spec fn secret_len(&self) -> nat {
        16
    }

    open spec fn commit_of(&self, el: Seq<u8>) -> Seq<u8> {
        aes128_safe_of(el, zero_block())
    }

    fn generate(&self) -> (r: Vec<u8>) {
        random_bytes(16)
    }

    fn commit(&self, el: &Vec<u8>) -> (r: Vec<u8>) {
        let zeroes = zero_block_bytes();
        aes128_safe_encrypt(el, &zeroes)
    }

    fn verify(&self, commitment: &Vec<u8>, reveal: &Vec<u8>) -> (r: bool) {
        let zeroes = zero_block_bytes();
        let c = aes128_safe_encrypt(reveal, &zeroes);
        fixed_time_eq(&c, commitment)
    }
}

/// AES-128 (hardware-accelerated implementation) as a commitment scheme,
/// otherwise as `Aes128SafeEncryptor`.
pub struct Aes128NiEncryptor;

impl super::Commitment for Aes128NiEncryptor {
    open spec fn secret_len(&self) -> nat {
        16
    }

    open spec fn commit_of(&self, el: Seq<u8>) -> Seq<u8> {
        aes128_ni_of(el, zero_block())
    }

    fn generate(&self) -> (r: Vec<u8>) {
        random_bytes(16)
    }

    fn commit(&self, el: &Vec<u8>) -> (r: Vec<u8>) {
        let zeroes = zero_block_bytes();
        aes128_ni_encrypt(el, &zeroes)
    }

    fn verify(&self, commitment: &Vec<u8>, reveal: &Vec<u8>) -> (r: bool) {
        let zeroes = zero_block_bytes();
        let c = aes128_ni_encrypt(reveal, &zeroes);
        fixed_time_eq(&c, commitment)
    }
}

} // verus!
