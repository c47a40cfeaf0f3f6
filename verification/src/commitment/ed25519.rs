//! The asymmetric commitment scheme: the secret is an Ed25519 secret key,
//! its commitment the derived public key. Secrets and commitments are held
//! as their 32-byte encodings, so the round logic works on plain values.

use vstd::prelude::*;

use crate::primitive::{ed25519_public, ed25519_public_of, fixed_time_eq, random_bytes};

verus! {

/// Ed25519 key derivation as a commitment scheme: 32-byte secret keys,
/// commitment is the 32-byte encoding of the derived public key.
pub struct Ed25519;

impl super::Commitment for Ed25519 {
    open spec fn secret_len(&self) -> nat {
        32
    }

    open spec fn commit_of(&self, el: Seq<u8>) -> Seq<u8> {
        ed25519_public_of(el)
    }

    fn generate(&self) -> (r: Vec<u8>) {
        random_bytes(32)
    }

    fn commit(&self, el: &Vec<u8>) -> (r: Vec<u8>) {
        ed25519_public(el)
    }

    fn verify(&self, commitment: &Vec<u8>, reveal: &Vec<u8>) -> (r: bool) {
        let c = ed25519_public(reveal);
        fixed_time_eq(&c, commitment)
    }
}

} // verus!
