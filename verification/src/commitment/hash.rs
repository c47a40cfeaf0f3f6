//! The hash-backed commitment scheme: committing is digesting the secret.

use vstd::prelude::*;

use crate::primitive::{fixed_time_eq, random_bytes, sha256, sha256_of};

verus! {

/// SHA-256 as a commitment scheme: 32-byte secrets, and the commitment to a
/// secret is its digest.
pub struct Sha256;

impl super::Commitment for Sha256 {
    open spec fn secret_len(&self) -> nat {
        32
    }

    open spec fn commit_of(&self, el: Seq<u8>) -> Seq<u8> {
        sha256_of(el)
    }

    fn generate(&self) -> (r: Vec<u8>) {
        random_bytes(32)
    }

    fn commit(&self, el: &Vec<u8>) -> (r: Vec<u8>) {
        sha256(el)
    }

    fn verify(&self, commitment: &Vec<u8>, reveal: &Vec<u8>) -> (r: bool) {
        let c = sha256(reveal);
        fixed_time_eq(&c, commitment)
    }
}

} // verus!
