//! A one-way function built from any fixed-size block cipher, and builders
//! for hash-chain keys over the two AES-128 implementations.
//!
//! The cipher is used as a keyed pseudo-random permutation: the key is the
//! shared secret XORed element-wise with the input block, the plaintext is
//! the round counter big-endian encoded and right-aligned in a zero-padded
//! block, and the output is one block encryption. Both sides must know the
//! secret out of band.

use core::marker::PhantomData;

use vstd::prelude::*;

use crate::base::{chain_at, OneWay, PrivateKey, PublicKey};
use crate::bytes::{ctr_block, ctr_block_bytes, xor_bytes, xor_seq};
use crate::primitive::{aes128_ni_encrypt, aes128_ni_of, aes128_safe_encrypt, aes128_safe_of};

verus! {

/// A block cipher with fixed key and block sizes. `encrypt_of` is the
/// mathematical value of one block encryption; `encrypt` must return exactly
/// that, making the cipher usable as a deterministic one-way function.
pub trait BlockCipher: Sized {
    /// The key size in bytes.
    spec fn key_len() -> nat;

    /// The block size in bytes.
    spec fn block_len() -> nat;

    /// The value `encrypt` returns for `key` and `block`.
    spec fn encrypt_of(key: Seq<u8>, block: Seq<u8>) -> Seq<u8>;

    /// One block encryption of `block` under `key`.
    fn encrypt(key: &Vec<u8>, block: &Vec<u8>) -> (r: Vec<u8>)
        requires
            key@.len() == Self::key_len(),
            block@.len() == Self::block_len(),
        ensures
            r@ == Self::encrypt_of(key@, block@),
            r@.len() == Self::block_len(),
    ;
}

/// AES-128 in the portable bit-sliced software implementation.
pub struct Aes128Safe;

impl BlockCipher for Aes128Safe {
    open spec fn key_len() -> nat {
        16
    }

    open spec fn block_len() -> nat {
        16
    }

    open spec fn encrypt_of(key: Seq<u8>, block: Seq<u8>) -> Seq<u8> {
        aes128_safe_of(key, block)
    }

    fn encrypt(key: &Vec<u8>, block: &Vec<u8>) -> (r: Vec<u8>) {
        aes128_safe_encrypt(key, block)
    }
}

/// AES-128 through the AES-NI hardware instructions.
pub struct Aes128Ni;

impl BlockCipher for Aes128Ni {
    open spec fn key_len() -> nat {
        16
    }

    open spec fn block_len() -> nat {
        16
    }

    open spec fn encrypt_of(key: Seq<u8>, block: Seq<u8>) -> Seq<u8> {
        aes128_ni_of(key, block)
    }

    fn encrypt(key: &Vec<u8>, block: &Vec<u8>) -> (r: Vec<u8>) {
        aes128_ni_encrypt(key, block)
    }
}

/// A one-way function over a block cipher `B` and a shared secret: round `i`
/// maps `input` to `B::encrypt(secret XOR input, ctr_block(i))`.
pub struct BlockOneWay<B: BlockCipher> {
    secret: Vec<u8>,
    cipher: PhantomData<B>,
}

impl<B: BlockCipher> BlockOneWay<B> {
    /// The shared secret this instance was seeded with.
    pub closed spec fn secret_spec(&self) -> Seq<u8> {
        self.secret@
    }

    /// Seeds the one-way function with a shared secret. The secret must fill
    /// one key exactly, the cipher's key and block sizes must agree (the
    /// secret is XORed with input blocks to form keys), and a block must
    /// hold the 8-byte round counter; mismatches are rejected here, at
    /// construction, not mid-protocol.
    pub fn new(secret: Vec<u8>) -> (r: Self)
        requires
            secret@.len() == B::key_len(),
            B::key_len() == B::block_len(),
            B::block_len() >= 8,
        ensures
            r.wf(),
            r.secret_spec() == secret@,
            r.block_size() == secret@.len(),
            forall|i: nat, input: Seq<u8>|
                #[trigger] r.compute_spec(i, input) == B::encrypt_of(
                    xor_seq(secret@, input),
                    ctr_block(B::block_len(), i as u64),
                ),
    {
        Self { secret, cipher: PhantomData }
    }
}

impl<B: BlockCipher> OneWay for BlockOneWay<B> {
    closed spec fn block_size(&self) -> nat {
        self.secret@.len()
    }

    closed spec fn wf(&self) -> bool {
        &&& self.secret@.len() == B::key_len()
        &&& B::key_len() == B::block_len()
        &&& B::block_len() >= 8
    }

    closed spec fn compute_spec(&self, i: nat, input: Seq<u8>) -> Seq<u8> {
        B::encrypt_of(xor_seq(self.secret@, input), ctr_block(B::block_len(), i as u64))
    }

    fn block_len(&self) -> (n: usize) {
        self.secret.len()
    }

    fn compute(&self, i: usize, input: &Vec<u8>, output: &mut Vec<u8>) {
        let block = ctr_block_bytes(self.secret.len(), i as u64);
        let key = xor_bytes(&self.secret, input);
        let r = B::encrypt(&key, &block);
        *output = r;
    }
}

/// Builds matched prover and verifier keys over the block-cipher one-way
/// function for cipher `B`.
pub struct BlockBuilder<B: BlockCipher> {
    cipher: PhantomData<B>,
}

impl<B: BlockCipher> BlockBuilder<B> {
    /// A prover over cipher `B` with a fresh random seed.
    pub fn new_private(rounds: usize, secret: Vec<u8>) -> (r: PrivateKey<BlockOneWay<B>>)
        requires
            rounds < usize::MAX,
            secret@.len() == B::key_len(),
            B::key_len() == B::block_len(),
            B::block_len() >= 8,
        ensures
            r.wf(),
            r.round_spec() == rounds,
            r.total_rounds() == rounds,
            r.oneway_spec().secret_spec() == secret@,
            r.oneway_spec().block_size() == secret@.len(),
            forall|i: nat, input: Seq<u8>|
                #[trigger] r.oneway_spec().compute_spec(i, input) == B::encrypt_of(
                    xor_seq(secret@, input),
                    ctr_block(B::block_len(), i as u64),
                ),
    {
        PrivateKey::new(BlockOneWay::new(secret), rounds)
    }

    /// A prover over cipher `B` with a supplied seed; the chain is the one
    /// `chain_at` describes over that seed.
    pub fn private_from_password(rounds: usize, secret: Vec<u8>, pass: Vec<u8>) -> (r: PrivateKey<
        BlockOneWay<B>,
    >)
        requires
            rounds < usize::MAX,
            secret@.len() == B::key_len(),
            B::key_len() == B::block_len(),
            B::block_len() >= 8,
            pass@.len() == secret@.len(),
        ensures
            r.wf(),
            r.round_spec() == rounds,
            r.total_rounds() == rounds,
            r.oneway_spec().secret_spec() == secret@,
            r.oneway_spec().block_size() == secret@.len(),
            forall|i: nat, input: Seq<u8>|
                #[trigger] r.oneway_spec().compute_spec(i, input) == B::encrypt_of(
                    xor_seq(secret@, input),
                    ctr_block(B::block_len(), i as u64),
                ),
            forall|k: int|
                0 <= k <= rounds ==> #[trigger] r.passwords_view()[k] == chain_at(
                    r.oneway_spec(),
                    rounds as nat,
                    pass@,
                    k as nat,
                ),
    {
        PrivateKey::from_password(BlockOneWay::new(secret), rounds, pass)
    }

    /// A verifier over cipher `B`, anchored at `password`.
    pub fn new_public(secret: Vec<u8>, password: Vec<u8>) -> (r: PublicKey<BlockOneWay<B>>)
        requires
            secret@.len() == B::key_len(),
            B::key_len() == B::block_len(),
            B::block_len() >= 8,
            password@.len() == secret@.len(),
        ensures
            r.wf(),
            r.round_spec() == 1,
            r.password_spec() == password@,
            r.oneway_spec().secret_spec() == secret@,
            r.oneway_spec().block_size() == secret@.len(),
            forall|i: nat, input: Seq<u8>|
                #[trigger] r.oneway_spec().compute_spec(i, input) == B::encrypt_of(
                    xor_seq(secret@, input),
                    ctr_block(B::block_len(), i as u64),
                ),
    {
        PublicKey::new(BlockOneWay::new(secret), password)
    }
}

/// Hash-chain keys over software AES-128.
pub type Aes128SafeBuilder = BlockBuilder<Aes128Safe>;

/// Hash-chain keys over hardware-accelerated AES-128.
pub type Aes128NiBuilder = BlockBuilder<Aes128Ni>;

} // verus!
