//! Challenge/response authentication over pluggable cryptographic primitives.
//!
//! Two independent protocol engines are provided:
//!
//! * [`base`] (and its hash-specialised sibling [`hash`]): a Lamport-style
//!   hash-chain one-time-password protocol, generic over a [`base::OneWay`]
//!   function. A prover reveals chain elements from the most-derived end
//!   backward; a verifier checks each reveal with one forward application.
//! * [`commitment`]: a commitment-based challenge/response protocol, generic
//!   over a [`commitment::Commitment`] scheme, running one round at a time.
//!
//! Both engines keep O(1) verifier state and never store a reusable secret.
//! Concrete primitives (SHA-256, AES-128, Ed25519, randomness) sit behind
//! narrow trusted wrappers in [`primitive`]; every round-bookkeeping and
//! comparison decision above them is verified.

pub mod base;
pub mod bytes;
pub mod cipher;
pub mod commitment;
pub mod hash;
pub mod primitive;
