//! The commitment-based challenge/response engine, generic over a
//! commitment scheme.
//!
//! One round at a time: the prover holds one secret element, the verifier
//! holds its commitment (delivered out of band, like the hash-chain anchor).
//! A round is reveal → verify; then both sides advance, the prover to a
//! fresh, statistically independent secret — successive secrets have no
//! derivation relationship, unlike the hash chain. The verifier's `advance`
//! deliberately performs no check of the new commitment's authenticity: the
//! channel carrying it is assumed authenticated by means outside this
//! engine.

pub mod aes;
pub mod ed25519;
pub mod hash;

use vstd::prelude::*;

use crate::bytes::clone_bytes;

verus! {

/// A commitment scheme over byte-string elements: `generate` draws a fresh
/// secret, `commit` binds to it deterministically (`commit_of` is its
/// mathematical value), and `verify` recomputes the commitment of a
/// candidate reveal and compares, in constant time for byte-backed schemes.
pub trait Commitment: Sized {
    /// The size of a secret (private) element in bytes.
    spec fn secret_len(&self) -> nat;

    /// The value `commit` returns for a secret `el`.
    spec fn commit_of(&self, el: Seq<u8>) -> Seq<u8>;

    /// A fresh secret element from cryptographically secure randomness;
    /// nothing relates it to any earlier element.
    fn generate(&self) -> (r: Vec<u8>)
        ensures
            r@.len() == self.secret_len(),
    ;

    /// The public commitment to `el`.
    fn commit(&self, el: &Vec<u8>) -> (r: Vec<u8>)
        requires
            el@.len() == self.secret_len(),
        ensures
            r@ == self.commit_of(el@),
    ;

    /// Whether `reveal` is the secret behind `commitment`: true exactly when
    /// recomputing the commitment of `reveal` gives `commitment`.
    fn verify(&self, commitment: &Vec<u8>, reveal: &Vec<u8>) -> (r: bool)
        requires
            reveal@.len() == self.secret_len(),
        ensures
            r == (self.commit_of(reveal@) == commitment@),
    ;
}

/// The prover's side: the scheme and exactly one current secret element.
pub struct PrivateKey<C: Commitment> {
    commit: C,
    private: Vec<u8>,
}

impl<C: Commitment> PrivateKey<C> {
    /// The commitment scheme in use.
    pub closed spec fn scheme(&self) -> C {
        self.commit
    }

    /// The current secret element.
    pub closed spec fn secret(&self) -> Seq<u8> {
        self.private@
    }

    /// The one invariant: the secret fills exactly one element.
    pub open spec fn wf(&self) -> bool {
        self.secret().len() == self.scheme().secret_len()
    }

    /// A prover with a freshly generated first secret.
    pub fn new(commit: C) -> (r: Self)
        ensures
            r.wf(),
            r.scheme() == commit,
    {
        let private = commit.generate();
        Self { commit, private }
    }

    /// The commitment to the current secret: what the verifier is given to
    /// anchor the round.
    pub fn public(&self) -> (r: Vec<u8>)
        requires
            self.wf(),
        ensures
            r@ == self.scheme().commit_of(self.secret()),
    {
        self.commit.commit(&self.private)
    }

    /// The reveal: a copy of the current secret, unchanged.
    pub fn private(&self) -> (r: Vec<u8>)
        requires
            self.wf(),
        ensures
            r@ == self.secret(),
    {
        clone_bytes(&self.private)
    }

    /// Discards the current secret for a fresh, independent one; the scheme
    /// stays, and nothing relates the new secret to the old.
    pub fn advance(&mut self)
        requires
            old(self).wf(),
        ensures
            final(self).wf(),
            final(self).scheme() == old(self).scheme(),
    {
        let private = self.commit.generate();
        self.private = private;
    }
}

/// The verifier's side: the scheme and the one commitment it trusts.
pub struct PublicKey<C: Commitment> {
    commit: C,
    public: Vec<u8>,
}

impl<C: Commitment> PublicKey<C> {
    /// The commitment scheme in use.
    pub closed spec fn scheme(&self) -> C {
        self.commit
    }

    /// The commitment currently trusted.
    pub closed spec fn commitment(&self) -> Seq<u8> {
        self.public@
    }

    /// A verifier anchored at `public`, the prover's initial commitment,
    /// delivered over an already-authenticated channel.
    pub fn new(commit: C, public: Vec<u8>) -> (r: Self)
        ensures
            r.scheme() == commit,
            r.commitment() == public@,
    {
        Self { commit, public }
    }

    /// Whether `private` is the secret behind the trusted commitment. A pure
    /// predicate: no mutation either way.
    pub fn verify(&self, private: &Vec<u8>) -> (r: bool)
        requires
            private@.len() == self.scheme().secret_len(),
        ensures
            r == (self.scheme().commit_of(private@) == self.commitment()),
    {
        self.commit.verify(&self.public, private)
    }

    /// Unconditionally replaces the trusted commitment with a caller-supplied
    /// one. No authenticity check is performed here, by design; see the
    /// module notes.
    pub fn advance(&mut self, new_public: Vec<u8>)
        ensures
            final(self).scheme() == old(self).scheme(),
            final(self).commitment() == new_public@,
    {
        self.public = new_public;
    }
}

/// The pair is anchored when the verifier runs the prover's scheme and
/// trusts exactly the commitment to the prover's current secret — the state
/// `PublicKey::new(scheme, prover.public())` establishes and each
/// `advance()` / `advance(prover.public())` pair re-establishes.
pub open spec fn anchored<C: Commitment>(prover: PrivateKey<C>, verifier: PublicKey<C>) -> bool {
    &&& prover.wf()
    &&& verifier.scheme() == prover.scheme()
    &&& verifier.commitment() == prover.scheme().commit_of(prover.secret())
}

/// Commitment round trip: an anchored verifier accepts the prover's reveal —
/// recomputing the commitment of the revealed secret under the verifier's
/// own scheme gives back the trusted commitment, which is the acceptance
/// condition `verify` decides.
pub proof fn lemma_commit_round_trip<C: Commitment>(
    prover: PrivateKey<C>,
    verifier: PublicKey<C>,
    reveal: Seq<u8>,
)
    requires
        anchored(prover, verifier),
        reveal == prover.secret(),
    ensures
        reveal.len() == verifier.scheme().secret_len(),
        verifier.scheme().commit_of(reveal) == verifier.commitment(),
{
}

} // verus!
