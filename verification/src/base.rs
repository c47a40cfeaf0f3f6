//! The hash-chain one-time-password engine, generic over a one-way function.
//!
//! A prover builds a chain `passwords[0..=rounds]` from a secret seed:
//! `passwords[k] == oneway(rounds + 1 - k, passwords[k - 1])`, so the highest
//! counter is applied first. The prover reveals the chain from the
//! most-derived end (`passwords[rounds]`) backward; a verifier holding one
//! accepted element checks the next reveal with a single forward application
//! of the one-way function, in constant-time comparison, and never learns
//! anything that yields a future reveal.

use vstd::prelude::*;

use crate::bytes::clone_bytes;
use crate::primitive::{fixed_time_eq, random_bytes};

verus! {

/// What `pop_password` reports: more passwords remain, or the chain is spent.
#[derive(Debug, Clone, Copy, PartialEq, Eq, Structural)]
pub enum State {
    Popped,
    Empty,
}

/// The presented password does not verify against the stored anchor for the
/// current round. Carries no detail beyond "mismatch", by design.
#[derive(Debug, Clone, Copy)]
pub struct AuthError;

/// A deterministic one-way transform on fixed-size byte blocks, domain
/// separated by a round counter. `compute_spec` is its mathematical value;
/// `compute` must return exactly that, so distinct calls on the same input
/// agree and the chain below is well defined.
pub trait OneWay: Sized {
    /// The block size this instance works on; inputs and outputs both have it.
    spec fn block_size(&self) -> nat;

    /// Construction-time consistency of the instance (key sizes and the
    /// like); everything below requires it.
    spec fn wf(&self) -> bool;

    /// The value `compute` returns for round `i` and block `input`.
    spec fn compute_spec(&self, i: nat, input: Seq<u8>) -> Seq<u8>;

    /// The block size, for executable callers.
    fn block_len(&self) -> (n: usize)
        ensures
            n as nat == self.block_size(),
    ;

    /// Overwrites `output` with the one-way image of `input` at round `i`.
    fn compute(&self, i: usize, input: &Vec<u8>, output: &mut Vec<u8>)
        requires
            self.wf(),
            input@.len() == self.block_size(),
        ensures
            final(output)@ == self.compute_spec(i as nat, input@),
            final(output)@.len() == self.block_size(),
    ;
}

/// Chain element `k` of the chain grown from `seed` for `rounds` rounds:
/// element 0 is the seed, and element `k` is the one-way image of element
/// `k - 1` at counter `rounds + 1 - k` (high counters applied first).
pub open spec fn chain_at<F: OneWay>(oneway: F, rounds: nat, seed: Seq<u8>, k: nat) -> Seq<u8>
    recommends
        k <= rounds,
    decreases k,
{
    if k == 0 {
        seed
    } else {
        oneway.compute_spec((rounds + 1 - k) as nat, chain_at(oneway, rounds, seed, (k - 1) as nat))
    }
}

/// The prover's side: the whole chain, consumed from the most-derived end
/// backward as the round counter decreases from `rounds` to 0.
pub struct PrivateKey<F: OneWay> {
    round: usize,
    passwords: Vec<Vec<u8>>,
    oneway: F,
    rounds: Ghost<nat>,
}

impl<F: OneWay> PrivateKey<F> {
    /// The one-way instance the chain was built over.
    pub closed spec fn oneway_spec(&self) -> F {
        self.oneway
    }

    /// The current round: the index of the next password to reveal.
    pub closed spec fn round_spec(&self) -> nat {
        self.round as nat
    }

    /// The number of rounds the chain was built for.
    pub closed spec fn total_rounds(&self) -> nat {
        self.rounds@
    }

    /// The passwords still held, as byte sequences, seed first.
    pub closed spec fn passwords_view(&self) -> Seq<Seq<u8>> {
        Seq::new(self.passwords@.len() as nat, |i: int| self.passwords@[i]@)
    }

    /// The chain invariant: one password per remaining round plus the seed,
    /// each a block-sized one-way image of its predecessor, with the counter
    /// offsets fixed by the chain the key was built for.
    pub open spec fn wf(&self) -> bool {
        &&& self.oneway_spec().wf()
        &&& self.round_spec() <= self.total_rounds()
        &&& self.passwords_view().len() == self.round_spec() + 1
        &&& forall|k: int|
            0 <= k <= self.round_spec() ==> #[trigger] self.passwords_view()[k] == chain_at(
                self.oneway_spec(),
                self.total_rounds(),
                self.passwords_view()[0],
                k as nat,
            )
        &&& forall|k: int|
            0 <= k <= self.round_spec() ==> (#[trigger] self.passwords_view()[k]).len()
                == self.oneway_spec().block_size()
    }

    /// Builds a prover from a fresh random seed.
    pub fn new(oneway: F, rounds: usize) -> (r: Self)
        requires
            oneway.wf(),
            rounds < usize::MAX,
        ensures
            r.wf(),
            r.oneway_spec() == oneway,
            r.round_spec() == rounds,
            r.total_rounds() == rounds,
    {
        let n = oneway.block_len();
        let pass = random_bytes(n);
        Self::from_password(oneway, rounds, pass)
    }

    /// Builds a prover deterministically from a supplied seed: the whole
    /// chain is laid out, `passwords[k] == chain_at(oneway, rounds, pass, k)`,
    /// and the round counter starts at `rounds`.
    pub fn from_password(oneway: F, rounds: usize, pass: Vec<u8>) -> (r: Self)
        requires
            oneway.wf(),
            rounds < usize::MAX,
            pass@.len() == oneway.block_size(),
        ensures
            r.wf(),
            r.oneway_spec() == oneway,
            r.round_spec() == rounds,
            r.total_rounds() == rounds,
            forall|k: int|
                0 <= k <= rounds ==> #[trigger] r.passwords_view()[k] == chain_at(
                    oneway,
                    rounds as nat,
                    pass@,
                    k as nat,
                ),
    {
        let ghost seed: Seq<u8> = pass@;
        let mut passwords: Vec<Vec<u8>> = Vec::new();
        passwords.push(pass);
        let mut k: usize = 1;
        while k <= rounds
            invariant
                oneway.wf(),
                rounds < usize::MAX,
                1 <= k <= rounds + 1,
                passwords@.len() == k,
                passwords@[0]@ == seed,
                seed.len() == oneway.block_size(),
                forall|j: int|
                    0 <= j < k ==> #[trigger] passwords@[j]@ == chain_at(
                        oneway,
                        rounds as nat,
                        seed,
                        j as nat,
                    ),
                forall|j: int|
                    0 <= j < k ==> (#[trigger] passwords@[j]@).len() == oneway.block_size(),
            decreases rounds + 1 - k,
        {
            let counter = rounds + 1 - k;
            let mut out: Vec<u8> = Vec::new();
            oneway.compute(counter, &passwords[k - 1], &mut out);
            passwords.push(out);
            k = k + 1;
        }
        Self { round: rounds, passwords, oneway, rounds: Ghost(rounds as nat) }
    }

    /// The password for the current round, without mutation. Under the chain
    /// invariant it is always present.
    pub fn get_password(&self) -> (r: Option<Vec<u8>>)
        requires
            self.wf(),
        ensures
            r is Some,
            r matches Some(p) ==> p@ == self.passwords_view()[self.round_spec() as int],
    {
        let p = clone_bytes(&self.passwords[self.round]);
        Some(p)
    }

    /// Discards the most-recently-exposed password and decrements the round
    /// counter, reporting `Popped`; on a spent chain (round 0) it is a no-op
    /// reporting `Empty`, and the round-0 password stays retrievable.
    #[must_use]
    pub fn pop_password(&mut self) -> (r: State)
        requires
            old(self).wf(),
        ensures
            final(self).wf(),
            r == State::Popped <==> old(self).round_spec() > 0,
            old(self).round_spec() > 0 ==> {
                &&& final(self).round_spec() == old(self).round_spec() - 1
                &&& final(self).passwords_view() == old(self).passwords_view().drop_last()
                &&& final(self).oneway_spec() == old(self).oneway_spec()
                &&& final(self).total_rounds() == old(self).total_rounds()
            },
            old(self).round_spec() == 0 ==> *final(self) == *old(self),
    {
        if self.round > 0 {
            self.passwords.pop();
            self.round = self.round - 1;
            proof {
                assert(self.passwords_view() =~= old(self).passwords_view().drop_last());
            }
            State::Popped
        } else {
            State::Empty
        }
    }

    /// The current round counter.
    #[must_use]
    pub fn round(&self) -> (r: usize)
        ensures
            r as nat == self.round_spec(),
    {
        self.round
    }
}

/// The verifier's side: one accepted password and an increasing round
/// counter; O(1) state however long the chain is.
pub struct PublicKey<F: OneWay> {
    round: usize,
    password: Vec<u8>,
    oneway: F,
}

impl<F: OneWay> PublicKey<F> {
    /// The one-way instance verification runs over.
    pub closed spec fn oneway_spec(&self) -> F {
        self.oneway
    }

    /// The round the next reveal will be checked at.
    pub closed spec fn round_spec(&self) -> nat {
        self.round as nat
    }

    /// The last accepted password (initially the out-of-band anchor).
    pub closed spec fn password_spec(&self) -> Seq<u8> {
        self.password@
    }

    /// The verifier's invariant: a well-formed one-way instance with a
    /// positive block size (degenerate empty blocks are rejected at
    /// construction), a block-sized stored password, and a round counter
    /// that started at 1.
    pub open spec fn wf(&self) -> bool {
        &&& self.oneway_spec().wf()
        &&& self.oneway_spec().block_size() > 0
        &&& self.password_spec().len() == self.oneway_spec().block_size()
        &&& self.round_spec() >= 1
    }

    /// Stores the trust anchor (normally `passwords[rounds]` of the matching
    /// prover, delivered over an already-authenticated channel) and starts
    /// at round 1.
    pub fn new(oneway: F, password: Vec<u8>) -> (r: Self)
        requires
            oneway.wf(),
            oneway.block_size() > 0,
            password@.len() == oneway.block_size(),
        ensures
            r.wf(),
            r.oneway_spec() == oneway,
            r.round_spec() == 1,
            r.password_spec() == password@,
    {
        Self { round: 1, password, oneway }
    }

    /// Checks a candidate without mutating anything: accepted exactly when
    /// its one-way image at the current round equals the stored password,
    /// compared in constant time.
    pub fn verify_dry(&self, password: &Vec<u8>) -> (r: Result<(), AuthError>)
        requires
            self.wf(),
            password@.len() == self.oneway_spec().block_size(),
        ensures
            r is Ok <==> self.oneway_spec().compute_spec(self.round_spec(), password@)
                == self.password_spec(),
    {
        let mut out: Vec<u8> = Vec::new();
        self.oneway.compute(self.round, password, &mut out);
        if fixed_time_eq(&out, &self.password) {
            Ok(())
        } else {
            Err(AuthError)
        }
    }

    /// Checks a candidate as `verify_dry` does; on acceptance the candidate
    /// becomes the stored password and the round increments, on rejection
    /// the verifier is unchanged.
    pub fn verify(&mut self, password: &Vec<u8>) -> (r: Result<(), AuthError>)
        requires
            old(self).wf(),
            password@.len() == old(self).oneway_spec().block_size(),
            old(self).round_spec() < usize::MAX,
        ensures
            final(self).wf(),
            r is Ok <==> old(self).oneway_spec().compute_spec(
                old(self).round_spec(),
                password@,
            ) == old(self).password_spec(),
            r is Ok ==> {
                &&& final(self).round_spec() == old(self).round_spec() + 1
                &&& final(self).password_spec() == password@
                &&& final(self).oneway_spec() == old(self).oneway_spec()
            },
            !(r is Ok) ==> *final(self) == *old(self),
    {
        match self.verify_dry(password) {
            Ok(()) => {
                self.password = clone_bytes(password);
                self.round = self.round + 1;
                Ok(())
            },
            Err(err) => Err(err),
        }
    }
}

/// Two one-way instances that agree on `compute_spec` grow identical chains:
/// what matters to the protocol is the function, not which side's instance
/// computes it — prover and verifier each own their own.
pub proof fn lemma_chain_agree<F: OneWay>(a: F, b: F, rounds: nat, seed: Seq<u8>, k: nat)
    requires
        forall|i: nat, input: Seq<u8>| #[trigger] a.compute_spec(i, input) == b.compute_spec(
            i,
            input,
        ),
    ensures
        chain_at(a, rounds, seed, k) == chain_at(b, rounds, seed, k),
    decreases k,
{
    if k > 0 {
        lemma_chain_agree(a, b, rounds, seed, (k - 1) as nat);
    }
}

/// The verifier at round `j` is in lockstep with the chain grown from `seed`
/// when it stores chain element `rounds + 1 - j`: exactly the position from
/// which one forward application checks the prover's round-`j` reveal.
pub open spec fn in_lockstep<F: OneWay>(pk: PublicKey<F>, rounds: nat, seed: Seq<u8>) -> bool {
    &&& pk.wf()
    &&& pk.round_spec() <= rounds
    &&& pk.password_spec() == chain_at(
        pk.oneway_spec(),
        rounds,
        seed,
        (rounds + 1 - pk.round_spec()) as nat,
    )
}

/// Round lockstep, acceptance: a verifier in lockstep accepts the next chain
/// element down — the candidate `verify` receives from a matching prover —
/// because its one-way image at the current round is the stored password.
pub proof fn lemma_lockstep_accepts<F: OneWay>(
    pk: PublicKey<F>,
    rounds: nat,
    seed: Seq<u8>,
    candidate: Seq<u8>,
)
    requires
        in_lockstep(pk, rounds, seed),
        candidate == chain_at(pk.oneway_spec(), rounds, seed, (rounds - pk.round_spec()) as nat),
    ensures
        pk.oneway_spec().compute_spec(pk.round_spec(), candidate) == pk.password_spec(),
{
    let k = (rounds + 1 - pk.round_spec()) as nat;
    assert(chain_at(pk.oneway_spec(), rounds, seed, k) == pk.oneway_spec().compute_spec(
        (rounds + 1 - k) as nat,
        chain_at(pk.oneway_spec(), rounds, seed, (k - 1) as nat),
    ));
}

/// Round lockstep, preservation: after a successful `verify` of that
/// candidate the verifier — round incremented, candidate stored — is in
/// lockstep again, one round further along the chain.
pub proof fn lemma_lockstep_preserved<F: OneWay>(
    pre: PublicKey<F>,
    post: PublicKey<F>,
    rounds: nat,
    seed: Seq<u8>,
)
    requires
        in_lockstep(pre, rounds, seed),
        pre.round_spec() < rounds,
        post.wf(),
        post.oneway_spec() == pre.oneway_spec(),
        post.round_spec() == pre.round_spec() + 1,
        post.password_spec() == chain_at(
            pre.oneway_spec(),
            rounds,
            seed,
            (rounds - pre.round_spec()) as nat,
        ),
    ensures
        in_lockstep(post, rounds, seed),
{
}

} // verus!
