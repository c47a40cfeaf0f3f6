//! Protocol tests for the SHA-256-backed hash-chain engine.

use chainauth::hash::{Sha256, Sha256Builder, State};

/// All passwords of a chain with the given seed, indexed by chain position:
/// `passwords[k]` for `k` in `0..=rounds`.
fn chain_passwords(rounds: usize, seed: Vec<u8>) -> Vec<Vec<u8>> {
    let mut private = Sha256Builder::new_private_from_password(rounds, seed);
    let mut rev = Vec::new();
    loop {
        rev.push(private.get_password().unwrap());
        if private.pop_password() == State::Empty {
            break;
        }
    }
    rev.reverse();
    rev
}

#[test]
fn hash_normal_protocol() {
    let mut private = Sha256Builder::new_private(5);

    let p0 = private.get_password().unwrap();
    assert_eq!(private.pop_password(), State::Popped);

    let mut public = Sha256Builder::new_public(p0);

    let p1 = private.get_password().unwrap();
    assert!(public.verify(&p1).is_ok());
    assert_eq!(private.pop_password(), State::Popped);

    let p2 = private.get_password().unwrap();
    assert!(public.verify(&p2).is_ok());
    assert_eq!(private.pop_password(), State::Popped);

    let p3 = private.get_password().unwrap();
    assert!(public.verify(&p3).is_ok());
    assert_eq!(private.pop_password(), State::Popped);

    let p4 = private.get_password().unwrap();
    assert!(public.verify(&p4).is_ok());
    assert_eq!(private.pop_password(), State::Popped);

    let p5 = private.get_password().unwrap();
    assert!(public.verify(&p5).is_ok());
    assert_eq!(private.pop_password(), State::Empty);
}

#[test]
fn chain_length_exactly_rounds_pops() {
    let rounds = 3;
    let mut private = Sha256Builder::new_private_from_password(rounds, vec![7u8; 32]);
    let last = {
        let mut p = Sha256Builder::new_private_from_password(rounds, vec![7u8; 32]);
        while p.round() > 0 {
            assert_eq!(p.pop_password(), State::Popped);
        }
        p.get_password().unwrap()
    };

    for expected_round in (1..=rounds).rev() {
        assert_eq!(private.round(), expected_round);
        assert_eq!(private.pop_password(), State::Popped);
    }
    assert_eq!(private.round(), 0);
    assert_eq!(private.pop_password(), State::Empty);
    // the round-0 password is still retrievable, deterministically
    assert_eq!(private.get_password().unwrap(), last);
    assert_eq!(private.pop_password(), State::Empty);
    assert_eq!(private.get_password().unwrap(), last);
}

#[test]
fn round_lockstep_accepts_in_order_only() {
    let rounds = 4;
    let passwords = chain_passwords(rounds, vec![0x42u8; 32]);
    let mut public = Sha256Builder::new_public(passwords[rounds].clone());

    // reused or out-of-order values are rejected, the exact sequence accepted
    assert!(public.verify(&passwords[rounds]).is_err());
    assert!(public.verify(&passwords[2]).is_err());
    for k in (0..rounds).rev() {
        assert!(public.verify(&passwords[k]).is_ok());
        // replaying the value just accepted fails at the next round
        assert!(public.verify(&passwords[k]).is_err());
    }
}

#[test]
fn rejection_is_non_mutating() {
    let rounds = 2;
    let passwords = chain_passwords(rounds, vec![9u8; 32]);
    let mut public = Sha256Builder::new_public(passwords[2].clone());

    let wrong = vec![0u8; 32];
    assert!(public.verify_dry(&wrong).is_err());
    assert!(public.verify_dry(&passwords[1]).is_ok());
    assert!(public.verify(&wrong).is_err());
    // a failed verify left the stored password and round unchanged
    assert!(public.verify(&passwords[1]).is_ok());
    assert!(public.verify(&passwords[0]).is_ok());
}

#[test]
fn mismatch_position_does_not_matter() {
    let rounds = 1;
    let passwords = chain_passwords(rounds, vec![0x31u8; 32]);
    let mut public = Sha256Builder::new_public(passwords[1].clone());

    let mut first_diff = passwords[0].clone();
    first_diff[0] ^= 0x01;
    let mut last_diff = passwords[0].clone();
    last_diff[31] ^= 0x01;

    // full-block equality decides: a difference in the first byte and one in
    // the last byte are rejected alike, with no state change either way
    assert!(public.verify(&first_diff).is_err());
    assert!(public.verify(&last_diff).is_err());
    assert!(public.verify(&passwords[0]).is_ok());
}

#[test]
fn e2e_sha256_chain_rounds_5() {
    let seed = vec![0xAAu8; 32];
    let passwords = chain_passwords(5, seed.clone());
    assert_eq!(passwords[0], seed);
    assert_eq!(passwords.len(), 6);

    let mut public = Sha256Builder::new_public(passwords[5].clone());
    // out of order: passwords[3] before passwords[4] must be rejected
    assert!(public.verify(&passwords[3]).is_err());
    for k in [4, 3, 2, 1, 0] {
        assert!(public.verify(&passwords[k]).is_ok());
    }
}

#[test]
fn sha256_digest_known_answer() {
    let expected: [u8; 32] = [
        0xba, 0x78, 0x16, 0xbf, 0x8f, 0x01, 0xcf, 0xea, 0x41, 0x41, 0x40, 0xde, 0x5d, 0xae,
        0x22, 0x23, 0xb0, 0x03, 0x61, 0xa3, 0x96, 0x17, 0x7a, 0x9c, 0xb4, 0x10, 0xff, 0x61,
        0xf2, 0x00, 0x15, 0xad,
    ];
    let out = chainauth::hash::Hash::digest(&Sha256, &vec![b'a', b'b', b'c']);
    assert_eq!(out, expected.to_vec());
}

#[test]
fn deterministic_chain_from_same_seed() {
    let a = chain_passwords(3, vec![5u8; 32]);
    let b = chain_passwords(3, vec![5u8; 32]);
    assert_eq!(a, b);
    // and every element is a fresh-looking 32-byte block
    for p in &a {
        assert_eq!(p.len(), 32);
    }
    assert_ne!(a[1], a[0]);
    assert_ne!(a[2], a[1]);
}

#[test]
fn zero_round_chain_is_just_the_seed() {
    let seed = vec![0x77u8; 32];
    let mut private = Sha256Builder::new_private_from_password(0, seed.clone());
    assert_eq!(private.round(), 0);
    assert_eq!(private.get_password().unwrap(), seed);
    assert_eq!(private.pop_password(), State::Empty);
    assert_eq!(private.get_password().unwrap(), seed);
}
