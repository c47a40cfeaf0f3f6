//! Protocol tests for the block-cipher-backed hash-chain engine, and
//! known-answer tests for the two AES-128 implementations.

use chainauth::base::State;
use chainauth::cipher::{Aes128Ni, Aes128Safe, Aes128NiBuilder, Aes128SafeBuilder, BlockCipher};

#[test]
fn cipher_normal_protocol() {
    let secret = b"YELLOW SUBMARINE".to_vec();
    let mut private = Aes128SafeBuilder::new_private(5, secret.clone());

    let p0 = private.get_password().unwrap();
    assert_eq!(private.pop_password(), State::Popped);

    let mut public = Aes128SafeBuilder::new_public(secret, p0);

    let p1 = private.get_password().unwrap();
    assert!(public.verify(&p1).is_ok());
    assert_eq!(private.pop_password(), State::Popped);

    let p2 = private.get_password().unwrap();
    assert!(public.verify(&p2).is_ok());
    assert_eq!(private.pop_password(), State::Popped);

    let p3 = private.get_password().unwrap();
    assert!(public.verify(&p3).is_ok());
    assert_eq!(private.pop_password(), State::Popped);

    let p4 = private.get_password().unwrap();
    assert!(public.verify(&p4).is_ok());
    assert_eq!(private.pop_password(), State::Popped);

    let p5 = private.get_password().unwrap();
    assert!(public.verify(&p5).is_ok());
    assert_eq!(private.pop_password(), State::Empty);
}

#[test]
fn ni_chain_matches_safe_chain() {
    // both AES implementations compute the same function, so matched
    // builders are interchangeable across implementations
    let secret = b"YELLOW SUBMARINE".to_vec();
    let pass = vec![0x5Au8; 16];
    let mut private =
        Aes128NiBuilder::private_from_password(3, secret.clone(), pass.clone());
    let mut private_safe = Aes128SafeBuilder::private_from_password(3, secret.clone(), pass);

    let anchor = private.get_password().unwrap();
    assert_eq!(anchor, private_safe.get_password().unwrap());
    assert_eq!(private.pop_password(), State::Popped);
    assert_eq!(private_safe.pop_password(), State::Popped);

    let mut public = Aes128SafeBuilder::new_public(secret, anchor);
    while private.round() > 0 {
        let reveal = private.get_password().unwrap();
        assert!(public.verify(&reveal).is_ok());
        assert_eq!(private.pop_password(), State::Popped);
    }
    let last = private.get_password().unwrap();
    assert!(public.verify(&last).is_ok());
}

#[test]
fn aes128_safe_known_answer() {
    // FIPS-197 appendix C.1
    let key: Vec<u8> = (0x00u8..=0x0f).collect();
    let plain: Vec<u8> = vec![
        0x00, 0x11, 0x22, 0x33, 0x44, 0x55, 0x66, 0x77, 0x88, 0x99, 0xaa, 0xbb, 0xcc, 0xdd,
        0xee, 0xff,
    ];
    let expected: Vec<u8> = vec![
        0x69, 0xc4, 0xe0, 0xd8, 0x6a, 0x7b, 0x04, 0x30, 0xd8, 0xcd, 0xb7, 0x80, 0x70, 0xb4,
        0xc5, 0x5a,
    ];
    assert_eq!(Aes128Safe::encrypt(&key, &plain), expected);
}

#[test]
fn aes128_ni_known_answer() {
    let key: Vec<u8> = (0x00u8..=0x0f).collect();
    let plain: Vec<u8> = vec![
        0x00, 0x11, 0x22, 0x33, 0x44, 0x55, 0x66, 0x77, 0x88, 0x99, 0xaa, 0xbb, 0xcc, 0xdd,
        0xee, 0xff,
    ];
    let expected: Vec<u8> = vec![
        0x69, 0xc4, 0xe0, 0xd8, 0x6a, 0x7b, 0x04, 0x30, 0xd8, 0xcd, 0xb7, 0x80, 0x70, 0xb4,
        0xc5, 0x5a,
    ];
    assert_eq!(Aes128Ni::encrypt(&key, &plain), expected);
}

#[test]
fn cipher_chain_rejects_out_of_order() {
    let secret = vec![0x11u8; 16];
    let pass = vec![0x22u8; 16];
    let mut private = Aes128SafeBuilder::private_from_password(2, secret.clone(), pass);
    let mut passwords = Vec::new();
    loop {
        passwords.push(private.get_password().unwrap());
        if private.pop_password() == State::Empty {
            break;
        }
    }
    passwords.reverse();

    let mut public = Aes128SafeBuilder::new_public(secret, passwords[2].clone());
    assert!(public.verify(&passwords[0]).is_err());
    assert!(public.verify(&passwords[1]).is_ok());
    assert!(public.verify(&passwords[1]).is_err());
    assert!(public.verify(&passwords[0]).is_ok());
}
