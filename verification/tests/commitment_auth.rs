//! Round-trip and protocol tests for the three commitment backends.

use chainauth::commitment::aes::{Aes128NiEncryptor, Aes128SafeEncryptor};
use chainauth::commitment::ed25519::Ed25519;
use chainauth::commitment::hash::Sha256;
use chainauth::commitment::{Commitment, PrivateKey, PublicKey};

#[test]
fn test_safe_auth() {
    let mut private = PrivateKey::new(Aes128SafeEncryptor);
    let mut public = PublicKey::new(Aes128SafeEncryptor, private.public());

    for _ in 0..10 {
        let reveal = private.private();
        assert!(public.verify(&reveal));

        private.advance();
        public.advance(private.public());
    }
}

#[test]
fn test_ni_auth() {
    let mut private = PrivateKey::new(Aes128NiEncryptor);
    let mut public = PublicKey::new(Aes128NiEncryptor, private.public());

    for _ in 0..10 {
        let reveal = private.private();
        assert!(public.verify(&reveal));

        private.advance();
        public.advance(private.public());
    }
}

#[test]
fn test_sha256_auth() {
    let mut private = PrivateKey::new(Sha256);
    let mut public = PublicKey::new(Sha256, private.public());

    for _ in 0..10 {
        let reveal = private.private();
        assert!(public.verify(&reveal));

        private.advance();
        public.advance(private.public());
    }
}

#[test]
fn test_auth() {
    let mut private = PrivateKey::new(Ed25519);
    let mut public = PublicKey::new(Ed25519, private.public());

    for _ in 0..10 {
        let reveal = private.private();
        assert!(public.verify(&reveal));

        private.advance();
        public.advance(private.public());
    }
}

/// Round trip and rejection for one backend: a fresh secret's commitment
/// verifies against that secret and against no perturbed one.
fn round_trip_many<C: Commitment>(scheme: C, samples: usize) {
    for i in 0..samples {
        let x = scheme.generate();
        let c = scheme.commit(&x);
        assert!(scheme.verify(&c, &x));

        let mut y = x.clone();
        let pos = i % y.len();
        y[pos] ^= 0x01;
        assert!(!scheme.verify(&c, &y));
    }
}

#[test]
fn commitment_round_trip_sha256() {
    round_trip_many(Sha256, 50);
}

#[test]
fn commitment_round_trip_aes_safe() {
    round_trip_many(Aes128SafeEncryptor, 50);
}

#[test]
fn commitment_round_trip_aes_ni() {
    round_trip_many(Aes128NiEncryptor, 50);
}

#[test]
fn commitment_round_trip_ed25519() {
    round_trip_many(Ed25519, 20);
}

#[test]
fn advance_discards_the_old_secret() {
    // after advance the secret is fresh: the old reveal no longer verifies
    // against the new commitment, and the new secret is unrelated to the old
    let mut private = PrivateKey::new(Sha256);
    let old_reveal = private.private();
    private.advance();
    let mut public = PublicKey::new(Sha256, private.public());
    assert!(!public.verify(&old_reveal));
    assert_ne!(old_reveal, private.private());

    public.advance(Sha256.commit(&old_reveal));
    assert!(public.verify(&old_reveal));
}

#[test]
fn e2e_aes128_commitment_fixed_secret() {
    let secret = b"YELLOW SUBMARINE".to_vec();
    let c = Aes128SafeEncryptor.commit(&secret);
    assert_eq!(c.len(), 16);
    assert!(Aes128SafeEncryptor.verify(&c, &secret));

    let mut private = PrivateKey::new(Aes128SafeEncryptor);
    let mut public = PublicKey::new(Aes128SafeEncryptor, private.public());
    for _ in 0..10 {
        let reveal = private.private();
        assert!(public.verify(&reveal));
        assert!(public.verify(&reveal));

        private.advance();
        public.advance(private.public());
    }
}

#[test]
fn ed25519_derivation_known_answer() {
    // RFC 8032, test vector 1
    let secret: Vec<u8> = vec![
        0x9d, 0x61, 0xb1, 0x9d, 0xef, 0xfd, 0x5a, 0x60, 0xba, 0x84, 0x4a, 0xf4, 0x92, 0xec,
        0x2c, 0xc4, 0x44, 0x49, 0xc5, 0x69, 0x7b, 0x32, 0x69, 0x19, 0x70, 0x3b, 0xac, 0x03,
        0x1c, 0xae, 0x7f, 0x60,
    ];
    let expected_public: Vec<u8> = vec![
        0xd7, 0x5a, 0x98, 0x01, 0x82, 0xb1, 0x0a, 0xb7, 0xd5, 0x4b, 0xfe, 0xd3, 0xc9, 0x64,
        0x07, 0x3a, 0x0e, 0xe1, 0x72, 0xf3, 0xda, 0xa6, 0x23, 0x25, 0xaf, 0x02, 0x1a, 0x68,
        0xf7, 0x07, 0x51, 0x1a,
    ];
    assert_eq!(Ed25519.commit(&secret), expected_public);
    assert!(Ed25519.verify(&expected_public, &secret));
}
