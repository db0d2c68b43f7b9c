use signatory::ed25519::{Ed25519Signer, Ed25519Verifier, PublicKey, Seed, Signature};
use signatory::Error;

/// The 32-byte raw seed of the concrete scenario.
const SCENARIO_SEED: [u8; 32] = [
    0x13, 0x1c, 0xa4, 0xe5, 0x81, 0x12, 0x67, 0xfa, 0x90, 0xfc, 0x63, 0x1d, 0x62, 0x98, 0xc2,
    0xd7, 0xa4, 0xec, 0xcc, 0xc4, 0x5c, 0xc6, 0x0d, 0x37, 0x8e, 0x06, 0x60, 0xb6, 0x1f, 0x82,
    0xfe, 0x8d,
];

fn scenario_signer() -> Ed25519Signer {
    let seed = Seed::from_bytes(&SCENARIO_SEED).expect("32-byte seed must be accepted");
    Ed25519Signer::from_seed(seed)
}

#[test]
fn seed_rejects_wrong_length() {
    assert!(Seed::from_bytes(&[0u8; 31]).is_none());
    assert!(Seed::from_bytes(&[0u8; 33]).is_none());
    assert!(Seed::from_bytes(&[]).is_none());
    assert!(Seed::from_bytes(&[0u8; 32]).is_some());
}

#[test]
fn sign_then_verify_hello_succeeds() {
    let signer = scenario_signer();
    let public_key = signer.public_key().unwrap();
    let signature = signer.sign(b"hello").unwrap();
    assert!(Ed25519Verifier::verify(&public_key, b"hello", &signature).is_ok());
    // The derived key is not the seed handed back unchanged.
    assert_ne!(public_key.as_bytes(), &SCENARIO_SEED[..]);
}

#[test]
fn tweaked_last_byte_fails_verification() {
    let signer = scenario_signer();
    let public_key = signer.public_key().unwrap();
    let signature = signer.sign(b"hello").unwrap();

    let mut tweaked = signature.as_bytes().to_vec();
    let last = tweaked.len() - 1;
    tweaked[last] ^= 0x2a;
    let tweaked_signature = Signature::from_bytes(&tweaked).unwrap();

    let result = Ed25519Verifier::verify(&public_key, b"hello", &tweaked_signature);
    assert_eq!(result.unwrap_err(), Error::SignatureInvalid);
}

#[test]
fn every_single_bit_flip_fails_verification() {
    let signer = scenario_signer();
    let public_key = signer.public_key().unwrap();
    let message = b"tamper sensitivity";
    let signature = signer.sign(message).unwrap();
    let bytes = signature.as_bytes().to_vec();

    for byte_index in 0..bytes.len() {
        for bit in 0..8 {
            let mut flipped = bytes.clone();
            flipped[byte_index] ^= 1u8 << bit;
            let flipped_signature = Signature::from_bytes(&flipped).unwrap();
            let result = Ed25519Verifier::verify(&public_key, message, &flipped_signature);
            assert_eq!(result.unwrap_err(), Error::SignatureInvalid);
        }
    }
}

#[test]
fn signing_is_deterministic() {
    let signer = scenario_signer();
    let first = signer.sign(b"hello").unwrap();
    let second = signer.sign(b"hello").unwrap();
    assert_eq!(first.as_bytes(), second.as_bytes());
}

#[test]
fn wrong_key_fails_verification() {
    let signer = scenario_signer();
    let signature = signer.sign(b"hello").unwrap();

    let mut other_seed = SCENARIO_SEED;
    other_seed[0] ^= 0xff;
    let other_signer = Ed25519Signer::from_seed(Seed::from_bytes(&other_seed).unwrap());
    let other_key = other_signer.public_key().unwrap();

    let result = Ed25519Verifier::verify(&other_key, b"hello", &signature);
    assert_eq!(result.unwrap_err(), Error::SignatureInvalid);
}

#[test]
fn from_pkcs8_roundtrip() {
    let rng = ring::rand::SystemRandom::new();
    let document = ring::signature::Ed25519KeyPair::generate_pkcs8(&rng).unwrap();

    let signer = Ed25519Signer::from_pkcs8(document.as_ref()).unwrap();
    let public_key = signer.public_key().unwrap();
    let signature = signer.sign(b"imported key").unwrap();
    assert!(Ed25519Verifier::verify(&public_key, b"imported key", &signature).is_ok());
}

#[test]
fn from_pkcs8_rejects_garbage() {
    let result = Ed25519Signer::from_pkcs8(&[0u8; 48]);
    assert!(matches!(result, Err(Error::KeyInvalid)));
}

#[test]
fn public_key_and_signature_reject_wrong_lengths() {
    assert!(PublicKey::from_bytes(&[7u8; 31]).is_none());
    assert!(PublicKey::from_bytes(&[7u8; 32]).is_some());
    assert!(Signature::from_bytes(&[7u8; 63]).is_none());
    assert!(Signature::from_bytes(&[7u8; 64]).is_some());
}
