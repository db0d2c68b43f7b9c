use signatory::ed25519::{Ed25519Signer, Seed};
use signatory::hsm::{
    HsmAlgorithm, HsmFailure, HsmPublicKeyRecord, KeyId, YubiHSMSession, YubiHSMSigner,
};
use signatory::Error;

use ed25519_dalek::Verifier;

/// Default authentication key identifier
const DEFAULT_AUTH_KEY_ID: KeyId = 1;

/// Key ID to use for test key
const TEST_SIGNING_KEY_ID: KeyId = 123;

/// Example message to sign
const TEST_MESSAGE: &[u8] = b"The Edwards-curve Digital Signature Algorithm (EdDSA) is a \
        variant of Schnorr's signature system with (possibly twisted) Edwards curves.";

/// Stands in for the device's key slot: a software Ed25519 key whose
/// public key and signatures are handed back as the remote responses.
fn device_key() -> Ed25519Signer {
    let seed_bytes: [u8; 32] = [
        0x42, 0x11, 0x5e, 0x09, 0x7c, 0x30, 0xa8, 0x1d, 0x6f, 0xb4, 0x2d, 0x90, 0x01, 0xee,
        0x73, 0x2c, 0x88, 0x5a, 0x33, 0x4f, 0xd6, 0x62, 0x17, 0x8b, 0x05, 0xc9, 0xe1, 0x74,
        0xaa, 0x3d, 0x5b, 0x96,
    ];
    Ed25519Signer::from_seed(Seed::from_bytes(&seed_bytes).unwrap())
}

fn ed25519_record(signer: &Ed25519Signer) -> HsmPublicKeyRecord {
    HsmPublicKeyRecord {
        algorithm: HsmAlgorithm::Ed25519,
        bytes: signer.public_key().unwrap().as_bytes().to_vec(),
    }
}

#[test]
fn generates_signature_verifiable_by_dalek() {
    let key = device_key();

    let session = YubiHSMSession::new(DEFAULT_AUTH_KEY_ID, Ok(())).unwrap();
    let signer = session
        .ed25519_signer(TEST_SIGNING_KEY_ID, Ok(ed25519_record(&key)))
        .unwrap();

    let device_signature = key.sign(TEST_MESSAGE).unwrap();
    let signature = signer.sign(Ok(device_signature.as_bytes().to_vec())).unwrap();

    let public_key = ed25519_dalek::VerifyingKey::from_bytes(
        &<[u8; 32]>::try_from(signer.public_key(Ok(ed25519_record(&key))).unwrap().as_bytes())
            .unwrap(),
    )
    .unwrap();

    assert!(
        public_key
            .verify(
                TEST_MESSAGE,
                &ed25519_dalek::Signature::from_bytes(
                    &<[u8; 64]>::try_from(signature.as_bytes()).unwrap()
                ),
            )
            .is_ok(),
        "Ed25519 signature verification failed!"
    );
}

#[test]
fn handshake_failure_is_provider_error() {
    assert!(matches!(
        YubiHSMSession::new(DEFAULT_AUTH_KEY_ID, Err(HsmFailure::Transport)),
        Err(Error::ProviderError)
    ));
    assert!(matches!(
        YubiHSMSession::new(DEFAULT_AUTH_KEY_ID, Err(HsmFailure::Device)),
        Err(Error::ProviderError)
    ));
}

#[test]
fn wrong_algorithm_slot_is_invalid_key() {
    let key = device_key();
    let session = YubiHSMSession::new(DEFAULT_AUTH_KEY_ID, Ok(())).unwrap();

    let wrong_record = HsmPublicKeyRecord {
        algorithm: HsmAlgorithm::EcdsaP256,
        bytes: key.public_key().unwrap().as_bytes().to_vec(),
    };
    assert!(matches!(
        session.ed25519_signer(TEST_SIGNING_KEY_ID, Ok(wrong_record)),
        Err(Error::InvalidKey)
    ));

    let other_record = HsmPublicKeyRecord {
        algorithm: HsmAlgorithm::Other,
        bytes: key.public_key().unwrap().as_bytes().to_vec(),
    };
    assert!(matches!(
        YubiHSMSigner::new(&session, TEST_SIGNING_KEY_ID, Ok(other_record)),
        Err(Error::InvalidKey)
    ));
}

#[test]
fn probe_failure_is_provider_error() {
    let session = YubiHSMSession::new(DEFAULT_AUTH_KEY_ID, Ok(())).unwrap();
    assert!(matches!(
        session.ed25519_signer(TEST_SIGNING_KEY_ID, Err(HsmFailure::Transport)),
        Err(Error::ProviderError)
    ));
}

#[test]
fn malformed_key_record_is_invalid_key() {
    let session = YubiHSMSession::new(DEFAULT_AUTH_KEY_ID, Ok(())).unwrap();
    let short_record = HsmPublicKeyRecord {
        algorithm: HsmAlgorithm::Ed25519,
        bytes: vec![0u8; 31],
    };
    assert!(matches!(
        session.ed25519_signer(TEST_SIGNING_KEY_ID, Ok(short_record)),
        Err(Error::InvalidKey)
    ));
}

#[test]
fn sign_failures_are_provider_errors() {
    let key = device_key();
    let session = YubiHSMSession::new(DEFAULT_AUTH_KEY_ID, Ok(())).unwrap();
    let signer = session
        .ed25519_signer(TEST_SIGNING_KEY_ID, Ok(ed25519_record(&key)))
        .unwrap();

    assert!(matches!(
        signer.sign(Err(HsmFailure::Device)),
        Err(Error::ProviderError)
    ));
    assert!(matches!(
        signer.sign(Ok(vec![0u8; 63])),
        Err(Error::ProviderError)
    ));
}
