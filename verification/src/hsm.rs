//! Hardware-module session provider: Ed25519 signing with a private key
//! that never leaves a remote device.
//!
//! The transport and encryption protocol of the device is opaque to the
//! library. The unverified shell owns the wire: it performs the
//! authenticated handshake and the per-request round trips, holds the
//! live channel inside a mutual-exclusion lock shared by every signer,
//! and hands each outcome in as a plain value. This module holds every
//! decision made on those outcomes: which outcomes establish a session,
//! which key records are acceptable for signing, and how transport and
//! device failures map into the error taxonomy.

use vstd::prelude::*;

use crate::ed25519::{PublicKey, Signature};
use crate::error::Error;

verus! {

/// Identifier of a key slot inside the hardware module.
pub type KeyId = u16;

/// Why a remote request produced no usable answer: the transport failed,
/// or the device itself reported an error. Callers of the library see
/// both as `ProviderError`.
#[derive(Clone, Copy, Debug, PartialEq, Eq, Structural)]
pub enum HsmFailure {
    Transport,
    Device,
}

/// The algorithm tag the device stores with a public-key record.
#[derive(Clone, Copy, Debug, PartialEq, Eq, Structural)]
pub enum HsmAlgorithm {
    Ed25519,
    EcdsaP256,
    Other,
}

/// A public-key record fetched from the device: the stored algorithm
/// tag and the raw key bytes.
pub struct HsmPublicKeyRecord {
    pub algorithm: HsmAlgorithm,
    pub bytes: Vec<u8>,
}

/// End-to-end encrypted session with the hardware module, as the
/// library sees it once the shell's handshake outcome has been
/// accepted. All signers constructed against one session share the
/// shell's single locked channel; at most one request is in flight per
/// session at a time.
pub struct YubiHSMSession {
    auth_key_id: KeyId,
}

impl YubiHSMSession {
    /// The authentication key the session was established under.
    pub closed spec fn auth_key_spec(self) -> KeyId {
        self.auth_key_id
    }

    /// Accept or refuse the outcome of the shell's authenticated
    /// handshake under authentication key `auth_key_id`. A failure at
    /// the transport or authentication layer surfaces as
    /// `ProviderError`; no session value exists after a refusal.
    pub fn new(auth_key_id: KeyId, handshake: Result<(), HsmFailure>) -> (r: Result<
        YubiHSMSession,
        Error,
    >)
        ensures
            r is Ok <==> handshake is Ok,
            r matches Ok(session) ==> session.auth_key_spec() == auth_key_id,
            r matches Err(e) ==> e == Error::ProviderError,
    {
        match handshake {
            Ok(_) => Ok(YubiHSMSession { auth_key_id }),
            Err(_) => Err(Error::ProviderError),
        }
    }

    /// Create an Ed25519 signer which uses this session, probing the key
    /// slot once with the fetched public-key record.
    pub fn ed25519_signer(
        &self,
        signing_key_id: KeyId,
        probe: Result<HsmPublicKeyRecord, HsmFailure>,
    ) -> (r: Result<YubiHSMSigner, Error>)
        ensures
            r is Ok <==> (probe matches Ok(record) && record.algorithm == HsmAlgorithm::Ed25519
                && record.bytes@.len() == 32),
            r matches Ok(signer) ==> signer.key_id_spec() == signing_key_id,
            probe is Err ==> (r matches Err(e) && e == Error::ProviderError),
            (probe matches Ok(record) && record.algorithm != HsmAlgorithm::Ed25519) ==> (
            r matches Err(e) && e == Error::InvalidKey),
            (probe matches Ok(record) && record.algorithm == HsmAlgorithm::Ed25519
                && record.bytes@.len() != 32) ==> (r matches Err(e) && e == Error::InvalidKey),
    {
        YubiHSMSigner::new(self, signing_key_id, probe)
    }
}

/// Ed25519 signature provider bound to one key slot of the hardware
/// module. The private key never leaves the device; the signer only
/// decides on fetched records and returned signature bytes.
pub struct YubiHSMSigner {
    signing_key_id: KeyId,
}

impl YubiHSMSigner {
    /// The key slot this signer is bound to.
    pub closed spec fn key_id_spec(self) -> KeyId {
        self.signing_key_id
    }

    /// The key slot to address sign and public-key requests to.
    pub fn key_id(&self) -> (r: KeyId)
        ensures
            r == self.key_id_spec(),
    {
        self.signing_key_id
    }

    /// Create a signer bound to `signing_key_id`, failing fast on the
    /// probe of that slot: the fetched record must carry a 32-byte key
    /// whose stored algorithm tag is Ed25519, so a label pointing at a
    /// key of the wrong type is refused with `InvalidKey` and no signer
    /// exists to ever issue a sign request against that slot.
    pub fn new(
        session: &YubiHSMSession,
        signing_key_id: KeyId,
        probe: Result<HsmPublicKeyRecord, HsmFailure>,
    ) -> (r: Result<YubiHSMSigner, Error>)
        ensures
            r is Ok <==> (probe matches Ok(record) && record.algorithm == HsmAlgorithm::Ed25519
                && record.bytes@.len() == 32),
            r matches Ok(signer) ==> signer.key_id_spec() == signing_key_id,
            probe is Err ==> (r matches Err(e) && e == Error::ProviderError),
            (probe matches Ok(record) && record.algorithm != HsmAlgorithm::Ed25519) ==> (
            r matches Err(e) && e == Error::InvalidKey),
            (probe matches Ok(record) && record.algorithm == HsmAlgorithm::Ed25519
                && record.bytes@.len() != 32) ==> (r matches Err(e) && e == Error::InvalidKey),
    {
        let signer = YubiHSMSigner { signing_key_id };
        match signer.public_key(probe) {
            Ok(_) => Ok(signer),
            Err(e) => Err(e),
        }
    }

    /// Decide on a public-key record fetched from this signer's slot:
    /// a transport or device failure surfaces as `ProviderError`, a
    /// stored algorithm tag other than Ed25519 is rejected with
    /// `InvalidKey` in defense against a slot holding the wrong key
    /// type, and anything but a 32-byte key is likewise refused.
    pub fn public_key(&self, response: Result<HsmPublicKeyRecord, HsmFailure>) -> (r: Result<
        PublicKey,
        Error,
    >)
        ensures
            r is Ok <==> (response matches Ok(record) && record.algorithm == HsmAlgorithm::Ed25519
                && record.bytes@.len() == 32),
            response matches Ok(record) ==> (r matches Ok(pk) ==> pk@ == record.bytes@),
            response is Err ==> (r matches Err(e) && e == Error::ProviderError),
            (response matches Ok(record) && record.algorithm != HsmAlgorithm::Ed25519) ==> (
            r matches Err(e) && e == Error::InvalidKey),
            (response matches Ok(record) && record.algorithm == HsmAlgorithm::Ed25519
                && record.bytes@.len() != 32) ==> (r matches Err(e) && e == Error::InvalidKey),
    {
        match response {
            Ok(record) => {
                if !matches!(record.algorithm, HsmAlgorithm::Ed25519) {
                    return Err(Error::InvalidKey);
                }
                match PublicKey::from_bytes(record.bytes.as_slice()) {
                    Some(pk) => Ok(pk),
                    None => Err(Error::InvalidKey),
                }
            }
            Err(_) => Err(Error::ProviderError),
        }
    }

    /// Decide on the bytes the device returned for one sign request
    /// issued under the session lock: a transport or device failure
    /// surfaces as `ProviderError`, and so does a response that is not
    /// a 64-byte Ed25519 signature, since a well-behaved device never
    /// produces one.
    pub fn sign(&self, response: Result<Vec<u8>, HsmFailure>) -> (r: Result<Signature, Error>)
        ensures
            r is Ok <==> (response matches Ok(bytes) && bytes@.len() == 64),
            response matches Ok(bytes) ==> (r matches Ok(sig) ==> sig@ == bytes@),
            r matches Err(e) ==> e == Error::ProviderError,
    {
        match response {
            Ok(bytes) => {
                match Signature::from_bytes(bytes.as_slice()) {
                    Some(sig) => Ok(sig),
                    None => Err(Error::ProviderError),
                }
            }
            Err(_) => Err(Error::ProviderError),
        }
    }
}

} // verus!
