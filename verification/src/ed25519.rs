//! Ed25519 value types and the software signature provider backed by the
//! *ring* primitive library.
//!
//! The curve and EdDSA arithmetic is owned by *ring*; this module consumes
//! it through narrow trusted wrappers and re-wraps every output in the
//! library's own byte-validated value types.

use vstd::prelude::*;

use crate::error::Error;
use ring::signature::KeyPair;

verus! {

/// What *ring* computes from a 32-byte Ed25519 seed as the public key.
/// Ed25519 key derivation is a function of the seed alone (RFC 8032).
pub uninterp spec fn ed25519_pub_of(seed: Seq<u8>) -> Seq<u8>;

/// What *ring* computes as the Ed25519 signature of `msg` under the key
/// derived from `seed`. Ed25519 signing is deterministic (RFC 8032), so
/// the signature is a function of the seed and the message alone.
pub uninterp spec fn ed25519_sig_of(seed: Seq<u8>, msg: Seq<u8>) -> Seq<u8>;

/// Whether *ring*'s Ed25519 verification accepts `(key, msg, sig)`.
/// Verification is pure and stateless: the same triple always yields the
/// same accept/reject result.
pub uninterp spec fn ed25519_verifies(key: Seq<u8>, msg: Seq<u8>, sig: Seq<u8>) -> bool;

/// Whether *ring* accepts `der` as a PKCS#8 v2 Ed25519 private-key
/// document. Acceptance is a function of the bytes alone.
pub uninterp spec fn ed25519_pkcs8_ok(der: Seq<u8>) -> bool;

/// The public key *ring* extracts from an accepted PKCS#8 Ed25519
/// document.
pub uninterp spec fn ed25519_pkcs8_pub_of(der: Seq<u8>) -> Seq<u8>;

/// The signature of `msg` under the key held in an accepted PKCS#8
/// Ed25519 document; deterministic as for `ed25519_sig_of`.
pub uninterp spec fn ed25519_pkcs8_sig_of(der: Seq<u8>, msg: Seq<u8>) -> Seq<u8>;

/// Relies on `ring::signature::Ed25519KeyPair::from_seed_unchecked` and
/// `public_key` (via `ring::signature::KeyPair`): a 32-byte seed is always
/// accepted, and the derived public key is the 32-byte RFC 8032 key, a
/// function of the seed alone.
#[verifier::external_body]
fn ring_ed25519_public_key(seed: &[u8]) -> (pk: Vec<u8>)
    requires
        seed@.len() == 32,
    ensures
        pk@ == ed25519_pub_of(seed@),
        pk@.len() == 32,
{
    let keypair = ring::signature::Ed25519KeyPair::from_seed_unchecked(seed).unwrap();
    keypair.public_key().as_ref().to_vec()
}

/// Relies on `ring::signature::Ed25519KeyPair::from_seed_unchecked` and
/// `sign`: deterministic RFC 8032 signing that produces a 64-byte
/// signature which *ring*'s own Ed25519 verification accepts under the
/// key derived from the same seed.
#[verifier::external_body]
fn ring_ed25519_sign(seed: &[u8], msg: &[u8]) -> (sig: Vec<u8>)
    requires
        seed@.len() == 32,
    ensures
        sig@ == ed25519_sig_of(seed@, msg@),
        sig@.len() == 64,
        ed25519_verifies(ed25519_pub_of(seed@), msg@, sig@),
{
    let keypair = ring::signature::Ed25519KeyPair::from_seed_unchecked(seed).unwrap();
    keypair.sign(msg).as_ref().to_vec()
}

/// Relies on `ring::signature::UnparsedPublicKey::verify` with the
/// `ED25519` algorithm: pure, deterministic verification of the triple.
#[verifier::external_body]
fn ring_ed25519_verify(key: &[u8], msg: &[u8], sig: &[u8]) -> (accepted: bool)
    ensures
        accepted == ed25519_verifies(key@, msg@, sig@),
{
    ring::signature::UnparsedPublicKey::new(&ring::signature::ED25519, key)
        .verify(msg, sig)
        .is_ok()
}

/// Relies on `ring::signature::Ed25519KeyPair::from_pkcs8` and
/// `public_key`: acceptance of a PKCS#8 v2 document and the public key it
/// holds are functions of the bytes alone; an accepted document yields a
/// 32-byte public key.
#[verifier::external_body]
fn ring_ed25519_pkcs8_public_key(der: &[u8]) -> (r: Option<Vec<u8>>)
    ensures
        r is Some <==> ed25519_pkcs8_ok(der@),
        r matches Some(pk) ==> pk@ == ed25519_pkcs8_pub_of(der@) && pk@.len() == 32,
{
    match ring::signature::Ed25519KeyPair::from_pkcs8(der) {
        Ok(keypair) => Some(keypair.public_key().as_ref().to_vec()),
        Err(_) => None,
    }
}

/// Relies on `ring::signature::Ed25519KeyPair::from_pkcs8` and `sign`:
/// deterministic signing with the key held in an accepted PKCS#8
/// document, producing a 64-byte signature that *ring*'s verification
/// accepts under the document's public key.
#[verifier::external_body]
fn ring_ed25519_pkcs8_sign(der: &[u8], msg: &[u8]) -> (sig: Vec<u8>)
    requires
        ed25519_pkcs8_ok(der@),
    ensures
        sig@ == ed25519_pkcs8_sig_of(der@, msg@),
        sig@.len() == 64,
        ed25519_verifies(ed25519_pkcs8_pub_of(der@), msg@, sig@),
{
    let keypair = ring::signature::Ed25519KeyPair::from_pkcs8(der).unwrap();
    keypair.sign(msg).as_ref().to_vec()
}

/// Raw Ed25519 private-key seed material: exactly 32 bytes, validated at
/// construction and held only in memory by a signer.
pub struct Seed {
    bytes: Vec<u8>,
}

impl View for Seed {
    type V = Seq<u8>;

    closed spec fn view(&self) -> Seq<u8> {
        self.bytes@
    }
}

impl Seed {
    #[verifier::type_invariant]
    closed spec fn wf(self) -> bool {
        self.bytes@.len() == 32
    }

    /// Validated construction: any slice of exactly 32 bytes, nothing else.
    pub fn from_bytes(bytes: &[u8]) -> (r: Option<Seed>)
        ensures
            r is Some <==> bytes@.len() == 32,
            r matches Some(seed) ==> seed@ == bytes@,
    {
        if bytes.len() == 32 {
            Some(Seed { bytes: vstd::slice::slice_to_vec(bytes) })
        } else {
            None
        }
    }
}

/// An Ed25519 public key: exactly 32 bytes. Equality is byte-exact.
pub struct PublicKey {
    bytes: Vec<u8>,
}

impl View for PublicKey {
    type V = Seq<u8>;

    closed spec fn view(&self) -> Seq<u8> {
        self.bytes@
    }
}

impl PublicKey {
    #[verifier::type_invariant]
    closed spec fn wf(self) -> bool {
        self.bytes@.len() == 32
    }

    /// Validated construction: any slice of exactly 32 bytes, nothing else.
    pub fn from_bytes(bytes: &[u8]) -> (r: Option<PublicKey>)
        ensures
            r is Some <==> bytes@.len() == 32,
            r matches Some(pk) ==> pk@ == bytes@,
    {
        if bytes.len() == 32 {
            Some(PublicKey { bytes: vstd::slice::slice_to_vec(bytes) })
        } else {
            None
        }
    }

    pub fn as_bytes(&self) -> (r: &[u8])
        ensures
            r@ == self@,
    {
        self.bytes.as_slice()
    }
}

/// A fixed-width Ed25519 signature: exactly 64 bytes.
pub struct Signature {
    bytes: Vec<u8>,
}

impl View for Signature {
    type V = Seq<u8>;

    closed spec fn view(&self) -> Seq<u8> {
        self.bytes@
    }
}

impl Signature {
    #[verifier::type_invariant]
    closed spec fn wf(self) -> bool {
        self.bytes@.len() == 64
    }

    /// Validated construction: any slice of exactly 64 bytes, nothing else.
    pub fn from_bytes(bytes: &[u8]) -> (r: Option<Signature>)
        ensures
            r is Some <==> bytes@.len() == 64,
            r matches Some(sig) ==> sig@ == bytes@,
    {
        if bytes.len() == 64 {
            Some(Signature { bytes: vstd::slice::slice_to_vec(bytes) })
        } else {
            None
        }
    }

    pub fn as_bytes(&self) -> (r: &[u8])
        ensures
            r@ == self@,
    {
        self.bytes.as_slice()
    }
}

/// The key material an Ed25519 signer was constructed from, as a caller
/// sees it in contracts: either a raw seed or an imported PKCS#8 document.
pub enum Ed25519KeyView {
    Seeded(Seq<u8>),
    Imported(Seq<u8>),
}

/// The public key a signer with key material `k` exposes.
pub open spec fn ed25519_key_pub(k: Ed25519KeyView) -> Seq<u8> {
    match k {
        Ed25519KeyView::Seeded(seed) => ed25519_pub_of(seed),
        Ed25519KeyView::Imported(der) => ed25519_pkcs8_pub_of(der),
    }
}

/// The signature a signer with key material `k` produces for `msg`.
pub open spec fn ed25519_key_sig(k: Ed25519KeyView, msg: Seq<u8>) -> Seq<u8> {
    match k {
        Ed25519KeyView::Seeded(seed) => ed25519_sig_of(seed, msg),
        Ed25519KeyView::Imported(der) => ed25519_pkcs8_sig_of(der, msg),
    }
}

enum Ed25519Key {
    FromSeed(Seed),
    FromPkcs8(Vec<u8>),
}

/// Ed25519 signature provider backed by *ring*. Binds exactly one key;
/// the seed or document never leaves the signer — only `public_key` and
/// `sign` outputs are observable.
pub struct Ed25519Signer {
    key: Ed25519Key,
}

impl View for Ed25519Signer {
    type V = Ed25519KeyView;

    closed spec fn view(&self) -> Ed25519KeyView {
        match self.key {
            Ed25519Key::FromSeed(seed) => Ed25519KeyView::Seeded(seed@),
            Ed25519Key::FromPkcs8(der) => Ed25519KeyView::Imported(der@),
        }
    }
}

impl Ed25519Signer {
    #[verifier::type_invariant]
    closed spec fn wf(self) -> bool {
        match self.key {
            Ed25519Key::FromSeed(_) => true,
            Ed25519Key::FromPkcs8(der) => ed25519_pkcs8_ok(der@),
        }
    }

    /// Create a signer from an unexpanded 32-byte seed value.
    pub fn from_seed(seed: Seed) -> (signer: Ed25519Signer)
        ensures
            signer@ == Ed25519KeyView::Seeded(seed@),
    {
        Ed25519Signer { key: Ed25519Key::FromSeed(seed) }
    }

    /// Create a signer from a PKCS#8 v2 encoded private key; rejected
    /// bytes fail with `KeyInvalid`, never a default key.
    pub fn from_pkcs8(pkcs8_bytes: &[u8]) -> (r: Result<Ed25519Signer, Error>)
        ensures
            r is Ok <==> ed25519_pkcs8_ok(pkcs8_bytes@),
            r matches Ok(signer) ==> signer@ == Ed25519KeyView::Imported(pkcs8_bytes@),
            r matches Err(e) ==> e == Error::KeyInvalid,
    {
        match ring_ed25519_pkcs8_public_key(pkcs8_bytes) {
            Some(_) => Ok(Ed25519Signer {
                key: Ed25519Key::FromPkcs8(vstd::slice::slice_to_vec(pkcs8_bytes)),
            }),
            None => Err(Error::KeyInvalid),
        }
    }

    /// The public key bound to this signer's key material.
    pub fn public_key(&self) -> (r: Result<PublicKey, Error>)
        ensures
            r is Ok,
            r matches Ok(pk) ==> pk@ == ed25519_key_pub(self@),
    {
        proof {
            use_type_invariant(self);
        }
        let pk_bytes = match &self.key {
            Ed25519Key::FromSeed(seed) => {
                proof {
                    use_type_invariant(seed);
                }
                ring_ed25519_public_key(seed.bytes.as_slice())
            }
            Ed25519Key::FromPkcs8(der) => {
                match ring_ed25519_pkcs8_public_key(der.as_slice()) {
                    Some(pk) => pk,
                    None => vstd::pervasive::unreached(),
                }
            }
        };
        Ok(PublicKey { bytes: pk_bytes })
    }

    /// Sign `msg` deterministically (RFC 8032). The produced signature is
    /// accepted by Ed25519 verification under this signer's public key.
    pub fn sign(&self, msg: &[u8]) -> (r: Result<Signature, Error>)
        ensures
            r is Ok,
            r matches Ok(sig) ==> sig@ == ed25519_key_sig(self@, msg@)
                && ed25519_verifies(ed25519_key_pub(self@), msg@, sig@),
    {
        proof {
            use_type_invariant(self);
        }
        let sig_bytes = match &self.key {
            Ed25519Key::FromSeed(seed) => {
                proof {
                    use_type_invariant(seed);
                }
                ring_ed25519_sign(seed.bytes.as_slice(), msg)
            }
            Ed25519Key::FromPkcs8(der) => ring_ed25519_pkcs8_sign(der.as_slice(), msg),
        };
        Ok(Signature { bytes: sig_bytes })
    }
}

/// Ed25519 verification provider backed by *ring*. Stateless.
pub struct Ed25519Verifier;

impl Ed25519Verifier {
    /// Accepts exactly the triples *ring*'s Ed25519 verification accepts.
    /// A wrong key, tampered bytes and a malformed encoding are
    /// indistinguishable: all fail with `SignatureInvalid`.
    pub fn verify(key: &PublicKey, msg: &[u8], signature: &Signature) -> (r: Result<(), Error>)
        ensures
            r is Ok <==> ed25519_verifies(key@, msg@, signature@),
            r matches Err(e) ==> e == Error::SignatureInvalid,
    {
        if ring_ed25519_verify(key.as_bytes(), msg, signature.as_bytes()) {
            Ok(())
        } else {
            Err(Error::SignatureInvalid)
        }
    }
}

} // verus!
