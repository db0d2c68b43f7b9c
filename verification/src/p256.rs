//! ECDSA over NIST P-256, backed by the *ring* primitive library.
//!
//! The signature encoding — ASN.1 DER or fixed-width — is selected at
//! the type level: a signer or verifier for one encoding cannot be
//! handed a signature of the other, so a sign/verify format mismatch is
//! a compile-time error, not a runtime branch.

use vstd::prelude::*;

use crate::error::Error;
use crate::pkcs8doc::Pkcs8Document;
use ring::signature::KeyPair;

verus! {

/// Whether *ring* accepts `der` as a PKCS#8 v1 P-256 private-key
/// document. Parsing is a function of the bytes alone (the signing
/// encoding chosen alongside it does not affect acceptance).
pub uninterp spec fn p256_pkcs8_ok(der: Seq<u8>) -> bool;

/// The public key *ring* extracts from an accepted P-256 PKCS#8
/// document: the SEC 1 uncompressed curve point, a function of the
/// bytes alone.
pub uninterp spec fn p256_pub_of_pkcs8(der: Seq<u8>) -> Seq<u8>;

/// Whether *ring*'s `ECDSA_P256_SHA256_ASN1` verification accepts
/// `(key, msg, sig)`. Pure and deterministic.
pub uninterp spec fn p256_asn1_verifies(key: Seq<u8>, msg: Seq<u8>, sig: Seq<u8>) -> bool;

/// Whether *ring*'s `ECDSA_P256_SHA256_FIXED` verification accepts
/// `(key, msg, sig)`. Pure and deterministic.
pub uninterp spec fn p256_fixed_verifies(key: Seq<u8>, msg: Seq<u8>, sig: Seq<u8>) -> bool;

/// One value-byte sequence of a DER `INTEGER` inside an ECDSA-Sig-Value:
/// a positive, minimally-encoded integer of at most 33 bytes (32 value
/// bytes plus at most one leading zero octet).
pub open spec fn asn1_int_wf(b: Seq<u8>) -> bool {
    &&& 1 <= b.len() <= 33
    &&& b[0] < 0x80
    &&& (b.len() > 1 ==> !(b[0] == 0 && b[1] < 0x80))
}

/// A well-formed DER `ECDSA-Sig-Value` for P-256: a short-form `SEQUENCE`
/// of exactly two positive, minimally-encoded `INTEGER`s, each at most
/// 33 bytes, with no trailing bytes.
pub open spec fn asn1_sig_wf(b: Seq<u8>) -> bool {
    &&& 8 <= b.len() <= 72
    &&& b[0] == 0x30
    &&& b[1] == b.len() - 2
    &&& b[2] == 0x02
    &&& 1 <= b[3] <= 33
    &&& b.len() >= 6 + b[3]
    &&& asn1_int_wf(b.subrange(4, 4 + b[3]))
    &&& b[4 + b[3]] == 0x02
    &&& 1 <= b[5 + b[3]] <= 33
    &&& b.len() == 6 + b[3] + b[5 + b[3]]
    &&& asn1_int_wf(b.subrange(6 + b[3], b.len() as int))
}

/// Checks the value bytes of one `INTEGER` at `b[start .. start + len]`.
fn check_asn1_int(b: &[u8], start: usize, len: usize) -> (r: bool)
    requires
        start + len <= b@.len(),
    ensures
        r == asn1_int_wf(b@.subrange(start as int, start as int + len as int)),
{
    let ghost sub = b@.subrange(start as int, start as int + len as int);
    if len < 1 || len > 33 {
        return false;
    }
    let first = b[start];
    assert(sub[0] == b@[start as int]);
    if first >= 0x80 {
        return false;
    }
    if len > 1 {
        let second = b[start + 1];
        assert(sub[1] == b@[start as int + 1]);
        !(first == 0 && second < 0x80)
    } else {
        true
    }
}

/// A variable-length, ASN.1 DER-encoded P-256 ECDSA signature.
/// Constructed only via validated parsing of the DER framing; malformed
/// input fails construction rather than producing a partially-valid
/// value.
pub struct Asn1Signature {
    bytes: Vec<u8>,
}

impl View for Asn1Signature {
    type V = Seq<u8>;

    closed spec fn view(&self) -> Seq<u8> {
        self.bytes@
    }
}

impl Asn1Signature {
    #[verifier::type_invariant]
    closed spec fn wf(self) -> bool {
        asn1_sig_wf(self.bytes@)
    }

    /// Validated construction: accepts exactly the well-formed DER
    /// `ECDSA-Sig-Value` encodings.
    pub fn from_bytes(bytes: &[u8]) -> (r: Option<Asn1Signature>)
        ensures
            r is Some <==> asn1_sig_wf(bytes@),
            r matches Some(sig) ==> sig@ == bytes@,
    {
        let n = bytes.len();
        if n < 8 || n > 72 {
            return None;
        }
        if bytes[0] != 0x30 || bytes[1] as usize != n - 2 || bytes[2] != 0x02 {
            return None;
        }
        let rlen = bytes[3] as usize;
        if rlen < 1 || rlen > 33 || n < 6 + rlen {
            return None;
        }
        if !check_asn1_int(bytes, 4, rlen) {
            return None;
        }
        if bytes[4 + rlen] != 0x02 {
            return None;
        }
        let slen = bytes[5 + rlen] as usize;
        if slen < 1 || slen > 33 || n != 6 + rlen + slen {
            return None;
        }
        if !check_asn1_int(bytes, 6 + rlen, slen) {
            return None;
        }
        Some(Asn1Signature { bytes: vstd::slice::slice_to_vec(bytes) })
    }

    pub fn as_bytes(&self) -> (r: &[u8])
        ensures
            r@ == self@,
    {
        self.bytes.as_slice()
    }
}

/// A fixed-width P-256 ECDSA signature: `r` and `s` concatenated as two
/// 32-byte big-endian integers, exactly 64 bytes.
pub struct FixedSignature {
    bytes: Vec<u8>,
}

impl View for FixedSignature {
    type V = Seq<u8>;

    closed spec fn view(&self) -> Seq<u8> {
        self.bytes@
    }
}

impl FixedSignature {
    #[verifier::type_invariant]
    closed spec fn wf(self) -> bool {
        self.bytes@.len() == 64
    }

    /// Validated construction: any slice of exactly 64 bytes, nothing else.
    pub fn from_bytes(bytes: &[u8]) -> (r: Option<FixedSignature>)
        ensures
            r is Some <==> bytes@.len() == 64,
            r matches Some(sig) ==> sig@ == bytes@,
    {
        if bytes.len() == 64 {
            Some(FixedSignature { bytes: vstd::slice::slice_to_vec(bytes) })
        } else {
            None
        }
    }

    pub fn as_bytes(&self) -> (r: &[u8])
        ensures
            r@ == self@,
    {
        self.bytes.as_slice()
    }
}

/// A P-256 public key: the SEC 1 uncompressed curve point, 65 bytes
/// starting with the `0x04` uncompressed-point tag. Equality is
/// byte-exact.
pub struct PublicKey {
    bytes: Vec<u8>,
}

impl View for PublicKey {
    type V = Seq<u8>;

    closed spec fn view(&self) -> Seq<u8> {
        self.bytes@
    }
}

impl PublicKey {
    #[verifier::type_invariant]
    closed spec fn wf(self) -> bool {
        self.bytes@.len() == 65 && self.bytes@[0] == 0x04
    }

    /// Validated construction: a 65-byte uncompressed point encoding,
    /// nothing else.
    pub fn from_bytes(bytes: &[u8]) -> (r: Option<PublicKey>)
        ensures
            r is Some <==> bytes@.len() == 65 && bytes@[0] == 0x04,
            r matches Some(pk) ==> pk@ == bytes@,
    {
        if bytes.len() == 65 && bytes[0] == 0x04 {
            Some(PublicKey { bytes: vstd::slice::slice_to_vec(bytes) })
        } else {
            None
        }
    }

    pub fn as_bytes(&self) -> (r: &[u8])
        ensures
            r@ == self@,
    {
        self.bytes.as_slice()
    }
}

/// Relies on `ring::signature::EcdsaKeyPair::from_pkcs8` and
/// `public_key` (via `ring::signature::KeyPair`): document acceptance
/// and the extracted public key depend on the bytes alone; the key is
/// the 65-byte SEC 1 uncompressed point. `None` also covers a failure
/// of the system randomness source, so success is never promised.
#[verifier::external_body]
fn ring_p256_pkcs8_public_key(der: &[u8]) -> (r: Option<Vec<u8>>)
    ensures
        r is Some ==> p256_pkcs8_ok(der@),
        !p256_pkcs8_ok(der@) ==> r is None,
        r matches Some(pk) ==> pk@ == p256_pub_of_pkcs8(der@) && pk@.len() == 65 && pk@[0]
            == 0x04,
{
    let rng = ring::rand::SystemRandom::new();
    ring::signature::EcdsaKeyPair::from_pkcs8(
        &ring::signature::ECDSA_P256_SHA256_ASN1_SIGNING,
        der,
        &rng,
    )
        .ok()
        .map(|keypair| keypair.public_key().as_ref().to_vec())
}

/// Relies on `ring::signature::EcdsaKeyPair::from_pkcs8` and `sign` with
/// `ECDSA_P256_SHA256_ASN1_SIGNING`: signing is randomized, but every
/// produced signature is a well-formed DER `ECDSA-Sig-Value` that
/// *ring*'s ASN.1 verification accepts under the document's public key.
/// `None` covers a randomness failure.
#[verifier::external_body]
fn ring_p256_sign_asn1(der: &[u8], msg: &[u8]) -> (r: Option<Vec<u8>>)
    requires
        p256_pkcs8_ok(der@),
    ensures
        r matches Some(sig) ==> p256_asn1_verifies(p256_pub_of_pkcs8(der@), msg@, sig@)
            && asn1_sig_wf(sig@),
{
    let rng = ring::rand::SystemRandom::new();
    let keypair = ring::signature::EcdsaKeyPair::from_pkcs8(
        &ring::signature::ECDSA_P256_SHA256_ASN1_SIGNING,
        der,
        &rng,
    ).ok()?;
    keypair.sign(&rng, msg).ok().map(|sig| sig.as_ref().to_vec())
}

/// Relies on `ring::signature::EcdsaKeyPair::from_pkcs8` and `sign` with
/// `ECDSA_P256_SHA256_FIXED_SIGNING`: signing is randomized, but every
/// produced signature is 64 bytes and accepted by *ring*'s fixed-width
/// verification under the document's public key. `None` covers a
/// randomness failure.
#[verifier::external_body]
fn ring_p256_sign_fixed(der: &[u8], msg: &[u8]) -> (r: Option<Vec<u8>>)
    requires
        p256_pkcs8_ok(der@),
    ensures
        r matches Some(sig) ==> p256_fixed_verifies(p256_pub_of_pkcs8(der@), msg@, sig@)
            && sig@.len() == 64,
{
    let rng = ring::rand::SystemRandom::new();
    let keypair = ring::signature::EcdsaKeyPair::from_pkcs8(
        &ring::signature::ECDSA_P256_SHA256_FIXED_SIGNING,
        der,
        &rng,
    ).ok()?;
    keypair.sign(&rng, msg).ok().map(|sig| sig.as_ref().to_vec())
}

/// Relies on `ring::signature::UnparsedPublicKey::verify` with
/// `ECDSA_P256_SHA256_ASN1`: pure, deterministic verification.
#[verifier::external_body]
fn ring_p256_verify_asn1(key: &[u8], msg: &[u8], sig: &[u8]) -> (accepted: bool)
    ensures
        accepted == p256_asn1_verifies(key@, msg@, sig@),
{
    ring::signature::UnparsedPublicKey::new(&ring::signature::ECDSA_P256_SHA256_ASN1, key)
        .verify(msg, sig)
        .is_ok()
}

/// Relies on `ring::signature::UnparsedPublicKey::verify` with
/// `ECDSA_P256_SHA256_FIXED`: pure, deterministic verification.
#[verifier::external_body]
fn ring_p256_verify_fixed(key: &[u8], msg: &[u8], sig: &[u8]) -> (accepted: bool)
    ensures
        accepted == p256_fixed_verifies(key@, msg@, sig@),
{
    ring::signature::UnparsedPublicKey::new(&ring::signature::ECDSA_P256_SHA256_FIXED, key)
        .verify(msg, sig)
        .is_ok()
}

/// Relies on `ring::signature::EcdsaKeyPair::generate_pkcs8`: the result
/// is random, but every produced document is a PKCS#8 v1 P-256 document
/// that *ring*'s own parser accepts. `None` covers a randomness failure.
#[verifier::external_body]
fn ring_p256_generate_pkcs8() -> (r: Option<Vec<u8>>)
    ensures
        r matches Some(der) ==> p256_pkcs8_ok(der@),
{
    let rng = ring::rand::SystemRandom::new();
    ring::signature::EcdsaKeyPair::generate_pkcs8(
        &ring::signature::ECDSA_P256_SHA256_ASN1_SIGNING,
        &rng,
    )
        .ok()
        .map(|doc| doc.as_ref().to_vec())
}

/// Marker for the ASN.1 DER signature encoding.
pub struct Asn1;

/// Marker for the fixed-width signature encoding.
pub struct Fixed;

/// NIST P-256 ECDSA signer. The encoding of the signatures it produces
/// is fixed by the type parameter at construction time.
pub struct Signer<E> {
    pkcs8_der: Vec<u8>,
    encoding: E,
}

impl<E> View for Signer<E> {
    type V = Seq<u8>;

    closed spec fn view(&self) -> Seq<u8> {
        self.pkcs8_der@
    }
}

impl<E> Signer<E> {
    #[verifier::type_invariant]
    closed spec fn wf(self) -> bool {
        p256_pkcs8_ok(self.pkcs8_der@)
    }

    /// The public key bound to the signer's PKCS#8 document. Fails only
    /// if the system randomness source fails.
    pub fn public_key(&self) -> (r: Result<PublicKey, Error>)
        ensures
            r matches Ok(pk) ==> pk@ == p256_pub_of_pkcs8(self@),
            r matches Err(e) ==> e == Error::KeyInvalid,
    {
        proof {
            use_type_invariant(self);
        }
        match ring_p256_pkcs8_public_key(self.pkcs8_der.as_slice()) {
            Some(pk_bytes) => Ok(PublicKey { bytes: pk_bytes }),
            None => Err(Error::KeyInvalid),
        }
    }
}

impl Signer<Asn1> {
    /// Create an ECDSA signer producing ASN.1 signatures from a PKCS#8
    /// document; bytes the primitive library rejects fail with
    /// `KeyInvalid`.
    pub fn from_pkcs8(secret_key: &[u8]) -> (r: Result<Signer<Asn1>, Error>)
        ensures
            r matches Ok(signer) ==> signer@ == secret_key@ && p256_pkcs8_ok(secret_key@),
            !p256_pkcs8_ok(secret_key@) ==> r is Err,
            r matches Err(e) ==> e == Error::KeyInvalid,
    {
        match ring_p256_pkcs8_public_key(secret_key) {
            Some(_) => Ok(Signer {
                pkcs8_der: vstd::slice::slice_to_vec(secret_key),
                encoding: Asn1,
            }),
            None => Err(Error::KeyInvalid),
        }
    }

    /// Randomly generate a P-256 PKCS#8 keypair document; the produced
    /// document is accepted by `from_pkcs8`. Fails only if the system
    /// randomness source fails or the generated document is rejected by
    /// the document codec.
    pub fn generate_pkcs8() -> (r: Result<Pkcs8Document, Error>)
        ensures
            r matches Ok(doc) ==> p256_pkcs8_ok(doc@),
    {
        match ring_p256_generate_pkcs8() {
            Some(der) => Pkcs8Document::from_der(der.as_slice()),
            None => Err(Error::ProviderError),
        }
    }

    /// Sign `msg`, producing an ASN.1 DER signature. ECDSA signing is
    /// randomized: callers must not assume two signatures of one message
    /// coincide. Every produced signature is accepted by the ASN.1
    /// verifier under this signer's public key.
    pub fn try_sign(&self, msg: &[u8]) -> (r: Result<Asn1Signature, Error>)
        ensures
            r matches Ok(sig) ==> p256_asn1_verifies(p256_pub_of_pkcs8(self@), msg@, sig@),
            r matches Err(e) ==> e == Error::ProviderError,
    {
        proof {
            use_type_invariant(self);
        }
        match ring_p256_sign_asn1(self.pkcs8_der.as_slice(), msg) {
            Some(sig_bytes) => Ok(Asn1Signature { bytes: sig_bytes }),
            None => Err(Error::ProviderError),
        }
    }
}

impl Signer<Fixed> {
    /// Create an ECDSA signer producing fixed-width signatures from a
    /// PKCS#8 document; bytes the primitive library rejects fail with
    /// `KeyInvalid`.
    pub fn from_pkcs8(secret_key: &[u8]) -> (r: Result<Signer<Fixed>, Error>)
        ensures
            r matches Ok(signer) ==> signer@ == secret_key@ && p256_pkcs8_ok(secret_key@),
            !p256_pkcs8_ok(secret_key@) ==> r is Err,
            r matches Err(e) ==> e == Error::KeyInvalid,
    {
        match ring_p256_pkcs8_public_key(secret_key) {
            Some(_) => Ok(Signer {
                pkcs8_der: vstd::slice::slice_to_vec(secret_key),
                encoding: Fixed,
            }),
            None => Err(Error::KeyInvalid),
        }
    }

    /// Randomly generate a P-256 PKCS#8 keypair document; the produced
    /// document is accepted by `from_pkcs8`. Fails only if the system
    /// randomness source fails or the generated document is rejected by
    /// the document codec.
    pub fn generate_pkcs8() -> (r: Result<Pkcs8Document, Error>)
        ensures
            r matches Ok(doc) ==> p256_pkcs8_ok(doc@),
    {
        match ring_p256_generate_pkcs8() {
            Some(der) => Pkcs8Document::from_der(der.as_slice()),
            None => Err(Error::ProviderError),
        }
    }

    /// Sign `msg`, producing a fixed-width signature. ECDSA signing is
    /// randomized: callers must not assume two signatures of one message
    /// coincide. Every produced signature is accepted by the fixed-width
    /// verifier under this signer's public key.
    pub fn try_sign(&self, msg: &[u8]) -> (r: Result<FixedSignature, Error>)
        ensures
            r matches Ok(sig) ==> p256_fixed_verifies(p256_pub_of_pkcs8(self@), msg@, sig@),
            r matches Err(e) ==> e == Error::ProviderError,
    {
        proof {
            use_type_invariant(self);
        }
        match ring_p256_sign_fixed(self.pkcs8_der.as_slice(), msg) {
            Some(sig_bytes) => Ok(FixedSignature { bytes: sig_bytes }),
            None => Err(Error::ProviderError),
        }
    }
}

/// NIST P-256 ECDSA verifier. The encoding of the signatures it accepts
/// is fixed by the type parameter: a fixed-width verifier cannot even be
/// handed an ASN.1 signature, and vice versa.
pub struct Verifier<E> {
    public_key: PublicKey,
    encoding: E,
}

impl<E> View for Verifier<E> {
    type V = Seq<u8>;

    closed spec fn view(&self) -> Seq<u8> {
        self.public_key@
    }
}

impl Verifier<Asn1> {
    /// Bind an ASN.1-encoding verifier to a public key.
    pub fn from(public_key: &PublicKey) -> (v: Verifier<Asn1>)
        ensures
            v@ == public_key@,
    {
        proof {
            use_type_invariant(public_key);
        }
        Verifier {
            public_key: PublicKey { bytes: vstd::slice::slice_to_vec(public_key.as_bytes()) },
            encoding: Asn1,
        }
    }

    /// Accepts exactly the triples *ring*'s ASN.1 P-256 verification
    /// accepts; every failure is the single `SignatureInvalid` outcome.
    pub fn verify(&self, msg: &[u8], signature: &Asn1Signature) -> (r: Result<(), Error>)
        ensures
            r is Ok <==> p256_asn1_verifies(self@, msg@, signature@),
            r matches Err(e) ==> e == Error::SignatureInvalid,
    {
        if ring_p256_verify_asn1(self.public_key.as_bytes(), msg, signature.as_bytes()) {
            Ok(())
        } else {
            Err(Error::SignatureInvalid)
        }
    }
}

impl Verifier<Fixed> {
    /// Bind a fixed-width-encoding verifier to a public key.
    pub fn from(public_key: &PublicKey) -> (v: Verifier<Fixed>)
        ensures
            v@ == public_key@,
    {
        proof {
            use_type_invariant(public_key);
        }
        Verifier {
            public_key: PublicKey { bytes: vstd::slice::slice_to_vec(public_key.as_bytes()) },
            encoding: Fixed,
        }
    }

    /// Accepts exactly the triples *ring*'s fixed-width P-256
    /// verification accepts; every failure is the single
    /// `SignatureInvalid` outcome.
    pub fn verify(&self, msg: &[u8], signature: &FixedSignature) -> (r: Result<(), Error>)
        ensures
            r is Ok <==> p256_fixed_verifies(self@, msg@, signature@),
            r matches Err(e) ==> e == Error::SignatureInvalid,
    {
        if ring_p256_verify_fixed(self.public_key.as_bytes(), msg, signature.as_bytes()) {
            Ok(())
        } else {
            Err(Error::SignatureInvalid)
        }
    }
}

} // verus!
