//! The PKCS#8 private-key document: the only form in which private keys
//! are persisted or transported.
//!
//! The document is an opaque, validated byte blob. ASN.1 parsing and PEM
//! armoring are consumed as a black-box codec from the `pkcs8` crate;
//! this module never parses ASN.1 itself.

use vstd::prelude::*;

use crate::error::Error;

verus! {

/// Whether the `pkcs8` crate accepts `der` as a DER-encoded PKCS#8
/// private-key document. Acceptance is a function of the bytes alone.
pub uninterp spec fn pkcs8_der_ok(der: Seq<u8>) -> bool;

/// The PEM armoring the `pkcs8` crate produces for an accepted document:
/// a `PRIVATE KEY` block holding exactly the DER bytes, a function of
/// those bytes alone.
pub uninterp spec fn pem_of(der: Seq<u8>) -> Seq<char>;

/// The DER bytes the `pkcs8` crate recovers from a PEM string, `None`
/// where the string is not a well-formed `PRIVATE KEY` block holding an
/// accepted document. Decoding is a function of the string alone.
pub uninterp spec fn pem_private_key_der(pem: Seq<char>) -> Option<Seq<u8>>;

/// Relies on `pkcs8::PrivateKeyDocument::from_der`: deterministic
/// validation of a DER-encoded private-key document.
#[verifier::external_body]
fn pkcs8_check_der(bytes: &[u8]) -> (accepted: bool)
    ensures
        accepted == pkcs8_der_ok(bytes@),
{
    pkcs8::PrivateKeyDocument::from_der(bytes).is_ok()
}

/// Relies on `pkcs8::PrivateKeyDocument::from_pem`: deterministic
/// decoding of a `PRIVATE KEY` PEM block back to the exact DER bytes it
/// holds; an accepted result is itself an accepted DER document.
#[verifier::external_body]
fn pkcs8_from_pem(pem: &str) -> (r: Option<Vec<u8>>)
    ensures
        r is Some <==> pem_private_key_der(pem@) is Some,
        r matches Some(der) ==> Some(der@) == pem_private_key_der(pem@) && pkcs8_der_ok(der@),
{
    pkcs8::PrivateKeyDocument::from_pem(pem).ok().map(|doc| doc.as_ref().to_vec())
}

/// Relies on `pkcs8::PrivateKeyDocument::to_pem` (and `from_der` to
/// rebuild the document): deterministic PEM armoring of the DER bytes,
/// which `from_pem` decodes back to exactly those bytes.
#[verifier::external_body]
fn pkcs8_to_pem(der: &[u8]) -> (pem: String)
    requires
        pkcs8_der_ok(der@),
    ensures
        pem@ == pem_of(der@),
        pem_private_key_der(pem@) == Some(der@),
{
    let doc = pkcs8::PrivateKeyDocument::from_der(der).unwrap();
    doc.to_pem().to_string()
}

/// A validated PKCS#8 private-key document, held as its DER encoding.
/// Construction only succeeds on bytes the codec accepts; a document is
/// never partially valid.
pub struct Pkcs8Document {
    der: Vec<u8>,
}

impl View for Pkcs8Document {
    type V = Seq<u8>;

    closed spec fn view(&self) -> Seq<u8> {
        self.der@
    }
}

impl Pkcs8Document {
    #[verifier::type_invariant]
    closed spec fn wf(self) -> bool {
        pkcs8_der_ok(self.der@)
    }

    /// Decode a document from DER bytes; rejected bytes fail with
    /// `EncodingError`, never a partially-valid document.
    pub fn from_der(bytes: &[u8]) -> (r: Result<Pkcs8Document, Error>)
        ensures
            r is Ok <==> pkcs8_der_ok(bytes@),
            r matches Ok(doc) ==> doc@ == bytes@,
            r matches Err(e) ==> e == Error::EncodingError,
    {
        if pkcs8_check_der(bytes) {
            Ok(Pkcs8Document { der: vstd::slice::slice_to_vec(bytes) })
        } else {
            Err(Error::EncodingError)
        }
    }

    /// Decode a document from a PEM `PRIVATE KEY` block; any decode
    /// failure surfaces as `EncodingError`.
    pub fn from_pem(pem: &str) -> (r: Result<Pkcs8Document, Error>)
        ensures
            r is Ok <==> pem_private_key_der(pem@) is Some,
            r matches Ok(doc) ==> Some(doc@) == pem_private_key_der(pem@),
            r matches Err(e) ==> e == Error::EncodingError,
    {
        match pkcs8_from_pem(pem) {
            Some(der) => Ok(Pkcs8Document { der }),
            None => Err(Error::EncodingError),
        }
    }

    /// Armor the document as a PEM `PRIVATE KEY` block. Decoding the
    /// produced string yields a document byte-identical to this one.
    pub fn to_pem(&self) -> (pem: String)
        ensures
            pem@ == pem_of(self@),
            pem_private_key_der(pem@) == Some(self@),
    {
        proof {
            use_type_invariant(self);
        }
        pkcs8_to_pem(self.der.as_slice())
    }

    /// The document's DER bytes.
    pub fn as_der(&self) -> (r: &[u8])
        ensures
            r@ == self@,
    {
        self.der.as_slice()
    }
}

} // verus!
