use signatory::p256::{Asn1, Asn1Signature, Fixed, FixedSignature, Signer, Verifier};
use signatory::Error;

#[test]
pub fn asn1_signature_roundtrip() {
    let document = Signer::<Asn1>::generate_pkcs8().unwrap();
    let signer = Signer::<Asn1>::from_pkcs8(document.as_der()).unwrap();
    let signature: Asn1Signature = signer.try_sign(b"test message").unwrap();

    let verifier = Verifier::<Asn1>::from(&signer.public_key().unwrap());
    assert!(verifier.verify(b"test message", &signature).is_ok());
}

#[test]
pub fn rejects_tweaked_asn1_signature() {
    let document = Signer::<Asn1>::generate_pkcs8().unwrap();
    let signer = Signer::<Asn1>::from_pkcs8(document.as_der()).unwrap();
    let signature: Asn1Signature = signer.try_sign(b"test message").unwrap();

    let mut tweaked_signature = signature.as_bytes().to_vec();
    *tweaked_signature.iter_mut().last().unwrap() ^= 42;

    let verifier = Verifier::<Asn1>::from(&signer.public_key().unwrap());
    let result = verifier.verify(
        b"test message",
        &Asn1Signature::from_bytes(tweaked_signature.as_ref()).unwrap(),
    );

    assert!(
        result.is_err(),
        "expected bad signature to cause validation error!"
    );
}

#[test]
fn fixed_signature_roundtrip() {
    let document = Signer::<Fixed>::generate_pkcs8().unwrap();
    let signer = Signer::<Fixed>::from_pkcs8(document.as_der()).unwrap();
    let signature: FixedSignature = signer.try_sign(b"fixed width").unwrap();
    assert_eq!(signature.as_bytes().len(), 64);

    let verifier = Verifier::<Fixed>::from(&signer.public_key().unwrap());
    assert!(verifier.verify(b"fixed width", &signature).is_ok());
}

#[test]
fn rejects_tweaked_fixed_signature() {
    let document = Signer::<Fixed>::generate_pkcs8().unwrap();
    let signer = Signer::<Fixed>::from_pkcs8(document.as_der()).unwrap();
    let signature: FixedSignature = signer.try_sign(b"fixed width").unwrap();

    let mut tweaked = signature.as_bytes().to_vec();
    tweaked[0] ^= 1;
    let verifier = Verifier::<Fixed>::from(&signer.public_key().unwrap());
    let result = verifier.verify(b"fixed width", &FixedSignature::from_bytes(&tweaked).unwrap());
    assert!(matches!(result, Err(Error::SignatureInvalid)));
}

#[test]
fn asn1_bytes_are_not_a_fixed_signature() {
    let document = Signer::<Asn1>::generate_pkcs8().unwrap();
    let signer = Signer::<Asn1>::from_pkcs8(document.as_der()).unwrap();
    let signature: Asn1Signature = signer.try_sign(b"segregated").unwrap();

    let bytes = signature.as_bytes();
    assert_ne!(bytes.len(), 64);
    assert!(FixedSignature::from_bytes(bytes).is_none());
}

#[test]
fn fixed_bytes_are_not_an_asn1_signature() {
    let document = Signer::<Fixed>::generate_pkcs8().unwrap();
    let signer = Signer::<Fixed>::from_pkcs8(document.as_der()).unwrap();
    let signature: FixedSignature = signer.try_sign(b"segregated").unwrap();

    assert!(Asn1Signature::from_bytes(signature.as_bytes()).is_none());
    assert!(Asn1Signature::from_bytes(&[0u8; 64]).is_none());
}

#[test]
fn asn1_parser_accepts_minimal_and_rejects_malformed() {
    // SEQUENCE { INTEGER 1, INTEGER 1 }: the shortest well-formed value.
    let minimal = [0x30, 0x06, 0x02, 0x01, 0x01, 0x02, 0x01, 0x01];
    assert!(Asn1Signature::from_bytes(&minimal).is_some());

    // Wrong outer tag.
    let bad_tag = [0x31, 0x06, 0x02, 0x01, 0x01, 0x02, 0x01, 0x01];
    assert!(Asn1Signature::from_bytes(&bad_tag).is_none());

    // Wrong outer length.
    let bad_len = [0x30, 0x07, 0x02, 0x01, 0x01, 0x02, 0x01, 0x01];
    assert!(Asn1Signature::from_bytes(&bad_len).is_none());

    // Negative integer (top bit set).
    let negative = [0x30, 0x06, 0x02, 0x01, 0x81, 0x02, 0x01, 0x01];
    assert!(Asn1Signature::from_bytes(&negative).is_none());

    // Non-minimal integer (leading zero before a small byte).
    let padded = [0x30, 0x07, 0x02, 0x02, 0x00, 0x01, 0x02, 0x01, 0x01];
    assert!(Asn1Signature::from_bytes(&padded).is_none());

    // A leading zero before a high byte is required, so it is accepted.
    let high = [0x30, 0x07, 0x02, 0x02, 0x00, 0x80, 0x02, 0x01, 0x01];
    assert!(Asn1Signature::from_bytes(&high).is_some());

    // Trailing garbage.
    let trailing = [0x30, 0x06, 0x02, 0x01, 0x01, 0x02, 0x01, 0x01, 0x00];
    assert!(Asn1Signature::from_bytes(&trailing).is_none());
}

#[test]
fn ecdsa_from_pkcs8_rejects_garbage() {
    assert!(matches!(Signer::<Asn1>::from_pkcs8(&[1u8; 40]), Err(Error::KeyInvalid)));
    assert!(matches!(Signer::<Fixed>::from_pkcs8(&[]), Err(Error::KeyInvalid)));
}

#[test]
fn public_key_is_uncompressed_point() {
    let document = Signer::<Asn1>::generate_pkcs8().unwrap();
    let signer = Signer::<Asn1>::from_pkcs8(document.as_der()).unwrap();
    let public_key = signer.public_key().unwrap();
    assert_eq!(public_key.as_bytes().len(), 65);
    assert_eq!(public_key.as_bytes()[0], 0x04);
}
