use ed25519_signing::errors::Error;
use ed25519_signing::key::SigningKey;

fn sample_seed() -> Vec<u8> {
    (0u8..32u8).map(|b| b.wrapping_mul(3).wrapping_add(1)).collect()
}

fn sample_container() -> Vec<u8> {
    SigningKey::from_seed(&sample_seed()).to_pkcs8_der()
}

#[test]
fn encoding_has_the_documented_shape() {
    let der = sample_container();
    assert_eq!(der.len(), 48);
    let prefix = [
        0x30u8, 0x2e, 0x02, 0x01, 0x00, 0x30, 0x05, 0x06, 0x03, 0x2b, 0x65, 0x70, 0x04, 0x22,
        0x04, 0x20,
    ];
    assert_eq!(&der[..16], &prefix);
    assert_eq!(&der[16..], sample_seed().as_slice());
}

#[test]
fn container_round_trip() {
    let k = SigningKey::from_seed(&sample_seed());
    let der = k.to_pkcs8_der();
    let k2 = SigningKey::from_pkcs8_der(&der).unwrap();
    assert_eq!(k2.extract_seed(), k.extract_seed());
    assert_eq!(k2.verification_key_bytes(), k.verification_key_bytes());
    assert_eq!(
        k2.verification_key().minus_a_bytes,
        k.verification_key().minus_a_bytes
    );
    let msg = b"round trip";
    assert_eq!(k2.sign(msg).to_bytes(), k.sign(msg).to_bytes());
}

#[test]
fn wrong_algorithm_identifier_rejected() {
    // The X25519 object identifier 1.3.101.110 in place of Ed25519's.
    let mut der = sample_container();
    der[11] = 0x6e;
    let r = SigningKey::from_pkcs8_der(&der);
    assert!(matches!(r, Err(Error::AlgorithmMismatch)));
}

#[test]
fn longer_algorithm_identifier_rejected() {
    // An algorithm-identifier SEQUENCE of a different length.
    let mut der = sample_container();
    der[6] = 0x06;
    let r = SigningKey::from_pkcs8_der(&der);
    assert!(matches!(r, Err(Error::AlgorithmMismatch)));
}

#[test]
fn bad_framing_first_byte_rejected() {
    let mut der = sample_container();
    der[14] = 0x05;
    let r = SigningKey::from_pkcs8_der(&der);
    assert!(matches!(r, Err(Error::MalformedContainer)));
}

#[test]
fn bad_framing_second_byte_rejected() {
    let mut der = sample_container();
    der[15] = 0x21;
    let r = SigningKey::from_pkcs8_der(&der);
    assert!(matches!(r, Err(Error::MalformedContainer)));
}

#[test]
fn truncated_container_rejected() {
    let der = sample_container();
    let r = SigningKey::from_pkcs8_der(&der[..47]);
    assert!(matches!(r, Err(Error::MalformedContainer)));
}

#[test]
fn wrong_outer_tag_rejected() {
    let mut der = sample_container();
    der[0] = 0x31;
    let r = SigningKey::from_pkcs8_der(&der);
    assert!(matches!(r, Err(Error::MalformedContainer)));
}

#[test]
fn empty_input_rejected() {
    let r = SigningKey::from_pkcs8_der(&[]);
    assert!(matches!(r, Err(Error::MalformedContainer)));
}

#[test]
fn wrong_payload_length_rejected() {
    // A consistently-framed container whose payload holds 33 seed bytes.
    let mut der = vec![
        0x30u8, 0x2f, 0x02, 0x01, 0x00, 0x30, 0x05, 0x06, 0x03, 0x2b, 0x65, 0x70, 0x04, 0x23,
        0x04, 0x20,
    ];
    der.extend_from_slice(&[0u8; 33]);
    assert_eq!(der.len(), 49);
    let r = SigningKey::from_pkcs8_der(&der);
    assert!(matches!(r, Err(Error::MalformedContainer)));
}

#[test]
fn wrong_version_rejected() {
    let mut der = sample_container();
    der[4] = 0x01;
    let r = SigningKey::from_pkcs8_der(&der);
    assert!(matches!(r, Err(Error::MalformedContainer)));
}

#[test]
fn pkcs8_library_parses_our_container() {
    let der = sample_container();
    let pki = pkcs8::PrivateKeyInfoRef::try_from(der.as_slice()).unwrap();
    assert_eq!(
        pki.algorithm.oid,
        pkcs8::ObjectIdentifier::new_unwrap("1.3.101.112")
    );
    assert!(pki.algorithm.parameters.is_none());
    let payload = pki.private_key.as_bytes();
    assert_eq!(payload.len(), 34);
    assert_eq!(&payload[..2], &[0x04, 0x20]);
    assert_eq!(&payload[2..], sample_seed().as_slice());
}
