use android_keystore::keypair::reencode_x509_string;
use android_keystore::HostError;
use base64::Engine;

#[test]
fn reencode_is_identity_on_standard_encodings() {
    // "aGVsbG8=" encodes the bytes of "hello"; decoding and
    // re-encoding must return the identical string, which fails if
    // either direction mangles the data.
    assert_eq!(
        reencode_x509_string("aGVsbG8=").unwrap(),
        "aGVsbG8=".to_string()
    );
    // The empty string encodes the empty byte sequence.
    assert_eq!(reencode_x509_string("").unwrap(), String::new());
}

#[test]
fn reencode_agrees_with_engine_on_der_like_bytes() {
    // A SubjectPublicKeyInfo-style prefix, encoded with the same
    // standard padded engine the library binds to.
    let der: &[u8] = &[
        0x30, 0x82, 0x01, 0x22, 0x30, 0x0d, 0x06, 0x09, 0x2a, 0x86, 0x48, 0x86, 0xf7, 0x0d, 0x01,
        0x01, 0x01, 0x05, 0x00,
    ];
    let encoded = base64::engine::general_purpose::STANDARD.encode(der);
    assert_eq!(reencode_x509_string(&encoded).unwrap(), encoded);
}

#[test]
fn non_encodings_fail_with_typed_base64_error() {
    // Not in the alphabet.
    assert!(matches!(
        reencode_x509_string("!!!!"),
        Err(HostError::Base64(_))
    ));
    // Length not a multiple of four under required canonical padding.
    assert!(matches!(
        reencode_x509_string("aGVsbG8"),
        Err(HostError::Base64(_))
    ));
    // Non-canonical trailing bits are rejected by the bound engine.
    assert!(matches!(
        reencode_x509_string("aGVsbG9="),
        Err(HostError::Base64(_))
    ));
}
