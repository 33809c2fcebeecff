use android_keystore::keygen_parameter_spec::{Digest, Padding};
use android_keystore::keypair_generator::{Algorithm, Provider};

#[test]
fn digest_tokens_match_host_names() {
    assert_eq!(Digest::NoDigest.name(), "NONE");
    assert_eq!(Digest::Md5.name(), "MD5");
    assert_eq!(Digest::Sha1.name(), "SHA-1");
    assert_eq!(Digest::Sha224.name(), "SHA-224");
    assert_eq!(Digest::Sha256.name(), "SHA-256");
    assert_eq!(Digest::Sha384.name(), "SHA-384");
    assert_eq!(Digest::Sha512.name(), "SHA-512");
}

#[test]
fn padding_tokens_match_host_names() {
    assert_eq!(Padding::NoPadding.name(), "NoPadding");
    assert_eq!(Padding::Pkcs7.name(), "PKCS7Padding");
    assert_eq!(Padding::RsaOaep.name(), "OAEPPadding");
    assert_eq!(Padding::RsaPkcs1.name(), "PKCS1Padding");
}

#[test]
fn algorithm_tokens_match_host_names() {
    assert_eq!(Algorithm::DH.name(), "DH");
    assert_eq!(Algorithm::DSA.name(), "DSA");
    assert_eq!(Algorithm::EC.name(), "EC");
    assert_eq!(Algorithm::RSA.name(), "RSA");
    assert_eq!(Algorithm::XDH.name(), "XDH");
}

#[test]
fn provider_token_matches_host_name() {
    assert_eq!(Provider::AndroidKeyStore.name(), "AndroidKeyStore");
}
