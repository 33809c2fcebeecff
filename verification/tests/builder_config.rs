use android_keystore::keygen_parameter_spec::{
    auth_type_mask, AuthType, Builder, Digest, Padding, Purpose,
};

#[test]
fn auth_type_values_and_mask() {
    assert_eq!(AuthType::DeviceCredential.value(), 1);
    assert_eq!(AuthType::BiometricStrong.value(), 2);
    assert_eq!(auth_type_mask(&[]), 0);
    assert_eq!(auth_type_mask(&[AuthType::DeviceCredential]), 1);
    assert_eq!(auth_type_mask(&[AuthType::BiometricStrong]), 2);
    assert_eq!(
        auth_type_mask(&[AuthType::DeviceCredential, AuthType::BiometricStrong]),
        1 | 2
    );
}

#[test]
fn new_builder_combines_purposes_and_sets_nothing_else() {
    let b = Builder::new("my-key", &[Purpose::Encrypt, Purpose::Decrypt]);
    assert_eq!(b.alias(), "my-key");
    assert_eq!(b.purposes(), 1 | 2);
    assert!(b.digests().is_none());
    assert!(b.encryption_paddings().is_none());
    assert!(b.user_authentication_parameters().is_none());
    assert!(b.user_authentication_required().is_none());
}

#[test]
fn user_authentication_parameters_build_expected_bitmask() {
    // Timeout 30 with both authentication types must reach the host
    // call as (30, 1|2 = 3).
    let b = Builder::new("alias", &[Purpose::Sign]).set_user_authentication_parameters(
        30,
        &[AuthType::DeviceCredential, AuthType::BiometricStrong],
    );
    assert_eq!(b.user_authentication_parameters(), Some((30, 3)));
    assert_eq!(b.purposes(), 4);
    assert_eq!(b.alias(), "alias");
}

#[test]
fn builder_records_digests_and_paddings_in_order() {
    let b = Builder::new("k", &[Purpose::Sign])
        .set_digests(&[Digest::Sha256, Digest::Sha512])
        .set_encryption_paddings(&[Padding::RsaOaep, Padding::NoPadding]);
    assert_eq!(
        b.digests().unwrap().as_slice(),
        &[Digest::Sha256, Digest::Sha512]
    );
    assert_eq!(
        b.encryption_paddings().unwrap().as_slice(),
        &[Padding::RsaOaep, Padding::NoPadding]
    );
}

#[test]
fn builder_records_user_authentication_required() {
    let b = Builder::new("k", &[Purpose::Sign]).set_user_authentication_required(true);
    assert_eq!(b.user_authentication_required(), Some(true));
    let b = Builder::new("k", &[Purpose::Sign]).set_user_authentication_required(false);
    assert_eq!(b.user_authentication_required(), Some(false));
}

#[test]
fn later_settings_keep_earlier_ones() {
    let b = Builder::new("chained", &[Purpose::Encrypt, Purpose::Sign])
        .set_digests(&[Digest::Sha256])
        .set_user_authentication_parameters(30, &[AuthType::DeviceCredential])
        .set_user_authentication_required(true);
    assert_eq!(b.alias(), "chained");
    assert_eq!(b.purposes(), 1 | 4);
    assert_eq!(b.digests().unwrap().as_slice(), &[Digest::Sha256]);
    assert_eq!(b.user_authentication_parameters(), Some((30, 1)));
    assert_eq!(b.user_authentication_required(), Some(true));
}
