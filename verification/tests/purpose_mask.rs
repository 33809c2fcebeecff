use android_keystore::keygen_parameter_spec::{purpose_mask, purposes_from_mask, Purpose};

#[test]
fn individual_purpose_values() {
    assert_eq!(Purpose::Encrypt.value(), 1);
    assert_eq!(Purpose::Decrypt.value(), 2);
    assert_eq!(Purpose::Sign.value(), 4);
    assert_eq!(Purpose::Verify.value(), 8);
    assert_eq!(Purpose::WrapKey.value(), 32);
    assert_eq!(Purpose::AgreeKey.value(), 64);
    assert_eq!(Purpose::AttestKey.value(), 128);
}

#[test]
fn mask_is_bitwise_or_of_values() {
    assert_eq!(purpose_mask(&[]), 0);
    assert_eq!(purpose_mask(&[Purpose::Encrypt]), 1);
    assert_eq!(purpose_mask(&[Purpose::Encrypt, Purpose::Decrypt]), 1 | 2);
    assert_eq!(purpose_mask(&[Purpose::Sign, Purpose::Verify]), 4 | 8);
    assert_eq!(
        purpose_mask(&[
            Purpose::Encrypt,
            Purpose::Decrypt,
            Purpose::Sign,
            Purpose::Verify,
            Purpose::WrapKey,
            Purpose::AgreeKey,
            Purpose::AttestKey,
        ]),
        1 | 2 | 4 | 8 | 32 | 64 | 128
    );
}

#[test]
fn mask_ignores_repetition_and_order() {
    assert_eq!(purpose_mask(&[Purpose::Encrypt, Purpose::Encrypt]), 1);
    assert_eq!(
        purpose_mask(&[Purpose::Sign, Purpose::Encrypt]),
        purpose_mask(&[Purpose::Encrypt, Purpose::Sign])
    );
}

#[test]
fn mask_decomposes_losslessly() {
    let sets: &[&[Purpose]] = &[
        &[],
        &[Purpose::Encrypt],
        &[Purpose::Encrypt, Purpose::Decrypt],
        &[Purpose::Sign, Purpose::AttestKey],
        &[Purpose::WrapKey, Purpose::AgreeKey, Purpose::Verify],
        &[
            Purpose::Encrypt,
            Purpose::Decrypt,
            Purpose::Sign,
            Purpose::Verify,
            Purpose::WrapKey,
            Purpose::AgreeKey,
            Purpose::AttestKey,
        ],
    ];
    for set in sets {
        let m = purpose_mask(set);
        let decomposed = purposes_from_mask(m);
        // Each original purpose appears exactly once.
        for p in set.iter() {
            assert_eq!(decomposed.iter().filter(|q| *q == p).count(), 1);
        }
        // Nothing else appears, and the mask is rebuilt unchanged.
        for q in decomposed.iter() {
            assert!(set.contains(q));
        }
        assert_eq!(purpose_mask(decomposed.as_slice()), m);
    }
}

#[test]
fn decompose_full_mask_gives_each_purpose_once() {
    let decomposed = purposes_from_mask(0xef);
    assert_eq!(
        decomposed,
        vec![
            Purpose::Encrypt,
            Purpose::Decrypt,
            Purpose::Sign,
            Purpose::Verify,
            Purpose::WrapKey,
            Purpose::AgreeKey,
            Purpose::AttestKey,
        ]
    );
}

#[test]
fn decompose_ignores_unsupported_bits() {
    // Bit 16 is not assigned to any purpose; nothing may map to it.
    assert!(purposes_from_mask(0x10).is_empty());
    assert_eq!(purposes_from_mask(0x10 | 1), vec![Purpose::Encrypt]);
    assert!(purposes_from_mask(0).is_empty());
}
