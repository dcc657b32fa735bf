use credence::delegation::SchemeTag;

#[test]
fn test_scheme_tag_from_u8() {
    assert_eq!(SchemeTag::try_from_u32(0), Some(SchemeTag::Ed25519));
    assert_eq!(SchemeTag::try_from_u32(1), Some(SchemeTag::Secp256r1));
    assert_eq!(SchemeTag::try_from_u32(2), Some(SchemeTag::MLDSA44));
    assert_eq!(SchemeTag::try_from_u32(3), None);
    assert_eq!(SchemeTag::try_from_u32(255), None);
}

#[test]
fn test_scheme_tag_to_u32() {
    assert_eq!(SchemeTag::Ed25519.to_u32(), 0);
    assert_eq!(SchemeTag::Secp256r1.to_u32(), 1);
    assert_eq!(SchemeTag::MLDSA44.to_u32(), 2);
}

#[test]
fn test_default_scheme() {
    assert_eq!(SchemeTag::default_scheme(), SchemeTag::Ed25519);
}

#[test]
fn test_is_known() {
    assert!(SchemeTag::is_known(0));
    assert!(SchemeTag::is_known(1));
    assert!(SchemeTag::is_known(2));
    assert!(!SchemeTag::is_known(3));
    assert!(!SchemeTag::is_known(255));
}

#[test]
fn test_ed25519_backwards_compatible() {
    // Scheme 0 is the default, so payloads that name no scheme verify as Ed25519.
    assert_eq!(SchemeTag::Ed25519.to_u32(), 0);
    assert_eq!(SchemeTag::default_scheme(), SchemeTag::Ed25519);
    assert!(SchemeTag::is_known(0));
}

#[test]
fn scheme_tag_round_trips_through_its_code() {
    for tag in [SchemeTag::Ed25519, SchemeTag::Secp256r1, SchemeTag::MLDSA44] {
        assert_eq!(SchemeTag::try_from_u32(tag.to_u32()), Some(tag));
    }
}
