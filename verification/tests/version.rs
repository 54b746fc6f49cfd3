use magnus::version::{find_byte, gate, parse_api_version, parse_u8_decimal, ApiVersion};

#[test]
fn parses_well_formed_versions() {
    assert_eq!(
        parse_api_version(&b"3.1".to_vec()),
        Some(ApiVersion { major: 3, minor: 1 })
    );
    assert_eq!(
        parse_api_version(&b"2.7".to_vec()),
        Some(ApiVersion { major: 2, minor: 7 })
    );
    assert_eq!(
        parse_api_version(&b"03.10".to_vec()),
        Some(ApiVersion { major: 3, minor: 10 })
    );
}

#[test]
fn rejects_malformed_versions() {
    assert_eq!(parse_api_version(&b"banana".to_vec()), None);
    assert_eq!(parse_api_version(&b"3.".to_vec()), None);
    assert_eq!(parse_api_version(&b".7".to_vec()), None);
    assert_eq!(parse_api_version(&b"300.1".to_vec()), None);
    assert_eq!(parse_api_version(&b"3.1.2".to_vec()), None);
    assert_eq!(parse_api_version(&b"".to_vec()), None);
}

#[test]
fn decimal_components_parse_exactly() {
    assert_eq!(parse_u8_decimal(&b"0".to_vec()), Some(0));
    assert_eq!(parse_u8_decimal(&b"255".to_vec()), Some(255));
    assert_eq!(parse_u8_decimal(&b"256".to_vec()), None);
    assert_eq!(parse_u8_decimal(&b"007".to_vec()), Some(7));
    assert_eq!(parse_u8_decimal(&b"".to_vec()), None);
    assert_eq!(parse_u8_decimal(&b"1x".to_vec()), None);
    assert_eq!(find_byte(&b"2.7".to_vec(), b'.'), Some(1));
    assert_eq!(find_byte(&b"27".to_vec(), b'.'), None);
}

#[test]
fn gates_order_versions_by_major_then_minor() {
    let installed = ApiVersion { major: 3, minor: 0 };
    let against_2_7 = gate(installed, ApiVersion { major: 2, minor: 7 });
    assert!(against_2_7.gt && against_2_7.gte && !against_2_7.eq);
    assert!(!against_2_7.lt && !against_2_7.lte);
    let against_3_0 = gate(installed, ApiVersion { major: 3, minor: 0 });
    assert!(against_3_0.eq && against_3_0.gte && against_3_0.lte);
    assert!(!against_3_0.lt && !against_3_0.gt);
    let against_3_1 = gate(installed, ApiVersion { major: 3, minor: 1 });
    assert!(against_3_1.lt && against_3_1.lte);
    assert!(!against_3_1.gte && !against_3_1.gt && !against_3_1.eq);
}

#[test]
fn capability_support_follows_the_version() {
    assert!(!ApiVersion { major: 2, minor: 6 }.supports_compaction());
    assert!(ApiVersion { major: 2, minor: 7 }.supports_compaction());
    assert!(ApiVersion { major: 3, minor: 1 }.supports_compaction());
    assert!(!ApiVersion { major: 2, minor: 7 }.supports_frozen_shareable());
    assert!(ApiVersion { major: 3, minor: 0 }.supports_frozen_shareable());
    assert!(ApiVersion { major: 2, minor: 7 }.ge(2, 7));
    assert!(!ApiVersion { major: 2, minor: 7 }.ge(3, 0));
}
