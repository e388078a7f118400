use vorleser_server::helpers::uuid::Uuid;

#[test]
fn parses_hyphenated_text() {
    let u = Uuid::parse_str("de362999-55a1-4d91-9adc-b2ca2c013c97").unwrap();
    assert_eq!(u.value, 0xde362999_55a1_4d91_9adc_b2ca2c013c97);
    assert_eq!(u.hyphenated(), "de362999-55a1-4d91-9adc-b2ca2c013c97");
}

#[test]
fn rejects_non_identifiers() {
    assert!(Uuid::parse_str("secret").is_err());
    assert!(Uuid::parse_str("de362999-55a1-4d91-9adc-b2ca2c013c9g").is_err());
}

#[test]
fn hyphenated_roundtrip() {
    let u = Uuid { value: 0x0123_4567_89ab_cdef_0011_2233_4455_6677 };
    let text = u.hyphenated();
    assert_eq!(text, "01234567-89ab-cdef-0011-223344556677");
    assert_eq!(Uuid::parse_str(&text).unwrap(), u);
}

#[test]
fn random_identifiers_are_version_four() {
    let u = Uuid::new_v4();
    assert_eq!((u.value >> 76) & 0xf, 4);
    assert_eq!((u.value >> 62) & 0x3, 2);
    assert_ne!(Uuid::new_v4(), u);
}
