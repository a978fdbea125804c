use ubr::git::oid::{Oid, OidVisitor};

#[test]
fn test_deserialize() {
    let oid_as_string = "52a4d284cd73150a5c62e5e546381db82182032c";
    let text: String = serde_json::from_str(&format!(r#""{}""#, oid_as_string)).unwrap();
    let deserialized = OidVisitor.visit_str(&text).unwrap();
    assert_eq!(deserialized, Oid::parse(oid_as_string).unwrap());
}

#[test]
fn test_deserialize_invalid_oid() {
    let oid_as_string = "Invalid";
    let text: String = serde_json::from_str(&format!(r#""{}""#, oid_as_string)).unwrap();
    let deserialized = OidVisitor.visit_str(&text);
    assert!(deserialized.is_err());
    assert_eq!(deserialized.unwrap_err(), "Invalid OID: 'Invalid'");
}

#[test]
fn test_deserialize_invalid_json() {
    let oid_as_string = "52a4d284cd73150a5c62e5e546381db82182032c";
    let deserialized: Result<String, _> = serde_json::from_str(&oid_as_string.to_string());
    assert!(deserialized.is_err());
}

#[test]
fn test_serialize() {
    let oid_as_string = "52a4d284cd73150a5c62e5e546381db82182032c";
    let serialized = serde_json::to_string(&Oid::parse(oid_as_string).unwrap().to_hex()).unwrap();
    assert_eq!(serialized, format!(r#""{}""#, oid_as_string));
}

#[test]
fn parse_reads_the_bytes_that_the_digits_spell() {
    let id = Oid::parse("52a4d284cd73150a5c62e5e546381db82182032c").unwrap();
    assert_eq!(
        id.as_bytes(),
        [
            0x52, 0xa4, 0xd2, 0x84, 0xcd, 0x73, 0x15, 0x0a, 0x5c, 0x62, 0xe5, 0xe5, 0x46, 0x38, 0x1d,
            0xb8, 0x21, 0x82, 0x03, 0x2c
        ]
    );
    assert_eq!(Oid::from_bytes(id.as_bytes()), id);
}

#[test]
fn parse_takes_either_case_and_short_texts() {
    let lower = Oid::parse("abcdef0123456789abcdef0123456789abcdef01").unwrap();
    let upper = Oid::parse("ABCDEF0123456789ABCDEF0123456789ABCDEF01").unwrap();
    assert_eq!(lower, upper);
    assert_eq!(upper.to_hex(), "abcdef0123456789abcdef0123456789abcdef01");

    let short = Oid::parse("abc").unwrap();
    let mut bytes = [0u8; 20];
    bytes[0] = 0xab;
    bytes[1] = 0xc0;
    assert_eq!(short.as_bytes(), bytes);
    assert_eq!(short.to_hex(), "abc0000000000000000000000000000000000000");
    assert_eq!(Oid::parse("7").unwrap().to_hex(), "7000000000000000000000000000000000000000");
}

#[test]
fn parse_refuses_what_spells_no_id() {
    assert!(Oid::parse("").is_none());
    assert!(Oid::parse("52a4d284cd73150a5c62e5e546381db82182032c0").is_none());
    assert!(Oid::parse("52a4d284cd73150a5c62e5e546381db82182032g").is_none());
    assert!(Oid::parse(" 52a4").is_none());
    assert!(Oid::parse("52a4\n").is_none());
    assert!(Oid::parse("\u{ff11}\u{ff12}").is_none());
    assert!(Oid::parse("12\u{0}34").is_none());
}

#[test]
fn to_hex_writes_forty_lower_case_digits() {
    let mut bytes = [0u8; 20];
    for (i, byte) in bytes.iter_mut().enumerate() {
        *byte = (i * 13 + 7) as u8;
    }
    let id = Oid::from_bytes(bytes);
    let hex = id.to_hex();
    let expected: String = bytes.iter().map(|b| format!("{:02x}", b)).collect();
    assert_eq!(hex, expected);
    assert_eq!(hex.len(), 40);
    assert_eq!(Oid::parse(&hex), Some(id));
    assert_eq!(Oid::from_bytes([0xff; 20]).to_hex(), "f".repeat(40));
    assert_eq!(Oid::from_bytes([0; 20]).to_hex(), "0".repeat(40));
}

#[test]
fn ids_are_equal_when_their_bytes_are() {
    let a = Oid::from_bytes([1; 20]);
    let mut other = [1u8; 20];
    other[19] = 2;
    let b = Oid::from_bytes(other);
    assert_eq!(a, Oid::from_bytes([1; 20]));
    assert_ne!(a, b);
}

#[test]
fn visitor_says_what_it_expects() {
    assert_eq!(OidVisitor.expecting(), "Expecting an Oid as a String\n");
}
