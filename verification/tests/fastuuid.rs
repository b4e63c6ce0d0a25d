use std::collections::HashMap;

use fastuuid::Generator;

#[test]
fn next() {
    let generator = Generator::new();
    let mut first = generator.next();

    for _ in 0..10 {
        let second = generator.next();
        assert_eq!(
            first.len(),
            second.len(),
            "Arrays don't have the same length"
        );

        first = second;
    }
}

#[test]
fn hex128() {
    let generator = Generator::new();
    let mut buffer: [u8; 36] = [0; 36];

    assert!(
        Generator::is_valid_hex128(&generator.hex128_as_str(&mut buffer).unwrap()[..]),
        "should be valid hex"
    );
}

#[test]
fn uniqueness() {
    let mut uuids: HashMap<String, bool> = HashMap::new();
    let generator = Generator::new();
    let mut buffer: [u8; 36] = [0; 36];

    for _ in 0..100000 {
        let next = generator.hex128_as_str(&mut buffer).unwrap();
        assert!(!uuids.contains_key(&next.to_string()), "duplicate found");
        uuids.insert(next.to_string(), true);
    }
}

#[test]
fn valid_hex() {
    // valid v4 uuid
    assert!(
        Generator::is_valid_hex128("11febf98-c108-4383-bb1e-739ffcd44341"),
        "should be valid hex"
    );

    // invalid uuid
    assert!(
        !Generator::is_valid_hex128("11febf98-c108-4383-bb1e-739ffcd4434"),
        "should be invalid hex"
    );
    assert!(
        !Generator::is_valid_hex128("11febf98-c108-4383-bb1e-739ffcd443412"),
        "should be invalid hex"
    );
    assert!(
        !Generator::is_valid_hex128("11febf98c1-08-4383-bb1e-739ffcd44341"),
        "should be invalid hex"
    );
    assert!(
        !Generator::is_valid_hex128("11febf98-c1084-383-bb1e-739ffcd44341"),
        "should be invalid hex"
    );
    assert!(
        !Generator::is_valid_hex128("11febf98-c108-4383bb-1e-739ffcd44341"),
        "should be invalid hex"
    );
    assert!(
        !Generator::is_valid_hex128("11febf98-c108-4383-bb1e7-39ffcd44341"),
        "should be invalid hex"
    );
}

#[test]
fn encode_known_value() {
    let uuid: [u8; 24] = [
        0, 1, 2, 3, 4, 5, 6, 7, 8, 9, 10, 11, 12, 13, 14, 15, 16, 17, 18, 19, 20, 21, 22, 23,
    ];
    let mut buffer: [u8; 36] = [0; 36];
    let encoded = Generator::hex128_from_bytes(&uuid, &mut buffer);
    assert_eq!(encoded, "00010203-0405-4907-8806-0a0b0c0d0e0f".as_bytes());
    assert!(Generator::is_valid_hex128("00010203-0405-4907-8806-0a0b0c0d0e0f"));
}

#[test]
fn encode_deterministic() {
    let uuid: [u8; 24] = [
        0xde, 0xad, 0xbe, 0xef, 0x01, 0x23, 0x45, 0x67, 0x89, 0xab, 0xcd, 0xef, 0x10, 0x32, 0x54,
        0x76, 0x98, 0xba, 0xdc, 0xfe, 0x00, 0xff, 0x00, 0xff,
    ];
    let mut first: [u8; 36] = [0; 36];
    let mut second: [u8; 36] = [0; 36];
    Generator::hex128_from_bytes(&uuid, &mut first);
    Generator::hex128_from_bytes(&uuid, &mut second);
    assert_eq!(first, second);
}

#[test]
fn encoded_output_is_valid() {
    let generator = Generator::new();
    for _ in 0..1000 {
        let s = generator.hex128_as_string().unwrap();
        assert!(Generator::is_valid_hex128(&s));
    }
}

#[test]
fn shape() {
    let generator = Generator::new();
    let id = generator.next();
    assert_eq!(id.len(), 24);

    let s = generator.hex128_as_string().unwrap();
    assert_eq!(s.len(), 36);
    let bytes = s.as_bytes();
    assert_eq!(bytes[8], b'-');
    assert_eq!(bytes[13], b'-');
    assert_eq!(bytes[18], b'-');
    assert_eq!(bytes[23], b'-');
}

#[test]
fn next_keeps_seed_tail() {
    let generator = Generator::new();
    let first = generator.next();
    let second = generator.next();
    assert_eq!(first[8..24], second[8..24]);
    assert_ne!(first[0..8], second[0..8]);
}

#[test]
fn valid_hex_groups() {
    assert!(Generator::valid_hex("0123456789abcdef"));
    assert!(Generator::valid_hex(""));
    assert!(!Generator::valid_hex("abcg"));
    assert!(!Generator::valid_hex("ABC"));
    assert!(!Generator::valid_hex("12-34"));
}
