//! Tests for the Base58 helpers.

use k256_sdk::encoding::{base58_decode, base58_encode, is_valid_pubkey, Base58Error};

#[test]
fn test_valid_pubkey() {
    // Valid Solana pubkey (SOL mint)
    assert!(is_valid_pubkey(
        "So11111111111111111111111111111111111111112"
    ));
    // Valid USDC mint
    assert!(is_valid_pubkey(
        "EPjFWdd5AufqSSqeM2qN1xzybapC8G4wEGGkZwyTDt1v"
    ));
}

#[test]
fn test_invalid_pubkey() {
    assert!(!is_valid_pubkey(""));
    assert!(!is_valid_pubkey("tooshort"));
    assert!(!is_valid_pubkey("invalid!@#$"));
}

#[test]
fn test_base58_roundtrip() {
    let original = vec![1, 2, 3, 4, 5, 6, 7, 8, 9, 10];
    let encoded = base58_encode(&original);
    let decoded = base58_decode(&encoded).unwrap();
    assert_eq!(original, decoded);
}

#[test]
fn encode_known_values() {
    assert_eq!(base58_encode(&[0u8; 32]), "11111111111111111111111111111111");
    assert_eq!(
        base58_encode(&[0x04, 0x30, 0x5e, 0x2b, 0x24, 0x73, 0xf0, 0x58]),
        "he11owor1d"
    );
    assert_eq!(base58_encode(&[]), "");
}

#[test]
fn decode_rejects_bad_characters() {
    match base58_decode("0OIl") {
        Err(Base58Error::InvalidCharacter { character, index }) => {
            assert_eq!(character, '0');
            assert_eq!(index, 0);
        }
        other => panic!("unexpected {:?}", other),
    }
    match base58_decode("ab\u{00e9}") {
        Err(Base58Error::NonAsciiCharacter { index }) => assert_eq!(index, 2),
        other => panic!("unexpected {:?}", other),
    }
}
