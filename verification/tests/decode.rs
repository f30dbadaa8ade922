use aes_bench::decode::{decode_hex, HexError};

#[test]
fn decodes_two_digits_to_a_byte() {
    assert_eq!(decode_hex("00"), Ok(vec![0u8]));
    assert_eq!(decode_hex("ff"), Ok(vec![255u8]));
    assert_eq!(decode_hex("0a10"), Ok(vec![10u8, 16]));
    assert_eq!(decode_hex("48656c6c6f"), Ok(b"Hello".to_vec()));
    assert_eq!(decode_hex(""), Ok(Vec::new()));
}

#[test]
fn decodes_either_case() {
    assert_eq!(decode_hex("f9b4ca"), Ok(vec![0xf9u8, 0xb4, 0xca]));
    assert_eq!(decode_hex("F9B4CA"), Ok(vec![0xf9u8, 0xb4, 0xca]));
    assert_eq!(decode_hex("f9B4Ca"), Ok(vec![0xf9u8, 0xb4, 0xca]));
}

#[test]
fn decodes_the_default_key() {
    let key: Vec<u8> = (0u8..16).collect();
    assert_eq!(decode_hex("000102030405060708090a0b0c0d0e0f"), Ok(key));
    let iv: Vec<u8> = (0u8..16).rev().collect();
    assert_eq!(decode_hex("0f0e0d0c0b0a09080706050403020100"), Ok(iv));
}

#[test]
fn odd_length_is_refused_first() {
    assert_eq!(decode_hex("123"), Err(HexError::OddLength));
    assert_eq!(decode_hex("0"), Err(HexError::OddLength));
    assert_eq!(decode_hex("zzz"), Err(HexError::OddLength));
}

#[test]
fn first_bad_character_is_reported() {
    assert_eq!(decode_hex("fo"), Err(HexError::InvalidCharacter { c: 'o', index: 1 }));
    assert_eq!(decode_hex("g0"), Err(HexError::InvalidCharacter { c: 'g', index: 0 }));
    assert_eq!(decode_hex("00 1"), Err(HexError::InvalidCharacter { c: ' ', index: 2 }));
    assert_eq!(decode_hex("0011xy"), Err(HexError::InvalidCharacter { c: 'x', index: 4 }));
    assert_eq!(decode_hex("00/:"), Err(HexError::InvalidCharacter { c: '/', index: 2 }));
    assert_eq!(decode_hex("0@"), Err(HexError::InvalidCharacter { c: '@', index: 1 }));
    assert_eq!(decode_hex("0G"), Err(HexError::InvalidCharacter { c: 'G', index: 1 }));
    assert_eq!(decode_hex("0`"), Err(HexError::InvalidCharacter { c: '`', index: 1 }));
}

#[test]
fn every_byte_comes_back_from_its_notation() {
    for value in 0u16..256 {
        let byte = value as u8;
        assert_eq!(decode_hex(&format!("{:02x}", byte)), Ok(vec![byte]));
        assert_eq!(decode_hex(&format!("{:02X}", byte)), Ok(vec![byte]));
    }
}
