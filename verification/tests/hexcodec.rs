use uplc_zkvm::hexcodec::{hex_decode, hex_encode, trim_bytes};

#[test]
fn decode_lowercase() {
    assert_eq!(hex_decode(b"00ff10"), Some(vec![0x00, 0xff, 0x10]));
}

#[test]
fn decode_uppercase_and_mixed() {
    assert_eq!(hex_decode(b"DEADbeef"), Some(vec![0xde, 0xad, 0xbe, 0xef]));
}

#[test]
fn decode_empty_is_empty() {
    assert_eq!(hex_decode(b""), Some(vec![]));
}

#[test]
fn decode_odd_length_fails() {
    assert_eq!(hex_decode(b"abc"), None);
}

#[test]
fn decode_non_digit_fails() {
    assert_eq!(hex_decode(b"zz"), None);
    assert_eq!(hex_decode(b"0g"), None);
    assert_eq!(hex_decode(b"a b"), None);
}

#[test]
fn decode_agrees_with_hex_crate() {
    let samples: &[&str] = &["", "00", "0123456789abcdef", "FFEE", "010000481501"];
    for s in samples {
        assert_eq!(hex_decode(s.as_bytes()), hex::decode(s).ok());
    }
}

#[test]
fn encode_agrees_with_hex_crate() {
    let samples: &[&[u8]] = &[b"", b"\x00", b"\xde\xad\xbe\xef", b"hello"];
    for s in samples {
        assert_eq!(hex_encode(s), hex::encode(s));
    }
}

#[test]
fn encode_is_lowercase_two_digits_per_byte() {
    let e = hex_encode(&[0xAB, 0x01]);
    assert_eq!(e, "ab01");
    assert_eq!(e.len(), 4);
}

#[test]
fn round_trip_encode_decode() {
    let data = vec![0u8, 1, 2, 254, 255, 16, 42];
    let encoded = hex_encode(&data);
    assert_eq!(hex_decode(encoded.as_bytes()), Some(data));
}

#[test]
fn trim_removes_surrounding_whitespace() {
    assert_eq!(trim_bytes(b"  ab\n"), b"ab");
    assert_eq!(trim_bytes(b"\t\r\nab01 \x0b\x0c"), b"ab01");
    assert_eq!(trim_bytes(b"ab"), b"ab");
    assert_eq!(trim_bytes(b"   "), b"");
    assert_eq!(trim_bytes(b""), b"");
}

#[test]
fn trim_keeps_inner_whitespace() {
    assert_eq!(trim_bytes(b" a b "), b"a b");
}
