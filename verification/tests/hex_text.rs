use ccip_read::hex::{
    bytes_to_hex, decode, decode_chars, decode_prefixed, decode_prefixed_chars, digit_char,
    digit_value, encode, encode_chars, is_digit, prefixed_chars, HexError,
};

#[test]
fn encode_writes_two_lower_case_digits_per_byte() {
    assert_eq!(encode(&[0x00, 0x0f, 0xa0, 0xff]), "000fa0ff");
    assert_eq!(encode(&[]), "");
}

#[test]
fn bytes_to_hex_puts_the_prefix_in_front() {
    assert_eq!(bytes_to_hex(&[0x12, 0x34]), "0x1234");
    assert_eq!(bytes_to_hex(&[]), "0x");
}

#[test]
fn decode_reads_both_cases() {
    assert_eq!(decode("000fA0Ff"), Ok(vec![0x00, 0x0f, 0xa0, 0xff]));
    assert_eq!(decode(""), Ok(vec![]));
}

#[test]
fn decode_rejects_odd_length() {
    assert_eq!(decode("123"), Err(HexError::OddLength));
    assert_eq!(decode("zzz"), Err(HexError::OddLength));
}

#[test]
fn decode_rejects_other_characters() {
    assert_eq!(decode("zz"), Err(HexError::InvalidDigit));
    assert_eq!(decode("0x12"), Err(HexError::InvalidDigit));
    assert_eq!(decode("12 4"), Err(HexError::InvalidDigit));
}

#[test]
fn decode_prefixed_wants_the_prefix() {
    assert_eq!(decode_prefixed("0x1234"), Some(vec![0x12, 0x34]));
    assert_eq!(decode_prefixed("0x"), Some(vec![]));
    assert_eq!(decode_prefixed("1234"), None);
    assert_eq!(decode_prefixed("0X1234"), None);
    assert_eq!(decode_prefixed("0x0x1234"), None);
    assert_eq!(decode_prefixed("0x123"), None);
    assert_eq!(decode_prefixed("0xzz"), None);
    assert_eq!(decode_prefixed(""), None);
    assert_eq!(decode_prefixed("0"), None);
}

#[test]
fn sender_address_is_written_in_full() {
    let sender: [u8; 20] = [
        0x00, 0xc6, 0x6a, 0x00, 0x00, 0x01, 0x02, 0x03, 0x04, 0x05, 0x06, 0x07, 0x08, 0x09, 0x0a,
        0x0b, 0x00, 0x00, 0x7b, 0x6f,
    ];
    let text = bytes_to_hex(&sender);
    assert_eq!(text, "0x00c66a00000102030405060708090a0b00007b6f");
    assert_eq!(text.len(), 42);
    assert_eq!(decode_prefixed(&text), Some(sender.to_vec()));
}

#[test]
fn every_byte_survives_encoding_and_decoding() {
    let all: Vec<u8> = (0..=255u8).collect();
    let text = encode(&all);
    assert_eq!(text.len(), 512);
    assert_eq!(decode(&text), Ok(all.clone()));
    assert_eq!(decode_prefixed(&bytes_to_hex(&all)), Some(all));
}

#[test]
fn digit_value_reads_each_digit() {
    let digits = "0123456789abcdef";
    for (n, c) in digits.chars().enumerate() {
        assert_eq!(digit_value(c), Some(n as u8));
        assert_eq!(digit_value(c.to_ascii_uppercase()), Some(n as u8));
        assert_eq!(digit_char(n as u8), c);
        assert!(is_digit(c));
    }
}

#[test]
fn digit_value_rejects_the_neighbours_of_the_digits() {
    for c in ['/', ':', '@', 'G', '`', 'g', 'x', ' ', '\u{ff11}', '\u{0}'] {
        assert_eq!(digit_value(c), None);
        assert!(!is_digit(c));
    }
}

#[test]
fn character_forms_agree_with_text_forms() {
    let bytes = [0x00u8, 0x9a, 0xff];
    assert_eq!(encode_chars(&bytes), vec!['0', '0', '9', 'a', 'f', 'f']);
    assert_eq!(prefixed_chars(&bytes), vec!['0', 'x', '0', '0', '9', 'a', 'f', 'f']);
    assert_eq!(decode_chars(&['0', '0', '9', 'A', 'f', 'F']), Ok(bytes.to_vec()));
    assert_eq!(decode_chars(&['0']), Err(HexError::OddLength));
    assert_eq!(decode_chars(&['0', 'x']), Err(HexError::InvalidDigit));
    assert_eq!(decode_prefixed_chars(&['0', 'x', '0', '0', '9', 'a']), Some(vec![0x00, 0x9a]));
    assert_eq!(decode_prefixed_chars(&['0', '0', '9', 'a']), None);
}
