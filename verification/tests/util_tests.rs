use rustyboy::util::bits::{get_bit, set_bit};
use rustyboy::util::parse_hex::parse_hex;
use rustyboy::util::words::split_words;
use rustyboy::util::{trim_zeros, ut8_decode_trim};

#[test]
fn bits_round_trip() {
    for value in [0u8, 0x5A, 0xFF] {
        for idx in 0..8u8 {
            assert!(get_bit(set_bit(value, idx, true), idx));
            assert!(!get_bit(set_bit(value, idx, false), idx));
        }
    }
    assert_eq!(set_bit(0b1010_1010, 0, true), 0b1010_1011);
    assert!(get_bit(0x80, 7));
    assert!(!get_bit(0x80, 6));
}

#[test]
fn parses_hex() {
    assert_eq!(parse_hex("ff"), Some(0xFF));
    assert_eq!(parse_hex("C000"), Some(0xC000));
    assert_eq!(parse_hex("+10"), Some(0x10));
    assert_eq!(parse_hex("10000"), None);
    assert_eq!(parse_hex(""), None);
    assert_eq!(parse_hex("0x10"), None);
    assert_eq!(parse_hex("g"), None);
}

#[test]
fn decodes_trimmed_text() {
    assert_eq!(trim_zeros(&[0, 65, 0, 66]), vec![65, 66]);
    assert_eq!(ut8_decode_trim(vec![84, 0, 69, 0, 0]).unwrap(), "TE");
    assert!(ut8_decode_trim(vec![0xFF]).is_err());
}

#[test]
fn splits_on_spaces() {
    assert_eq!(split_words("status register a"), vec!["status", "register", "a"]);
    assert_eq!(split_words("b  l"), vec!["b", "", "l"]);
    assert_eq!(split_words(""), vec![""]);
}
