use blinkstick::hex::hex_digit;
use blinkstick::text::{code_units, str_eq};
use blinkstick::RgbColor;

#[test]
fn str_eq_compares_the_characters() {
    assert!(str_eq("", ""));
    assert!(str_eq("red", "red"));
    assert!(!str_eq("red", "Red"));
    assert!(!str_eq("red", "re"));
    assert!(!str_eq("re", "red"));
    assert!(!str_eq("red", "rod"));
    assert!(str_eq("\u{e9}t\u{e9}", "\u{e9}t\u{e9}"));
    assert!(!str_eq("\u{e9}", "e"));
}

#[test]
fn hex_digit_gives_the_value_of_each_digit() {
    for (i, c) in "0123456789".chars().enumerate() {
        assert_eq!(hex_digit(c), Some(i as u8));
    }
    for (i, c) in "abcdef".chars().enumerate() {
        assert_eq!(hex_digit(c), Some(10 + i as u8));
    }
    for (i, c) in "ABCDEF".chars().enumerate() {
        assert_eq!(hex_digit(c), Some(10 + i as u8));
    }
}

#[test]
fn hex_digit_refuses_every_other_character() {
    for c in ['/', ':', '@', 'G', '`', 'g', ' ', '#', '+', '-', 'x', '\u{0}', '\u{ff10}', '\u{663}'] {
        assert_eq!(hex_digit(c), None);
    }
}

#[test]
fn from_name_lowers_case_as_unicode_does() {
    assert_eq!(RgbColor::from_name("blac\u{212a}"), Some(RgbColor::new(0, 0, 0)));
    assert_eq!(RgbColor::from_name("PIN\u{212a}"), RgbColor::from_name("pink"));
    assert_eq!(RgbColor::from_name("\u{130}ndigo"), None);
}

#[test]
fn code_units_pair_the_bytes_low_first() {
    assert_eq!(code_units(&[]), Vec::<u16>::new());
    assert_eq!(code_units(&[0x41]), Vec::<u16>::new());
    assert_eq!(code_units(&[0x41, 0x00]), vec![0x0041]);
    assert_eq!(code_units(&[0x34, 0x12, 0xFF, 0xFF]), vec![0x1234, 0xFFFF]);
    assert_eq!(code_units(&[0x34, 0x12, 0xCD, 0xAB, 0x99]), vec![0x1234, 0xABCD]);
    assert_eq!(code_units(&[0x00, 0x01]), vec![0x0100]);
}
