use blinkstick::color::lookup_name;
use blinkstick::{parse_color, BlinkStickError, NamedColor, RgbColor};

#[test]
fn new_keeps_the_channels() {
    let color = RgbColor::new(1, 2, 3);
    assert_eq!((color.r, color.g, color.b), (1, 2, 3));
}

#[test]
fn equality_is_by_channels() {
    assert_eq!(RgbColor::new(9, 8, 7), RgbColor { r: 9, g: 8, b: 7 });
    assert_ne!(RgbColor::new(9, 8, 7), RgbColor::new(9, 8, 6));
}

#[test]
fn from_hex_reads_the_three_bytes() {
    assert_eq!(RgbColor::from_hex("#FF8000"), Some(RgbColor { r: 255, g: 128, b: 0 }));
    assert_eq!(RgbColor::from_hex("FF8000"), Some(RgbColor { r: 255, g: 128, b: 0 }));
    assert_eq!(RgbColor::from_hex("#000000"), Some(RgbColor::new(0, 0, 0)));
    assert_eq!(RgbColor::from_hex("ffffff"), Some(RgbColor::new(255, 255, 255)));
    assert_eq!(RgbColor::from_hex("#123456"), Some(RgbColor::new(0x12, 0x34, 0x56)));
    assert_eq!(RgbColor::from_hex("abcdef"), Some(RgbColor::new(0xAB, 0xCD, 0xEF)));
    assert_eq!(RgbColor::from_hex("#aBcDeF"), Some(RgbColor::new(0xAB, 0xCD, 0xEF)));
}

#[test]
fn from_hex_refuses_other_lengths() {
    assert_eq!(RgbColor::from_hex(""), None);
    assert_eq!(RgbColor::from_hex("#"), None);
    assert_eq!(RgbColor::from_hex("FF800"), None);
    assert_eq!(RgbColor::from_hex("#FF800"), None);
    assert_eq!(RgbColor::from_hex("FF80000"), None);
    assert_eq!(RgbColor::from_hex("#FF80000"), None);
    assert_eq!(RgbColor::from_hex("F"), None);
}

#[test]
fn from_hex_refuses_what_is_no_digit() {
    assert_eq!(RgbColor::from_hex("GG0000"), None);
    assert_eq!(RgbColor::from_hex("#FF80 0"), None);
    assert_eq!(RgbColor::from_hex("FF800g"), None);
    assert_eq!(RgbColor::from_hex("+FF800"), None);
    assert_eq!(RgbColor::from_hex("-FF800"), None);
    assert_eq!(RgbColor::from_hex("0xFF80"), None);
    assert_eq!(RgbColor::from_hex("FF80\u{e9}0"), None);
    assert_eq!(RgbColor::from_hex("\u{ff26}\u{ff26}8000"), None);
}

#[test]
fn from_hex_takes_one_hash_only() {
    assert_eq!(RgbColor::from_hex("##FF8000"), None);
    assert_eq!(RgbColor::from_hex("FF8000#"), None);
    assert_eq!(RgbColor::from_hex("#FF800#"), None);
}

#[test]
fn to_hex_writes_six_uppercase_digits() {
    assert_eq!(RgbColor::new(255, 128, 0).to_hex(), "FF8000");
    assert_eq!(RgbColor::new(0, 0, 0).to_hex(), "000000");
    assert_eq!(RgbColor::new(0xAB, 0xCD, 0xEF).to_hex(), "ABCDEF");
    assert_eq!(RgbColor::new(1, 2, 3).to_hex(), "010203");
    assert_eq!(RgbColor::new(0x9A, 0x0F, 0xF0).to_hex(), "9A0FF0");
}

#[test]
fn hex_round_trip_keeps_the_digits() {
    for text in ["FF8000", "#FF8000", "00FF7F", "#0A0B0C", "123456", "FEDCBA"] {
        let color = RgbColor::from_hex(text).unwrap();
        assert_eq!(color.to_hex(), text.trim_start_matches('#'));
    }
    for text in ["ff8000", "#abcdef", "aBcDeF"] {
        let color = RgbColor::from_hex(text).unwrap();
        assert_eq!(color.to_hex(), text.trim_start_matches('#').to_uppercase());
    }
}

#[test]
fn hex_round_trip_from_every_byte() {
    for value in 0..=255u8 {
        let color = RgbColor::new(value, 255 - value, value ^ 0x5A);
        assert_eq!(RgbColor::from_hex(&color.to_hex()), Some(color));
        let mut with_hash = String::from("#");
        with_hash.push_str(&color.to_hex());
        assert_eq!(RgbColor::from_hex(&with_hash), Some(color));
    }
}

#[test]
fn from_name_knows_the_table() {
    assert_eq!(RgbColor::from_name("red"), Some(RgbColor::new(255, 0, 0)));
    assert_eq!(RgbColor::from_name("green"), Some(RgbColor::new(0, 128, 0)));
    assert_eq!(RgbColor::from_name("lime"), Some(RgbColor::new(0, 255, 0)));
    assert_eq!(RgbColor::from_name("blue"), Some(RgbColor::new(0, 0, 255)));
    assert_eq!(RgbColor::from_name("aliceblue"), Some(RgbColor::new(240, 248, 255)));
    assert_eq!(RgbColor::from_name("yellowgreen"), Some(RgbColor::new(154, 205, 50)));
    assert_eq!(RgbColor::from_name("mediumpurple"), Some(RgbColor::new(147, 112, 216)));
    assert_eq!(RgbColor::from_name("white"), Some(RgbColor::new(255, 255, 255)));
}

#[test]
fn from_name_off_is_black() {
    assert_eq!(RgbColor::from_name("off"), Some(RgbColor { r: 0, g: 0, b: 0 }));
    assert_eq!(RgbColor::from_name("black"), Some(RgbColor { r: 0, g: 0, b: 0 }));
}

#[test]
fn from_name_knows_the_synonyms() {
    assert_eq!(RgbColor::from_name("cyan"), RgbColor::from_name("aqua"));
    assert_eq!(RgbColor::from_name("aqua"), Some(RgbColor::new(0, 255, 255)));
    assert_eq!(RgbColor::from_name("magenta"), RgbColor::from_name("fuchsia"));
    assert_eq!(RgbColor::from_name("fuchsia"), Some(RgbColor::new(255, 0, 255)));
    for (a, b) in [
        ("gray", "grey"),
        ("darkgray", "darkgrey"),
        ("dimgray", "dimgrey"),
        ("lightgray", "lightgrey"),
        ("slategray", "slategrey"),
        ("darkslategray", "darkslategrey"),
        ("lightslategray", "lightslategrey"),
    ] {
        assert!(RgbColor::from_name(a).is_some());
        assert_eq!(RgbColor::from_name(a), RgbColor::from_name(b));
    }
}

#[test]
fn from_name_ignores_case() {
    let red = Some(RgbColor::new(255, 0, 0));
    assert_eq!(RgbColor::from_name("RED"), red);
    assert_eq!(RgbColor::from_name("Red"), red);
    assert_eq!(RgbColor::from_name("red"), red);
    assert_eq!(RgbColor::from_name("rEd"), red);
    assert_eq!(RgbColor::from_name("AliceBlue"), Some(RgbColor::new(240, 248, 255)));
    assert_eq!(RgbColor::from_name("OFF"), Some(RgbColor::new(0, 0, 0)));
}

#[test]
fn from_name_gives_nothing_for_other_text() {
    assert_eq!(RgbColor::from_name(""), None);
    assert_eq!(RgbColor::from_name("reddish"), None);
    assert_eq!(RgbColor::from_name(" red"), None);
    assert_eq!(RgbColor::from_name("red "), None);
    assert_eq!(RgbColor::from_name("#FF0000"), None);
    assert_eq!(RgbColor::from_name("FF0000"), None);
}

#[test]
fn from_name_random_gives_some_color() {
    assert!(RgbColor::from_name("random").is_some());
    assert!(RgbColor::from_name("RANDOM").is_some());
    assert!(RgbColor::from_name("Random").is_some());
}

#[test]
fn random_colors_differ() {
    let first = RgbColor::random();
    let mut differs = false;
    for _ in 0..200 {
        if RgbColor::random() != first {
            differs = true;
        }
    }
    assert!(differs);
}

#[test]
fn random_reaches_both_halves_of_each_channel() {
    let mut low = [false; 3];
    let mut high = [false; 3];
    for _ in 0..2000 {
        let color = RgbColor::random();
        for (i, value) in [color.r, color.g, color.b].into_iter().enumerate() {
            if value < 128 {
                low[i] = true;
            } else {
                high[i] = true;
            }
        }
    }
    assert_eq!(low, [true; 3]);
    assert_eq!(high, [true; 3]);
}

#[test]
fn lookup_name_takes_the_name_as_it_stands() {
    assert_eq!(lookup_name("red"), Some(NamedColor::Fixed(RgbColor::new(255, 0, 0))));
    assert_eq!(lookup_name("random"), Some(NamedColor::Random));
    assert_eq!(lookup_name("RED"), None);
    assert_eq!(lookup_name("Random"), None);
    assert_eq!(lookup_name("nothing"), None);
}

#[test]
fn parse_color_tries_the_name_first() {
    assert_eq!(parse_color("red"), Ok(RgbColor::new(255, 0, 0)));
    assert_eq!(parse_color("Tomato"), Ok(RgbColor::new(255, 99, 71)));
    assert_eq!(parse_color("off"), Ok(RgbColor::new(0, 0, 0)));
}

#[test]
fn parse_color_then_tries_hexadecimal() {
    assert_eq!(parse_color("#00FF00"), Ok(RgbColor::new(0, 255, 0)));
    assert_eq!(parse_color("0000ff"), Ok(RgbColor::new(0, 0, 255)));
    assert_eq!(parse_color("#FF8000"), Ok(RgbColor::new(255, 128, 0)));
}

#[test]
fn parse_color_takes_the_word_random() {
    assert!(parse_color("random").is_ok());
    assert!(parse_color("RANDOM").is_ok());
}

#[test]
fn parse_color_refuses_the_rest() {
    assert_eq!(parse_color(""), Err(BlinkStickError::InvalidColor));
    assert_eq!(parse_color("nonsense"), Err(BlinkStickError::InvalidColor));
    assert_eq!(parse_color("#12345"), Err(BlinkStickError::InvalidColor));
    assert_eq!(parse_color("#GGGGGG"), Err(BlinkStickError::InvalidColor));
    assert_eq!(parse_color("rgb(1,2,3)"), Err(BlinkStickError::InvalidColor));
}
