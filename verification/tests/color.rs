use palette_core::color::{Color, InvalidHex};

#[test]
fn parse_hex_reads_lower_and_upper_case() {
    assert_eq!(Color::parse_hex("#1a1B2a"), Ok(Color { r: 26, g: 27, b: 42 }));
    assert_eq!(Color::parse_hex("#FFFFFF"), Ok(Color { r: 255, g: 255, b: 255 }));
    assert_eq!(Color::parse_hex("#000000"), Ok(Color { r: 0, g: 0, b: 0 }));
}

#[test]
fn parse_hex_refuses_other_texts() {
    assert_eq!(Color::parse_hex("not-a-color"), Err(InvalidHex));
    assert_eq!(Color::parse_hex("1a1b2a"), Err(InvalidHex));
    assert_eq!(Color::parse_hex("#1a1b2"), Err(InvalidHex));
    assert_eq!(Color::parse_hex("#1a1b2a0"), Err(InvalidHex));
    assert_eq!(Color::parse_hex("#1a1b2g"), Err(InvalidHex));
    assert_eq!(Color::parse_hex("#+1+2+3"), Err(InvalidHex));
    assert_eq!(Color::parse_hex("#\u{e9}\u{e9}\u{e9}"), Err(InvalidHex));
    assert_eq!(Color::parse_hex(""), Err(InvalidHex));
    assert_eq!(Color::parse_hex("#"), Err(InvalidHex));
}

#[test]
fn to_hex_writes_upper_case() {
    assert_eq!(Color { r: 26, g: 27, b: 42 }.to_hex(), "#1A1B2A");
    assert_eq!(Color { r: 0, g: 9, b: 10 }.to_hex(), "#00090A");
    assert_eq!(Color { r: 255, g: 171, b: 205 }.to_hex(), "#FFABCD");
}

#[test]
fn canonical_text_round_trips() {
    for text in ["#000000", "#FFFFFF", "#1A1B2A", "#0F9AED", "#ABCDEF", "#123456"] {
        assert_eq!(Color::parse_hex(text).unwrap().to_hex(), text);
    }
}

#[test]
fn every_channel_value_round_trips() {
    for v in 0..=255u8 {
        let c = Color { r: v, g: 255 - v, b: v / 2 };
        assert_eq!(Color::parse_hex(&c.to_hex()), Ok(c));
    }
}
