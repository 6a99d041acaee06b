use spree::color::{
    hex_to_num, parse_hex, Color, ColorParseError, ColorParseErrorVariant, ConfigColor, Rgba,
};

fn hex(s: &str) -> Result<Color, ColorParseError> {
    Color::try_from(ConfigColor::Hex(s.to_string()))
}

fn channels(s: &str) -> Rgba {
    hex(s).unwrap().take()
}

fn variant(s: &str) -> ColorParseErrorVariant {
    hex(s).unwrap_err().variant
}

#[test]
fn hex_digits_decode() {
    assert_eq!(hex_to_num(b'0'), Some(0));
    assert_eq!(hex_to_num(b'9'), Some(9));
    assert_eq!(hex_to_num(b'a'), Some(10));
    assert_eq!(hex_to_num(b'f'), Some(15));
    assert_eq!(hex_to_num(b'A'), Some(10));
    assert_eq!(hex_to_num(b'F'), Some(15));
}

#[test]
fn bytes_next_to_the_digits_are_refused() {
    for c in [b'/', b':', b'@', b'G', b'`', b'g', b' ', b'#', 0u8, 0x80, 0xff] {
        assert_eq!(hex_to_num(c), None, "byte {c}");
    }
}

#[test]
fn every_byte_decodes_as_its_digit_value() {
    for c in 0u8..=255 {
        let expected = (c as char).to_digit(16).filter(|_| c < 128).map(|d| d as u8);
        assert_eq!(hex_to_num(c), expected, "byte {c}");
    }
}

#[test]
fn three_digits_are_doubled() {
    assert_eq!(channels("#abc"), Rgba { red: 0xaa, green: 0xbb, blue: 0xcc, alpha: 255 });
    assert_eq!(channels("#000"), Rgba { red: 0, green: 0, blue: 0, alpha: 255 });
    assert_eq!(channels("#fff"), Rgba { red: 255, green: 255, blue: 255, alpha: 255 });
    assert_eq!(channels("#19F"), Rgba { red: 0x11, green: 0x99, blue: 0xff, alpha: 255 });
}

#[test]
fn six_digits_are_paired() {
    assert_eq!(channels("#a1b2c3"), Rgba { red: 0xa1, green: 0xb2, blue: 0xc3, alpha: 255 });
    assert_eq!(channels("#0F10fe"), Rgba { red: 0x0f, green: 0x10, blue: 0xfe, alpha: 255 });
    assert_eq!(channels("#FFFFFF"), Rgba { red: 255, green: 255, blue: 255, alpha: 255 });
}

#[test]
fn short_form_equals_long_form_for_all_digits() {
    let digits = "0123456789abcdefABCDEF";
    for a in digits.chars() {
        for b in digits.chars() {
            for c in digits.chars() {
                let short = format!("#{a}{b}{c}");
                let long = format!("#{a}{a}{b}{b}{c}{c}");
                assert_eq!(channels(&short), channels(&long), "{short}");
            }
        }
    }
}

#[test]
fn hex_round_trips() {
    for s in ["#000000", "#ffffff", "#a1b2c3", "#0f10fe", "#123456"] {
        let color = hex(s).unwrap();
        assert_eq!(color.to_hex(), s);
        assert_eq!(channels(&color.to_hex()), color.take());
    }
    assert_eq!(hex("#ABCDEF").unwrap().to_hex(), "#abcdef");
    assert_eq!(hex("#abc").unwrap().to_hex(), "#aabbcc");
}

#[test]
fn every_channel_value_round_trips() {
    for v in 0u8..=255 {
        let color = Color::try_from(ConfigColor::Rgba {
            red: v,
            green: v.wrapping_mul(7),
            blue: 255 - v,
            alpha: Some(v),
        })
        .unwrap();
        let back = channels(&color.to_hex());
        assert_eq!(
            back,
            Rgba { red: v, green: v.wrapping_mul(7), blue: 255 - v, alpha: 255 }
        );
    }
}

#[test]
fn hex_errors_by_kind() {
    assert_eq!(variant("abc"), ColorParseErrorVariant::MissingHex);
    assert_eq!(variant("#ab"), ColorParseErrorVariant::InvalidColorLength);
    assert_eq!(variant("#zzz"), ColorParseErrorVariant::InvalidHexadecimal);
    assert_eq!(variant("#é12"), ColorParseErrorVariant::NonAsciiCharacters);
}

#[test]
fn hex_checks_come_in_order() {
    assert_eq!(variant(""), ColorParseErrorVariant::MissingHex);
    assert_eq!(variant("   "), ColorParseErrorVariant::MissingHex);
    assert_eq!(variant("é#abc"), ColorParseErrorVariant::MissingHex);
    assert_eq!(variant("#"), ColorParseErrorVariant::InvalidColorLength);
    assert_eq!(variant("#abcd"), ColorParseErrorVariant::InvalidColorLength);
    assert_eq!(variant("#abcdefa"), ColorParseErrorVariant::InvalidColorLength);
    assert_eq!(variant("##abc"), ColorParseErrorVariant::InvalidColorLength);
    assert_eq!(variant("#zzzzé"), ColorParseErrorVariant::NonAsciiCharacters);
    assert_eq!(variant("#éé"), ColorParseErrorVariant::NonAsciiCharacters);
    assert_eq!(variant("#zz"), ColorParseErrorVariant::InvalidColorLength);
    assert_eq!(variant("#abg"), ColorParseErrorVariant::InvalidHexadecimal);
    assert_eq!(variant("#gbc"), ColorParseErrorVariant::InvalidHexadecimal);
    assert_eq!(variant("#abcdeg"), ColorParseErrorVariant::InvalidHexadecimal);
    assert_eq!(variant("#a c"), ColorParseErrorVariant::InvalidHexadecimal);
    assert_eq!(variant("# abc"), ColorParseErrorVariant::InvalidColorLength);
}

#[test]
fn white_space_around_a_color_is_dropped() {
    let expected = Rgba { red: 0xaa, green: 0xbb, blue: 0xcc, alpha: 255 };
    assert_eq!(channels(" #abc"), expected);
    assert_eq!(channels("#abc "), expected);
    assert_eq!(channels("\t\n #abc \r\n"), expected);
    assert_eq!(parse_hex("  #aabbcc  "), Ok(expected));
}

#[test]
fn unicode_white_space_is_white_space() {
    let spaces = [
        '\u{9}', '\u{a}', '\u{b}', '\u{c}', '\u{d}', '\u{20}', '\u{85}', '\u{a0}', '\u{1680}',
        '\u{2000}', '\u{2001}', '\u{2002}', '\u{2003}', '\u{2004}', '\u{2005}', '\u{2006}',
        '\u{2007}', '\u{2008}', '\u{2009}', '\u{200a}', '\u{2028}', '\u{2029}', '\u{202f}',
        '\u{205f}', '\u{3000}',
    ];
    for c in spaces {
        assert!(hex(&format!("{c}#abc{c}")).is_ok(), "U+{:04X}", c as u32);
    }
    for c in ['\u{8}', '\u{e}', '\u{1f}', '\u{180e}', '\u{200b}', '\u{2060}', '\u{feff}', '_'] {
        assert_eq!(
            variant(&format!("{c}#abc")),
            ColorParseErrorVariant::MissingHex,
            "U+{:04X}",
            c as u32
        );
        assert_eq!(
            variant(&format!("#abc{c}")),
            if c.is_ascii() {
                ColorParseErrorVariant::InvalidColorLength
            } else {
                ColorParseErrorVariant::NonAsciiCharacters
            },
            "U+{:04X}",
            c as u32
        );
    }
}

#[test]
fn white_space_agrees_with_the_standard_library() {
    let mut padded = String::new();
    for n in 0u32..=0x10ffff {
        if let Some(c) = char::from_u32(n) {
            padded.clear();
            padded.push(c);
            padded.push_str("#abc");
            assert_eq!(parse_hex(&padded).is_ok(), c.is_whitespace(), "U+{n:04X}");
        }
    }
}

#[test]
fn error_keeps_the_string_as_written() {
    let e = hex("  nope ").unwrap_err();
    assert_eq!(e.value, "  nope ");
    assert_eq!(e.variant, ColorParseErrorVariant::MissingHex);
    assert_eq!(e, ColorParseError::new("  nope ", ColorParseErrorVariant::MissingHex));
}

#[test]
fn error_messages() {
    assert_eq!(
        hex("abc").unwrap_err().message(),
        "Invalid color 'abc'. Reason: missing '#' character at the start"
    );
    assert_eq!(
        hex("#é12").unwrap_err().message(),
        "Invalid color '#é12'. Reason: color string contains non-ascii character"
    );
    assert_eq!(
        hex("#ab").unwrap_err().message(),
        "Invalid color '#ab'. Reason: hexadecimal string is invalid length. It can either be 3 or 6 characters long"
    );
    assert_eq!(
        hex("#zzz").unwrap_err().message(),
        "Invalid color '#zzz'. Reason: invalid hexadecimal digit"
    );
}

#[test]
fn record_colors() {
    let opaque = Color::try_from(ConfigColor::Rgba { red: 1, green: 2, blue: 3, alpha: None });
    assert_eq!(opaque.unwrap().take(), Rgba { red: 1, green: 2, blue: 3, alpha: 255 });
    let clear = Color::try_from(ConfigColor::Rgba { red: 255, green: 0, blue: 9, alpha: Some(0) });
    assert_eq!(clear.unwrap().take(), Rgba { red: 255, green: 0, blue: 9, alpha: 0 });
    let half = Color::try_from(ConfigColor::Rgba { red: 0, green: 0, blue: 0, alpha: Some(128) });
    assert_eq!(half.unwrap().take().alpha, 128);
}
