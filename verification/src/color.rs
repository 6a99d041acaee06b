//! Colours of the configuration: `#RGB` and `#RRGGBB` strings and RGBA records.

use crate::text::{push_char, strip_prefix, trim, trimmed, without_prefix};
use vstd::prelude::*;
use vstd::string::{StrSliceExecFns, StringExecFns};
use vstd::utf8::is_ascii_chars;

verus! {

/// Four 8-bit channels; `alpha` 255 is fully opaque.
#[derive(Clone, Copy, Debug, PartialEq, Eq, Structural)]
pub struct Rgba {
    pub red: u8,
    pub green: u8,
    pub blue: u8,
    pub alpha: u8,
}

/// A colour that came out of the parser. Only `Color::try_from` makes one.
#[derive(Clone, Copy, Debug, PartialEq, Eq)]
pub struct Color(Rgba);

/// A colour as the configuration writes it.
#[derive(Debug, PartialEq, Eq)]
pub enum ConfigColor {
    /// `#RGB` or `#RRGGBB`, white space around it allowed.
    Hex(String),
    /// The channels one by one; a missing `alpha` means opaque.
    Rgba { red: u8, green: u8, blue: u8, alpha: Option<u8> },
}

/// Why a hexadecimal colour string was refused.
#[derive(Clone, Copy, Debug, PartialEq, Eq, Structural)]
pub enum ColorParseErrorVariant {
    MissingHex,
    NonAsciiCharacters,
    InvalidColorLength,
    InvalidHexadecimal,
}

/// A refused colour string together with the reason.
#[derive(Debug, PartialEq, Eq)]
pub struct ColorParseError {
    pub value: String,
    pub variant: ColorParseErrorVariant,
}

/// The numeric value of one hexadecimal digit, `None` for any other byte.
pub open spec fn hex_value(c: u8) -> Option<u8> {
    if 0x30 <= c <= 0x39 {
        Some((c - 0x30) as u8)
    } else if 0x61 <= c <= 0x66 {
        Some((c - 0x61 + 10) as u8)
    } else if 0x41 <= c <= 0x46 {
        Some((c - 0x41 + 10) as u8)
    } else {
        None
    }
}

/// The value of a character as a hexadecimal digit.
pub open spec fn hex_digit(c: char) -> Option<u8> {
    if (c as u32) < 128 {
        hex_value(c as u8)
    } else {
        None
    }
}

/// The channel that a single digit stands for: the digit twice.
pub open spec fn replicated(n: u8) -> u8
    recommends
        n < 16,
{
    (17 * n) as u8
}

/// The channel that two digits stand for.
pub open spec fn joined(high: u8, low: u8) -> u8
    recommends
        high < 16,
        low < 16,
{
    (16 * high + low) as u8
}

/// The opaque colour of three or six hexadecimal digits.
pub open spec fn digits_color(d: Seq<char>) -> Rgba
    recommends
        d.len() == 3 || d.len() == 6,
        forall|i: int| 0 <= i < d.len() ==> hex_digit(d[i]) is Some,
{
    if d.len() == 3 {
        Rgba {
            red: replicated(hex_digit(d[0])->0),
            green: replicated(hex_digit(d[1])->0),
            blue: replicated(hex_digit(d[2])->0),
            alpha: 255,
        }
    } else {
        Rgba {
            red: joined(hex_digit(d[0])->0, hex_digit(d[1])->0),
            green: joined(hex_digit(d[2])->0, hex_digit(d[3])->0),
            blue: joined(hex_digit(d[4])->0, hex_digit(d[5])->0),
            alpha: 255,
        }
    }
}

/// What a hexadecimal colour string means: the checks are made in this
/// order, on the string without the white space around it.
pub open spec fn hex_color(s: Seq<char>) -> Result<Rgba, ColorParseErrorVariant> {
    match without_prefix(trimmed(s), '#') {
        None => Err(ColorParseErrorVariant::MissingHex),
        Some(d) => if !is_ascii_chars(d) {
            Err(ColorParseErrorVariant::NonAsciiCharacters)
        } else if d.len() != 3 && d.len() != 6 {
            Err(ColorParseErrorVariant::InvalidColorLength)
        } else if exists|i: int| 0 <= i < d.len() && hex_digit(#[trigger] d[i]) is None {
            Err(ColorParseErrorVariant::InvalidHexadecimal)
        } else {
            Ok(digits_color(d))
        },
    }
}

/// What a configured colour means.
pub open spec fn config_color(value: ConfigColor) -> Result<Rgba, ColorParseErrorVariant> {
    match value {
        ConfigColor::Hex(hex) => hex_color(hex@),
        ConfigColor::Rgba { red, green, blue, alpha } => Ok(
            Rgba {
                red,
                green,
                blue,
                alpha: match alpha {
                    Some(a) => a,
                    None => 255,
                },
            },
        ),
    }
}

/// The text that a parse error explains itself with.
pub open spec fn reason_text(variant: ColorParseErrorVariant) -> Seq<char> {
    match variant {
        ColorParseErrorVariant::MissingHex => "missing '#' character at the start"@,
        ColorParseErrorVariant::NonAsciiCharacters => "color string contains non-ascii character"@,
        ColorParseErrorVariant::InvalidColorLength => "hexadecimal string is invalid length. It can either be 3 or 6 characters long"@,
        ColorParseErrorVariant::InvalidHexadecimal => "invalid hexadecimal digit"@,
    }
}

/// The lower-case character of a hexadecimal digit.
pub open spec fn hex_char(d: u8) -> char
    recommends
        d < 16,
{
    if d < 10 {
        (0x30 + d) as char
    } else {
        (0x61 + d - 10) as char
    }
}

/// The `#rrggbb` form of a colour, in lower case. It leaves `alpha` out.
pub open spec fn hex_text(rgba: Rgba) -> Seq<char> {
    seq![
        '#',
        hex_char(rgba.red / 16),
        hex_char(rgba.red % 16),
        hex_char(rgba.green / 16),
        hex_char(rgba.green % 16),
        hex_char(rgba.blue / 16),
        hex_char(rgba.blue % 16),
    ]
}

/// Decodes one ASCII hexadecimal digit, upper or lower case.
pub fn hex_to_num(c: u8) -> (r: Option<u8>)
    ensures
        r == hex_value(c),
        r matches Some(n) ==> n < 16,
{
    if 0x30 <= c && c <= 0x39 {
        return Some(c - 0x30);
    }
    if 0x61 <= c && c <= 0x66 {
        return Some(c - 0x61 + 10);
    }
    if 0x41 <= c && c <= 0x46 {
        return Some(c - 0x41 + 10);
    }
    None
}

/// One digit written twice is seventeen times the digit.
fn replicate(n: u8) -> (r: u8)
    requires
        n < 16,
    ensures
        r == replicated(n),
{
    assert(n | (n << 4) == 17 * n) by (bit_vector)
        requires
            n < 16,
    ;
    n | (n << 4)
}

/// Two digits make sixteen times the high one plus the low one.
fn join(high: u8, low: u8) -> (r: u8)
    requires
        high < 16,
        low < 16,
    ensures
        r == joined(high, low),
{
    assert((high << 4) | low == 16 * high + low) by (bit_vector)
        requires
            high < 16,
            low < 16,
    ;
    (high << 4) | low
}

/// Decodes the digit at position `i` of an ASCII string.
fn digit_at(digits: &str, i: usize) -> (r: Option<u8>)
    requires
        is_ascii_chars(digits@),
        i < digits@.len(),
    ensures
        r == hex_digit(digits@[i as int]),
        r matches Some(n) ==> n < 16,
{
    hex_to_num(digits.get_ascii(i))
}

/// Reads a `#RGB` or `#RRGGBB` string.
pub fn parse_hex(hex: &str) -> (r: Result<Rgba, ColorParseErrorVariant>)
    ensures
        r == hex_color(hex@),
{
    let s = trim(hex);
    let digits = match strip_prefix(s, '#') {
        Some(rest) => rest,
        None => {
            return Err(ColorParseErrorVariant::MissingHex);
        },
    };
    if !digits.is_ascii() {
        return Err(ColorParseErrorVariant::NonAsciiCharacters);
    }
    let n: usize = digits.unicode_len();
    if n != 3 && n != 6 {
        return Err(ColorParseErrorVariant::InvalidColorLength);
    }
    if n == 3 {
        let (red, green, blue) = match (digit_at(digits, 0), digit_at(digits, 1), digit_at(digits, 2)) {
            (Some(red), Some(green), Some(blue)) => (red, green, blue),
            _ => {
                return Err(ColorParseErrorVariant::InvalidHexadecimal);
            },
        };
        return Ok(
            Rgba { red: replicate(red), green: replicate(green), blue: replicate(blue), alpha: 255 },
        );
    }
    let (r0, r1, g0, g1, b0, b1) = match (
        digit_at(digits, 0),
        digit_at(digits, 1),
        digit_at(digits, 2),
        digit_at(digits, 3),
        digit_at(digits, 4),
        digit_at(digits, 5),
    ) {
        (Some(r0), Some(r1), Some(g0), Some(g1), Some(b0), Some(b1)) => (r0, r1, g0, g1, b0, b1),
        _ => {
            return Err(ColorParseErrorVariant::InvalidHexadecimal);
        },
    };
    Ok(Rgba { red: join(r0, r1), green: join(g0, g1), blue: join(b0, b1), alpha: 255 })
}

impl ColorParseError {
    /// Records the refused string and the reason.
    pub fn new(value: &str, variant: ColorParseErrorVariant) -> (e: Self)
        ensures
            e.value@ == value@,
            e.variant == variant,
    {
        Self { value: value.to_owned(), variant }
    }

    /// The sentence shown to the operator.
    pub open spec fn message_text(self) -> Seq<char> {
        "Invalid color '"@ + self.value@ + "'. Reason: "@ + reason_text(self.variant)
    }

    /// Renders the error as a sentence.
    pub fn message(&self) -> (m: String)
        ensures
            m@ == self.message_text(),
    {
        let mut m = String::from_str("Invalid color '");
        m.append(self.value.as_str());
        m.append("'. Reason: ");
        m.append(
            match self.variant {
                ColorParseErrorVariant::MissingHex => "missing '#' character at the start",
                ColorParseErrorVariant::NonAsciiCharacters => "color string contains non-ascii character",
                ColorParseErrorVariant::InvalidColorLength => "hexadecimal string is invalid length. It can either be 3 or 6 characters long",
                ColorParseErrorVariant::InvalidHexadecimal => "invalid hexadecimal digit",
            },
        );
        m
    }
}

impl View for Color {
    type V = Rgba;

    closed spec fn view(&self) -> Rgba {
        self.0
    }
}

impl Color {
    /// Turns a configured colour into channels. A record always succeeds;
    /// a string succeeds exactly when `hex_color` accepts it, and is
    /// otherwise handed back inside the error.
    pub fn try_from(value: ConfigColor) -> (r: Result<Color, ColorParseError>)
        ensures
            match config_color(value) {
                Ok(rgba) => r matches Ok(color) && color@ == rgba,
                Err(variant) => r matches Err(e) && e.variant == variant && (value matches ConfigColor::Hex(
                    hex,
                ) && e.value@ == hex@),
            },
    {
        match value {
            ConfigColor::Hex(hex) => match parse_hex(hex.as_str()) {
                Ok(rgba) => Ok(Color(rgba)),
                Err(variant) => Err(ColorParseError::new(hex.as_str(), variant)),
            },
            ConfigColor::Rgba { red, green, blue, alpha } => {
                let alpha: u8 = match alpha {
                    Some(a) => a,
                    None => 255,
                };
                Ok(Color(Rgba { red, green, blue, alpha }))
            },
        }
    }

    /// Gives the channels out.
    pub fn take(self) -> (rgba: Rgba)
        ensures
            rgba == self@,
    {
        self.0
    }

    /// Writes the colour as `#rrggbb`, in lower case and without `alpha`.
    pub fn to_hex(&self) -> (s: String)
        ensures
            s@ == hex_text(self@),
    {
        let c = self.0;
        let mut s = String::new();
        push_char(&mut s, '#');
        push_char(&mut s, hex_char_of(c.red / 16));
        push_char(&mut s, hex_char_of(c.red % 16));
        push_char(&mut s, hex_char_of(c.green / 16));
        push_char(&mut s, hex_char_of(c.green % 16));
        push_char(&mut s, hex_char_of(c.blue / 16));
        push_char(&mut s, hex_char_of(c.blue % 16));
        s
    }
}

/// The character of one hexadecimal digit.
fn hex_char_of(d: u8) -> (c: char)
    requires
        d < 16,
    ensures
        c == hex_char(d),
{
    if d < 10 {
        (0x30 + d) as char
    } else {
        (0x61 + (d - 10)) as char
    }
}

/// The short form is the long form with every digit doubled: `#abc` and
/// `#aabbcc` are the same colour, for all hexadecimal digits `a`, `b`, `c`.
pub proof fn lemma_short_form_doubles_digits(a: char, b: char, c: char)
    requires
        hex_digit(a) is Some,
        hex_digit(b) is Some,
        hex_digit(c) is Some,
    ensures
        hex_color(seq!['#', a, b, c]) is Ok,
        hex_color(seq!['#', a, b, c]) == hex_color(seq!['#', a, a, b, b, c, c]),
{
}

/// Writing a colour as `#rrggbb` and reading that back gives the same red,
/// green and blue, and full opacity.
pub proof fn lemma_hex_round_trip(rgba: Rgba)
    ensures
        hex_color(hex_text(rgba)) == Ok::<Rgba, ColorParseErrorVariant>(
            Rgba { red: rgba.red, green: rgba.green, blue: rgba.blue, alpha: 255 },
        ),
{
}

/// Decoding a colour string, encoding the result and decoding again gives
/// the channels of the first decoding.
pub proof fn lemma_decode_encode_decode(s: Seq<char>)
    requires
        hex_color(s) is Ok,
    ensures
        hex_color(hex_text(hex_color(s)->Ok_0)) == hex_color(s),
{
    lemma_hex_round_trip(hex_color(s)->Ok_0);
}

} // verus!
