//! Colors and parsing of 6-digit hex color strings.

use vstd::prelude::*;
use vstd::string::*;

verus! {

/// An RGBA color with four 8-bit channels. Colors parsed from hex strings
/// always carry a fully opaque alpha channel.
#[derive(Clone, Copy, PartialEq, Eq, Structural, Debug)]
pub struct Color {
    pub r: u8,
    pub g: u8,
    pub b: u8,
    pub a: u8,
}

/// Whether `c` is one of `0-9`, `a-f` or `A-F`.
pub open spec fn is_hex_digit(c: char) -> bool {
    ('0' <= c && c <= '9') || ('a' <= c && c <= 'f') || ('A' <= c && c <= 'F')
}

/// The numeric value of a hex digit.
pub open spec fn hex_digit_value(c: char) -> int {
    if '0' <= c && c <= '9' {
        c as int - '0' as int
    } else if 'a' <= c && c <= 'f' {
        10 + c as int - 'a' as int
    } else {
        10 + c as int - 'A' as int
    }
}

/// The input without its optional single leading `#`.
pub open spec fn hex_body(s: Seq<char>) -> Seq<char> {
    if s.len() > 0 && s[0] == '#' {
        s.subrange(1, s.len() as int)
    } else {
        s
    }
}

/// Whether `s` is a well-formed hex color: an optional leading `#` followed
/// by exactly six hex digits.
pub open spec fn is_valid_hex_color(s: Seq<char>) -> bool {
    &&& hex_body(s).len() == 6
    &&& forall|i: int| 0 <= i < 6 ==> is_hex_digit(#[trigger] hex_body(s)[i])
}

/// The byte encoded by the two hex digits `hi` and `lo`.
pub open spec fn hex_byte(hi: char, lo: char) -> int {
    16 * hex_digit_value(hi) + hex_digit_value(lo)
}

/// The color encoded by a well-formed hex color string: the three byte pairs
/// give red, green and blue, and alpha is always 255.
pub open spec fn spec_color_of_hex(s: Seq<char>) -> Color {
    let d = hex_body(s);
    Color {
        r: hex_byte(d[0], d[1]) as u8,
        g: hex_byte(d[2], d[3]) as u8,
        b: hex_byte(d[4], d[5]) as u8,
        a: 255,
    }
}

/// A rejected color string; `given` is the input without its leading `#`.
#[derive(Debug)]
pub struct ColorError {
    pub given: String,
}

impl ColorError {
    /// The diagnostic text for a rejected color string.
    pub fn message(&self) -> (m: String)
        ensures
            m@ == "Invalid hex color: "@ + self.given@,
    {
        let mut m = String::from_str("Invalid hex color: ");
        m.append(self.given.as_str());
        m
    }
}

/// The numeric value of a hex digit, or `None` for any other character.
fn hex_digit(c: char) -> (r: Option<u8>)
    ensures
        r is Some <==> is_hex_digit(c),
        r matches Some(v) ==> v == hex_digit_value(c) && v < 16,
{
    let cu: u32 = c as u32;
    if 48 <= cu && cu <= 57 {
        Some((cu - 48) as u8)
    } else if 97 <= cu && cu <= 102 {
        Some((cu - 97 + 10) as u8)
    } else if 65 <= cu && cu <= 70 {
        Some((cu - 65 + 10) as u8)
    } else {
        None
    }
}

/// Parses a 6-digit hex color, with or without a single leading `#`.
///
/// Succeeds exactly on inputs of the shape `#?[0-9a-fA-F]{6}` and then
/// returns the encoded RGB triple with alpha 255; any other input is
/// rejected with an error naming the offending string.
pub fn parse_hex_color(s: &str) -> (r: Result<Color, ColorError>)
    ensures
        r is Ok <==> is_valid_hex_color(s@),
        r matches Ok(c) ==> c == spec_color_of_hex(s@),
        r matches Err(e) ==> e.given@ == hex_body(s@),
{
    let n = s.unicode_len();
    let off: usize = if n > 0 && s.get_char(0) == '#' {
        1
    } else {
        0
    };
    proof {
        assert(hex_body(s@) =~= s@.subrange(off as int, n as int));
    }
    if n - off != 6 {
        return Err(ColorError { given: String::from_str(s.substring_char(off, n)) });
    }
    let d0 = hex_digit(s.get_char(off));
    let d1 = hex_digit(s.get_char(off + 1));
    let d2 = hex_digit(s.get_char(off + 2));
    let d3 = hex_digit(s.get_char(off + 3));
    let d4 = hex_digit(s.get_char(off + 4));
    let d5 = hex_digit(s.get_char(off + 5));
    proof {
        assert(hex_body(s@)[0] == s@[off as int]);
        assert(hex_body(s@)[1] == s@[off + 1]);
        assert(hex_body(s@)[2] == s@[off + 2]);
        assert(hex_body(s@)[3] == s@[off + 3]);
        assert(hex_body(s@)[4] == s@[off + 4]);
        assert(hex_body(s@)[5] == s@[off + 5]);
    }
    match (d0, d1, d2, d3, d4, d5) {
        (Some(v0), Some(v1), Some(v2), Some(v3), Some(v4), Some(v5)) => {
            proof {
                assert(forall|i: int| 0 <= i < 6 ==> is_hex_digit(#[trigger] hex_body(s@)[i]));
            }
            Ok(Color { r: 16 * v0 + v1, g: 16 * v2 + v3, b: 16 * v4 + v5, a: 255 })
        },
        _ => Err(ColorError { given: String::from_str(s.substring_char(off, n)) }),
    }
}

} // verus!
