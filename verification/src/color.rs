//! RGB colors parsed from `#rrggbb` hex notation.

use vstd::prelude::*;

verus! {

/// The failure of parsing a color: the input is not `#` followed by six hex
/// digits.
#[derive(Clone, Copy, Debug, PartialEq, Eq, Structural)]
pub enum ColorError {
    InvalidSyntax,
}

/// Whether `c` is a hexadecimal digit.
pub open spec fn is_hex_digit(c: char) -> bool {
    ('0' <= c && c <= '9') || ('a' <= c && c <= 'f') || ('A' <= c && c <= 'F')
}

/// The value of the hexadecimal digit `c` (zero for a non-digit).
pub open spec fn hex_val(c: char) -> int {
    if '0' <= c && c <= '9' {
        c as int - '0' as int
    } else if 'a' <= c && c <= 'f' {
        c as int - 'a' as int + 10
    } else if 'A' <= c && c <= 'F' {
        c as int - 'A' as int + 10
    } else {
        0
    }
}

/// Whether `s` parses as a color: a `#`, then six hex digits; anything
/// beyond the seventh character is ignored.
pub open spec fn color_parse_ok(s: Seq<char>) -> bool {
    s.len() >= 7 && s[0] == '#' && (forall|i: int| 1 <= i < 7 ==> is_hex_digit(#[trigger] s[i]))
}

/// The byte encoded by the two hex digits at `i` and `i + 1`.
pub open spec fn hex_byte_at(s: Seq<char>, i: int) -> int {
    16 * hex_val(s[i]) + hex_val(s[i + 1])
}

/// An RGB color.
#[derive(Clone, Copy, Debug, PartialEq, Eq, Structural)]
pub struct Color {
    pub r: u8,
    pub g: u8,
    pub b: u8,
}

/// The value of one hexadecimal digit.
fn hex_digit_val(c: char) -> (r: u8)
    requires
        is_hex_digit(c),
    ensures
        r == hex_val(c),
        r <= 15,
{
    let v = c as u32;
    if c >= '0' && c <= '9' {
        (v - 48) as u8
    } else if c >= 'a' && c <= 'f' {
        (v - 97 + 10) as u8
    } else {
        (v - 65 + 10) as u8
    }
}

/// Whether `c` is a hexadecimal digit.
fn is_hex_digit_exec(c: char) -> (r: bool)
    ensures
        r == is_hex_digit(c),
{
    (c >= '0' && c <= '9') || (c >= 'a' && c <= 'f') || (c >= 'A' && c <= 'F')
}

impl Color {
    /// Parse `#rrggbb` notation: succeeds exactly on a `#` followed by six
    /// hex digits (further characters are ignored), yielding the three
    /// encoded bytes.
    pub fn from_hex(s: &str) -> (res: Result<Color, ColorError>)
        ensures
            res is Ok <==> color_parse_ok(s@),
            res matches Ok(c) ==> c.r == hex_byte_at(s@, 1) && c.g == hex_byte_at(s@, 3) && c.b
                == hex_byte_at(s@, 5),
    {
        let len = s.unicode_len();
        if len < 7 {
            return Err(ColorError::InvalidSyntax);
        }
        if s.get_char(0) != '#' {
            return Err(ColorError::InvalidSyntax);
        }
        let c1 = s.get_char(1);
        let c2 = s.get_char(2);
        let c3 = s.get_char(3);
        let c4 = s.get_char(4);
        let c5 = s.get_char(5);
        let c6 = s.get_char(6);
        if !(is_hex_digit_exec(c1) && is_hex_digit_exec(c2) && is_hex_digit_exec(c3)
            && is_hex_digit_exec(c4) && is_hex_digit_exec(c5) && is_hex_digit_exec(c6)) {
            proof {
                assert(!color_parse_ok(s@));
            }
            return Err(ColorError::InvalidSyntax);
        }
        let r = 16 * hex_digit_val(c1) + hex_digit_val(c2);
        let g = 16 * hex_digit_val(c3) + hex_digit_val(c4);
        let b = 16 * hex_digit_val(c5) + hex_digit_val(c6);
        proof {
            assert(color_parse_ok(s@));
        }
        Ok(Color { r, g, b })
    }
}

impl Default for Color {
    /// Black.
    fn default() -> (r: Color)
        ensures
            r.r == 0 && r.g == 0 && r.b == 0,
    {
        Color { r: 0, g: 0, b: 0 }
    }
}

} // verus!
