//! Hex color parsing for the widget's fill color: `#RGB`, `#RGBA`,
//! `#RRGGBB` and `#RRGGBBAA`, case-insensitive digits, alpha opaque when
//! absent.

use vstd::prelude::*;

verus! {

/// An 8-bit-per-channel color with alpha.
#[derive(Clone, Copy, Debug, PartialEq, Eq, Structural)]
pub struct Rgba {
    pub red: u8,
    pub green: u8,
    pub blue: u8,
    pub alpha: u8,
}

/// Whether `c` is an ASCII hex digit (0-9, a-f, A-F).
pub open spec fn is_hex_digit(c: char) -> bool {
    ('0' as u32 <= c as u32 && c as u32 <= '9' as u32) || ('a' as u32 <= c as u32 && c as u32
        <= 'f' as u32) || ('A' as u32 <= c as u32 && c as u32 <= 'F' as u32)
}

/// The numeric value of a hex digit.
pub open spec fn hex_digit_value(c: char) -> int {
    if '0' as u32 <= c as u32 && c as u32 <= '9' as u32 {
        c as u32 - '0' as u32
    } else if 'a' as u32 <= c as u32 && c as u32 <= 'f' as u32 {
        c as u32 - 'a' as u32 + 10
    } else {
        c as u32 - 'A' as u32 + 10
    }
}

/// Whether every character of `s` in `[from, to)` is a hex digit.
pub open spec fn all_hex_digits(s: Seq<char>, from: int, to: int) -> bool {
    forall|i: int| from <= i < to ==> is_hex_digit(#[trigger] s[i])
}

/// The channel value written as the two digits at `i` and `i + 1`.
pub open spec fn hex_pair_value(s: Seq<char>, i: int) -> int {
    16 * hex_digit_value(s[i]) + hex_digit_value(s[i + 1])
}

/// The channel value written as the single digit at `i`, which the short
/// forms mean doubled: `#abc` is `#aabbcc`, and `0xaa == 17 * 0xa`.
pub open spec fn hex_single_value(s: Seq<char>, i: int) -> int {
    17 * hex_digit_value(s[i])
}

/// What a color string denotes: `#` followed by 3, 4, 6 or 8 hex digits,
/// channels in the order red, green, blue, alpha, alpha 255 when absent;
/// anything else denotes no color.
pub open spec fn spec_parse_color(s: Seq<char>) -> Option<Rgba> {
    if s.len() == 4 && s[0] == '#' && all_hex_digits(s, 1, 4) {
        Some(Rgba {
            red: hex_single_value(s, 1) as u8,
            green: hex_single_value(s, 2) as u8,
            blue: hex_single_value(s, 3) as u8,
            alpha: 255,
        })
    } else if s.len() == 5 && s[0] == '#' && all_hex_digits(s, 1, 5) {
        Some(Rgba {
            red: hex_single_value(s, 1) as u8,
            green: hex_single_value(s, 2) as u8,
            blue: hex_single_value(s, 3) as u8,
            alpha: hex_single_value(s, 4) as u8,
        })
    } else if s.len() == 7 && s[0] == '#' && all_hex_digits(s, 1, 7) {
        Some(Rgba {
            red: hex_pair_value(s, 1) as u8,
            green: hex_pair_value(s, 3) as u8,
            blue: hex_pair_value(s, 5) as u8,
            alpha: 255,
        })
    } else if s.len() == 9 && s[0] == '#' && all_hex_digits(s, 1, 9) {
        Some(Rgba {
            red: hex_pair_value(s, 1) as u8,
            green: hex_pair_value(s, 3) as u8,
            blue: hex_pair_value(s, 5) as u8,
            alpha: hex_pair_value(s, 7) as u8,
        })
    } else {
        None
    }
}

/// Decodes one hex digit, or reports that `c` is none.
fn hex_digit(c: char) -> (r: Option<u8>)
    ensures
        match r {
            Some(v) => is_hex_digit(c) && v == hex_digit_value(c) && v <= 15,
            None => !is_hex_digit(c),
        },
{
    let u = c as u32;
    if '0' as u32 <= u && u <= '9' as u32 {
        Some((u - '0' as u32) as u8)
    } else if 'a' as u32 <= u && u <= 'f' as u32 {
        Some((u - 'a' as u32 + 10) as u8)
    } else if 'A' as u32 <= u && u <= 'F' as u32 {
        Some((u - 'A' as u32 + 10) as u8)
    } else {
        None
    }
}

/// Decodes the two-digit channel starting at `i`.
fn hex_pair(s: &str, i: usize) -> (r: Option<u8>)
    requires
        i + 1 < s@.len(),
        i + 1 <= usize::MAX,
    ensures
        match r {
            Some(v) => is_hex_digit(s@[i as int]) && is_hex_digit(s@[i + 1]) && v == hex_pair_value(
                s@,
                i as int,
            ),
            None => !(is_hex_digit(s@[i as int]) && is_hex_digit(s@[i + 1])),
        },
{
    let hi = hex_digit(s.get_char(i));
    let lo = hex_digit(s.get_char(i + 1));
    match (hi, lo) {
        (Some(h), Some(l)) => Some(16 * h + l),
        _ => None,
    }
}

/// Decodes the single-digit channel at `i` of a short form.
fn hex_single(s: &str, i: usize) -> (r: Option<u8>)
    requires
        i < s@.len(),
    ensures
        match r {
            Some(v) => is_hex_digit(s@[i as int]) && v == hex_single_value(s@, i as int),
            None => !is_hex_digit(s@[i as int]),
        },
{
    match hex_digit(s.get_char(i)) {
        Some(v) => Some(17 * v),
        None => None,
    }
}

/// Parses a color string; `None` exactly when the string does not denote a
/// color.
pub fn parse_color(s: &str) -> (r: Option<Rgba>)
    ensures
        r == spec_parse_color(s@),
{
    let n = s.unicode_len();
    if n != 4 && n != 5 && n != 7 && n != 9 {
        return None;
    }
    if s.get_char(0) != '#' {
        return None;
    }
    if n == 4 || n == 5 {
        let red = hex_single(s, 1);
        let green = hex_single(s, 2);
        let blue = hex_single(s, 3);
        let alpha = if n == 5 {
            hex_single(s, 4)
        } else {
            Some(255)
        };
        match (red, green, blue, alpha) {
            (Some(red), Some(green), Some(blue), Some(alpha)) => Some(
                Rgba { red, green, blue, alpha },
            ),
            _ => None,
        }
    } else {
        let red = hex_pair(s, 1);
        let green = hex_pair(s, 3);
        let blue = hex_pair(s, 5);
        let alpha = if n == 9 {
            hex_pair(s, 7)
        } else {
            Some(255)
        };
        match (red, green, blue, alpha) {
            (Some(red), Some(green), Some(blue), Some(alpha)) => Some(
                Rgba { red, green, blue, alpha },
            ),
            _ => None,
        }
    }
}

} // verus!
