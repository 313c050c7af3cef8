//! Colors with 8-bit channels, and parsing of CSS-style hex color notation.
//!
//! A hex color is an optional leading `#` followed by 3, 4, 6 or 8 hex
//! digits: `#rgb`, `#rgba`, `#rrggbb` or `#rrggbbaa`. In the 3- and 4-digit
//! short forms each digit stands for a doubled nibble (`#f00` means
//! `#ff0000`). A missing alpha channel means fully opaque.

use vstd::prelude::*;
use crate::text::str_chars;

verus! {

/// A color with 8-bit red, green, blue and alpha channels.
#[derive(Clone, Copy, Debug, PartialEq, Eq, Structural)]
pub struct Rgba8 {
    pub r: u8,
    pub g: u8,
    pub b: u8,
    pub a: u8,
}

impl Rgba8 {
    /// Fully opaque white, the fallback for colors that fail to parse.
    pub fn white() -> (c: Rgba8)
        ensures
            c == spec_white(),
    {
        Rgba8 { r: 255, g: 255, b: 255, a: 255 }
    }

    /// Fully opaque black.
    pub fn black() -> (c: Rgba8)
        ensures
            c == spec_black(),
    {
        Rgba8 { r: 0, g: 0, b: 0, a: 255 }
    }
}

pub open spec fn spec_white() -> Rgba8 {
    Rgba8 { r: 255, g: 255, b: 255, a: 255 }
}

pub open spec fn spec_black() -> Rgba8 {
    Rgba8 { r: 0, g: 0, b: 0, a: 255 }
}

pub open spec fn is_hex_digit(c: char) -> bool {
    ('0' <= c && c <= '9') || ('a' <= c && c <= 'f') || ('A' <= c && c <= 'F')
}

/// The value of one hex digit; meaningful only when `is_hex_digit(c)`.
pub open spec fn hex_digit_val(c: char) -> int {
    if '0' <= c && c <= '9' {
        c as int - '0' as int
    } else if 'a' <= c && c <= 'f' {
        c as int - 'a' as int + 10
    } else {
        c as int - 'A' as int + 10
    }
}

pub open spec fn all_hex_digits(s: Seq<char>) -> bool {
    forall|i: int| 0 <= i < s.len() ==> is_hex_digit(#[trigger] s[i])
}

/// The channel value written with two hex digits.
pub open spec fn hex_byte(hi: char, lo: char) -> u8 {
    (hex_digit_val(hi) * 16 + hex_digit_val(lo)) as u8
}

/// The channel value written with one hex digit, which stands for the digit
/// doubled: `f` means `ff`.
pub open spec fn hex_nibble_byte(d: char) -> u8 {
    (hex_digit_val(d) * 17) as u8
}

/// The digits of a hex color: everything after a single leading `#`, or the
/// whole string when no `#` leads.
pub open spec fn hex_digits_part(s: Seq<char>) -> Seq<char> {
    if s.len() > 0 && s[0] == '#' {
        s.skip(1)
    } else {
        s
    }
}

/// What parsing a hex color returns: `None` when the digit count is not
/// 3, 4, 6 or 8 or some character is no hex digit.
pub open spec fn spec_hex_color(s: Seq<char>) -> Option<Rgba8> {
    let t = hex_digits_part(s);
    if !all_hex_digits(t) {
        None
    } else if t.len() == 3 {
        Some(Rgba8 { r: hex_nibble_byte(t[0]), g: hex_nibble_byte(t[1]), b: hex_nibble_byte(t[2]), a: 255 })
    } else if t.len() == 4 {
        Some(
            Rgba8 {
                r: hex_nibble_byte(t[0]),
                g: hex_nibble_byte(t[1]),
                b: hex_nibble_byte(t[2]),
                a: hex_nibble_byte(t[3]),
            },
        )
    } else if t.len() == 6 {
        Some(
            Rgba8 {
                r: hex_byte(t[0], t[1]),
                g: hex_byte(t[2], t[3]),
                b: hex_byte(t[4], t[5]),
                a: 255,
            },
        )
    } else if t.len() == 8 {
        Some(
            Rgba8 {
                r: hex_byte(t[0], t[1]),
                g: hex_byte(t[2], t[3]),
                b: hex_byte(t[4], t[5]),
                a: hex_byte(t[6], t[7]),
            },
        )
    } else {
        None
    }
}

fn hex_digit_value(c: char) -> (r: Option<u8>)
    ensures
        r is Some <==> is_hex_digit(c),
        r is Some ==> r->0 == hex_digit_val(c),
{
    if '0' <= c && c <= '9' {
        Some(c as u8 - '0' as u8)
    } else if 'a' <= c && c <= 'f' {
        Some(c as u8 - 'a' as u8 + 10)
    } else if 'A' <= c && c <= 'F' {
        Some(c as u8 - 'A' as u8 + 10)
    } else {
        None
    }
}

fn hex_byte_at(t: &[char], i: usize) -> (r: Option<u8>)
    requires
        i + 2 <= t@.len(),
    ensures
        r is Some <==> is_hex_digit(t@[i as int]) && is_hex_digit(t@[i + 1]),
        r is Some ==> r->0 == hex_byte(t@[i as int], t@[i + 1]),
{
    match (hex_digit_value(t[i]), hex_digit_value(t[i + 1])) {
        (Some(hi), Some(lo)) => Some(hi * 16 + lo),
        _ => None,
    }
}

fn hex_nibble_byte_at(t: &[char], i: usize) -> (r: Option<u8>)
    requires
        i < t@.len(),
    ensures
        r is Some <==> is_hex_digit(t@[i as int]),
        r is Some ==> r->0 == hex_nibble_byte(t@[i as int]),
{
    match hex_digit_value(t[i]) {
        Some(d) => Some(d * 17),
        None => None,
    }
}

/// Parses hex color notation, given as a sequence of characters.
pub fn hex_color_chars(s: &[char]) -> (r: Option<Rgba8>)
    ensures
        r == spec_hex_color(s@),
{
    let t: &[char] = if s.len() > 0 && s[0] == '#' {
        slice_skip_one(s)
    } else {
        s
    };
    proof {
        assert(t@ == hex_digits_part(s@));
    }
    if t.len() == 3 {
        match (hex_nibble_byte_at(t, 0), hex_nibble_byte_at(t, 1), hex_nibble_byte_at(t, 2)) {
            (Some(r), Some(g), Some(b)) => Some(Rgba8 { r, g, b, a: 255 }),
            _ => None,
        }
    } else if t.len() == 4 {
        match (
            hex_nibble_byte_at(t, 0),
            hex_nibble_byte_at(t, 1),
            hex_nibble_byte_at(t, 2),
            hex_nibble_byte_at(t, 3),
        ) {
            (Some(r), Some(g), Some(b), Some(a)) => Some(Rgba8 { r, g, b, a }),
            _ => None,
        }
    } else if t.len() == 6 {
        match (hex_byte_at(t, 0), hex_byte_at(t, 2), hex_byte_at(t, 4)) {
            (Some(r), Some(g), Some(b)) => Some(Rgba8 { r, g, b, a: 255 }),
            _ => None,
        }
    } else if t.len() == 8 {
        match (hex_byte_at(t, 0), hex_byte_at(t, 2), hex_byte_at(t, 4), hex_byte_at(t, 6)) {
            (Some(r), Some(g), Some(b), Some(a)) => Some(Rgba8 { r, g, b, a }),
            _ => None,
        }
    } else {
        None
    }
}

/// Parses hex color notation, given as a string.
pub fn hex_color(s: &str) -> (r: Option<Rgba8>)
    ensures
        r == spec_hex_color(s@),
{
    let cs = str_chars(s);
    hex_color_chars(cs.as_slice())
}

fn slice_skip_one(s: &[char]) -> (t: &[char])
    requires
        s@.len() > 0,
    ensures
        t@ == s@.skip(1),
{
    let t = vstd::slice::slice_subrange(s, 1, s.len());
    proof {
        assert(t@ =~= s@.skip(1));
    }
    t
}

} // verus!
