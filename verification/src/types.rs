//! Plain value types: colours, fixed-point numbers and points.

use vstd::prelude::*;
use vstd::std_specs::convert::FromSpecImpl;

verus! {

/// An 8-bit RGBA colour.
#[derive(Debug, Clone, Copy, PartialEq, Eq, Hash, Structural)]
pub struct Rgba {
    pub r: u8,
    pub g: u8,
    pub b: u8,
    pub a: u8,
}

/// Why a piece of text is not a hex colour.
#[derive(Debug, Clone, Copy, PartialEq, Eq, Structural)]
pub enum HexError {
    /// After the optional `#` the text has `found` characters, neither 6 nor 8.
    InvalidLength { found: usize },
    /// The text has the right length but holds a character that is no hex digit.
    InvalidDigit,
}

/// The value of a hexadecimal digit, in either case.
pub open spec fn hex_digit_value(c: char) -> Option<u8> {
    if '0' <= c && c <= '9' {
        Some((c as u32 - '0' as u32) as u8)
    } else if 'a' <= c && c <= 'f' {
        Some((c as u32 - 'a' as u32 + 10) as u8)
    } else if 'A' <= c && c <= 'F' {
        Some((c as u32 - 'A' as u32 + 10) as u8)
    } else {
        None
    }
}

/// The value of a two-digit hexadecimal byte, most significant digit first.
pub open spec fn hex_byte_value(hi: char, lo: char) -> Option<u8> {
    match (hex_digit_value(hi), hex_digit_value(lo)) {
        (Some(h), Some(l)) => Some((h * 16 + l) as u8),
        _ => None,
    }
}

/// The text without its optional leading `#`.
pub open spec fn hex_digits(text: Seq<char>) -> Seq<char> {
    if text.len() > 0 && text[0] == '#' {
        text.subrange(1, text.len() as int)
    } else {
        text
    }
}

/// The colour that a piece of hex text denotes: six digits give an opaque
/// colour, eight digits give the alpha channel too.
pub open spec fn parse_hex(text: Seq<char>) -> Result<Rgba, HexError> {
    let d = hex_digits(text);
    if d.len() == 6 || d.len() == 8 {
        let r = hex_byte_value(d[0], d[1]);
        let g = hex_byte_value(d[2], d[3]);
        let b = hex_byte_value(d[4], d[5]);
        let a = if d.len() == 8 {
            hex_byte_value(d[6], d[7])
        } else {
            Some(255u8)
        };
        if r is Some && g is Some && b is Some && a is Some {
            Ok(Rgba { r: r->0, g: g->0, b: b->0, a: a->0 })
        } else {
            Err(HexError::InvalidDigit)
        }
    } else {
        Err(HexError::InvalidLength { found: d.len() as usize })
    }
}

fn hex_digit(c: char) -> (v: Option<u8>)
    ensures
        v == hex_digit_value(c),
{
    let n: u32 = c as u32;
    if 48 <= n && n <= 57 {
        Some((n - 48) as u8)
    } else if 97 <= n && n <= 102 {
        Some((n - 97 + 10) as u8)
    } else if 65 <= n && n <= 70 {
        Some((n - 65 + 10) as u8)
    } else {
        None
    }
}

fn hex_byte(text: &str, at: usize) -> (v: Option<u8>)
    requires
        at <= 6,
        at + 1 < text@.len(),
    ensures
        v == hex_byte_value(text@[at as int], text@[at + 1]),
{
    let hi = hex_digit(text.get_char(at));
    let lo = hex_digit(text.get_char(at + 1));
    match (hi, lo) {
        (Some(h), Some(l)) => Some(h * 16 + l),
        _ => None,
    }
}

impl Rgba {
    /// Opaque black.
    pub fn black() -> (c: Self)
        ensures
            c == (Rgba { r: 0, g: 0, b: 0, a: 255 }),
    {
        Self { r: 0, g: 0, b: 0, a: 255 }
    }

    /// Opaque white.
    pub fn white() -> (c: Self)
        ensures
            c == (Rgba { r: 255, g: 255, b: 255, a: 255 }),
    {
        Self { r: 255, g: 255, b: 255, a: 255 }
    }

    /// Black with no opacity at all.
    pub fn transparent() -> (c: Self)
        ensures
            c == (Rgba { r: 0, g: 0, b: 0, a: 0 }),
    {
        Self { r: 0, g: 0, b: 0, a: 0 }
    }

    pub fn new(r: u8, g: u8, b: u8, a: u8) -> (c: Self)
        ensures
            c == (Rgba { r, g, b, a }),
    {
        Self { r, g, b, a }
    }

    /// Reads a colour from hex text: an optional leading `#`, then exactly six
    /// hex digits (opaque) or exactly eight (with alpha).
    pub fn from_hex(hex: &str) -> (res: Result<Self, HexError>)
        ensures
            res == parse_hex(hex@),
    {
        let total: usize = hex.unicode_len();
        let start: usize = if total > 0 && hex.get_char(0) == '#' {
            1
        } else {
            0
        };
        let digits = hex.substring_char(start, total);
        assert(digits@ == hex_digits(hex@));
        let len: usize = total - start;
        if len != 6 && len != 8 {
            return Err(HexError::InvalidLength { found: len });
        }
        let r = hex_byte(digits, 0);
        let g = hex_byte(digits, 2);
        let b = hex_byte(digits, 4);
        let a = if len == 8 {
            hex_byte(digits, 6)
        } else {
            Some(255u8)
        };
        match (r, g, b, a) {
            (Some(r), Some(g), Some(b), Some(a)) => Ok(Self { r, g, b, a }),
            _ => Err(HexError::InvalidDigit),
        }
    }
}

impl Default for Rgba {
    fn default() -> (c: Self)
        ensures
            c == (Rgba { r: 0, g: 0, b: 0, a: 0 }),
    {
        Rgba { r: 0, g: 0, b: 0, a: 0 }
    }
}

impl From<[u8; 4]> for Rgba {
    fn from(arr: [u8; 4]) -> (c: Self) {
        Self { r: arr[0], g: arr[1], b: arr[2], a: arr[3] }
    }
}

impl FromSpecImpl<[u8; 4]> for Rgba {
    open spec fn obeys_from_spec() -> bool {
        true
    }

    open spec fn from_spec(arr: [u8; 4]) -> Self {
        Rgba { r: arr[0], g: arr[1], b: arr[2], a: arr[3] }
    }
}

/// The raw value of the fixed-point number one.
pub const FIXED_ONE: i32 = 65536;

/// A signed fixed-point number with sixteen fractional bits: `raw` counts
/// 65536ths. Lengths are in pixels, angles in radians, scale factors are
/// plain ratios.
#[derive(Debug, Clone, Copy, PartialEq, Eq, Hash, Structural)]
pub struct Fixed {
    pub raw: i32,
}

impl Fixed {
    /// The fixed-point number with the given raw value.
    pub fn from_raw(raw: i32) -> (v: Self)
        ensures
            v.raw == raw,
    {
        Self { raw }
    }

    /// The whole number `n`.
    pub fn from_int(n: i16) -> (v: Self)
        ensures
            v.raw == n * FIXED_ONE,
    {
        Self { raw: n as i32 * FIXED_ONE }
    }

    pub fn zero() -> (v: Self)
        ensures
            v.raw == 0,
    {
        Self { raw: 0 }
    }

    pub fn one() -> (v: Self)
        ensures
            v.raw == FIXED_ONE,
    {
        Self { raw: FIXED_ONE }
    }
}

impl Default for Fixed {
    fn default() -> (v: Self)
        ensures
            v.raw == 0,
    {
        Self { raw: 0 }
    }
}

/// A point, or a size, in pixels.
#[derive(Debug, Clone, Copy, PartialEq, Eq, Hash, Structural)]
pub struct Point {
    pub x: Fixed,
    pub y: Fixed,
}

impl Point {
    pub fn new(x: Fixed, y: Fixed) -> (p: Self)
        ensures
            p == (Point { x, y }),
    {
        Self { x, y }
    }

    /// The point at whole pixel coordinates.
    pub fn from_pixels(x: i16, y: i16) -> (p: Self)
        ensures
            p.x.raw == x * FIXED_ONE,
            p.y.raw == y * FIXED_ONE,
    {
        Self { x: Fixed::from_int(x), y: Fixed::from_int(y) }
    }

    /// The origin.
    pub fn zero() -> (p: Self)
        ensures
            p.x.raw == 0,
            p.y.raw == 0,
    {
        Self { x: Fixed::zero(), y: Fixed::zero() }
    }
}

impl Default for Point {
    fn default() -> (p: Self)
        ensures
            p.x.raw == 0,
            p.y.raw == 0,
    {
        Self { x: Fixed::zero(), y: Fixed::zero() }
    }
}

impl From<Rgba> for [u8; 4] {
    fn from(c: Rgba) -> (arr: Self) {
        [c.r, c.g, c.b, c.a]
    }
}

impl FromSpecImpl<Rgba> for [u8; 4] {
    open spec fn obeys_from_spec() -> bool {
        true
    }

    open spec fn from_spec(c: Rgba) -> Self {
        [c.r, c.g, c.b, c.a]
    }
}

} // verus!
