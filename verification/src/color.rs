//! Colour literals: `#rrggbb` and `#rgb` text, and the ANSI escape
//! sequences that select a 24-bit foreground or background colour.

use vstd::prelude::*;
use vstd::string::StringSliceAdditionalSpecFns;
use vstd::string::StringExecFns;
use crate::strs::{decimal, decimal_string};

verus! {

/// The value of an ASCII hex digit (either case).
pub open spec fn hex_value(c: u8) -> Option<u8> {
    if 48 <= c <= 57 {
        Some((c - 48) as u8)
    } else if 97 <= c <= 102 {
        Some((c - 87) as u8)
    } else if 65 <= c <= 70 {
        Some((c - 55) as u8)
    } else {
        None
    }
}

/// A two-byte field read as a base-16 `u8`: two hex digits.
pub open spec fn byte_field(c0: u8, c1: u8) -> Option<u8> {
    match (hex_value(c0), hex_value(c1)) {
        (Some(a), Some(b)) => Some((16 * a + b) as u8),
        _ => None,
    }
}

/// The index of the first byte at or after `i` that is not `#`.
pub open spec fn skip_hashes(b: Seq<u8>, i: int) -> int
    decreases b.len() - i,
{
    if 0 <= i < b.len() && b[i] == 35 {
        skip_hashes(b, i + 1)
    } else {
        i
    }
}

/// The bytes of a colour literal after its leading `#` characters.
pub open spec fn color_digits(b: Seq<u8>) -> Seq<u8> {
    b.subrange(skip_hashes(b, 0), b.len() as int)
}

/// A UTF-8 continuation byte, where no character starts.
pub open spec fn is_continuation(c: u8) -> bool {
    128 <= c < 192
}

/// Whether reading a six-byte literal would cut a character in two: the
/// first field ends inside a character, or it is read and the second
/// field ends inside one.
pub open spec fn cuts_character(b: Seq<u8>) -> bool {
    let h = color_digits(b);
    h.len() == 6 && (is_continuation(h[2]) || (byte_field(h[0], h[1]) is Some && is_continuation(h[4])))
}

/// The colour of a literal: six bytes read as three two-byte fields, or
/// three hex digits each repeated (`#abc` is `#aabbcc`); nothing for any
/// other length or digit.
pub open spec fn color_of(b: Seq<u8>) -> Option<(u8, u8, u8)> {
    let h = color_digits(b);
    if h.len() == 6 {
        match (byte_field(h[0], h[1]), byte_field(h[2], h[3]), byte_field(h[4], h[5])) {
            (Some(r), Some(g), Some(bl)) => Some((r, g, bl)),
            _ => None,
        }
    } else if h.len() == 3 {
        match (hex_value(h[0]), hex_value(h[1]), hex_value(h[2])) {
            (Some(r), Some(g), Some(bl)) => Some(((17 * r) as u8, (17 * g) as u8, (17 * bl) as u8)),
            _ => None,
        }
    } else {
        None
    }
}

fn hex_digit_value(c: u8) -> (r: Option<u8>)
    ensures
        r == hex_value(c),
{
    if 48 <= c && c <= 57 {
        Some(c - 48)
    } else if 97 <= c && c <= 102 {
        Some(c - 87)
    } else if 65 <= c && c <= 70 {
        Some(c - 55)
    } else {
        None
    }
}

fn read_field(c0: u8, c1: u8) -> (r: Option<u8>)
    ensures
        r == byte_field(c0, c1),
{
    match (hex_digit_value(c0), hex_digit_value(c1)) {
        (Some(a), Some(b)) => Some(16 * a + b),
        _ => None,
    }
}

fn repeated_digit(c: u8) -> (r: Option<u8>)
    ensures
        r == (match hex_value(c) {
            Some(d) => Some((17 * d) as u8),
            None => None,
        }),
{
    match hex_digit_value(c) {
        Some(d) => Some(17 * d),
        None => None,
    }
}

/// Whether reading `hex` as a colour literal would cut a character in two
/// (see `cuts_character`); `parse_hex_color` is only for texts where it
/// would not.
pub fn would_cut_character(hex: &str) -> (r: bool)
    ensures
        r == cuts_character(hex.spec_bytes()),
{
    let b = hex.as_bytes();
    let ghost bs = b@;
    let mut k: usize = 0;
    while k < b.len() && b[k] == 35
        invariant
            k <= b@.len(),
            skip_hashes(bs, k as int) == skip_hashes(bs, 0),
            bs == b@,
        decreases b.len() - k,
    {
        k = k + 1;
    }
    assert(skip_hashes(bs, k as int) == k);
    let ghost h = color_digits(bs);
    if b.len() - k != 6 {
        return false;
    }
    assert(h[0] == b[k as int] && h[1] == b[k + 1] && h[2] == b[k + 2] && h[4] == b[k + 4]);
    let c2 = b[k + 2];
    let c4 = b[k + 4];
    (128 <= c2 && c2 < 192) || (read_field(b[k], b[k + 1]).is_some() && 128 <= c4 && c4 < 192)
}

/// Parse a hex color string and return RGB components
pub fn parse_hex_color(hex: &str) -> (r: Option<(u8, u8, u8)>)
    requires
        !cuts_character(hex.spec_bytes()),
    ensures
        r == color_of(hex.spec_bytes()),
{
    let b = hex.as_bytes();
    let ghost bs = b@;
    let mut k: usize = 0;
    while k < b.len() && b[k] == 35
        invariant
            k <= b@.len(),
            skip_hashes(bs, k as int) == skip_hashes(bs, 0),
            bs == b@,
        decreases b.len() - k,
    {
        k = k + 1;
    }
    let n = b.len() - k;
    let ghost h = color_digits(bs);
    assert(skip_hashes(bs, k as int) == k);
    assert(h.len() == n);
    if n == 6 {
        assert(h[0] == b[k as int] && h[1] == b[k + 1] && h[2] == b[k + 2]);
        assert(h[3] == b[k + 3] && h[4] == b[k + 4] && h[5] == b[k + 5]);
        let red = read_field(b[k], b[k + 1]);
        let green = read_field(b[k + 2], b[k + 3]);
        let blue = read_field(b[k + 4], b[k + 5]);
        match (red, green, blue) {
            (Some(x), Some(y), Some(z)) => Some((x, y, z)),
            _ => None,
        }
    } else if n == 3 {
        assert(h[0] == b[k as int] && h[1] == b[k + 1] && h[2] == b[k + 2]);
        let red = repeated_digit(b[k]);
        let green = repeated_digit(b[k + 1]);
        let blue = repeated_digit(b[k + 2]);
        match (red, green, blue) {
            (Some(x), Some(y), Some(z)) => Some((x, y, z)),
            _ => None,
        }
    } else {
        None
    }
}

/// The ASCII hex digit of a value below 16, in upper or lower case.
pub open spec fn hex_digit_byte(d: u8, upper: bool) -> u8 {
    if d < 10 {
        (48 + d) as u8
    } else if upper {
        (55 + d) as u8
    } else {
        (87 + d) as u8
    }
}

/// A byte as two hex digits, most significant first (`{:02x}` or `{:02X}`).
pub open spec fn hex2(x: u8, upper: bool) -> Seq<u8> {
    seq![hex_digit_byte(x / 16, upper), hex_digit_byte(x % 16, upper)]
}

/// A colour written `#rrggbb` with two hex digits per component, in
/// either case, reads back as that colour.
pub proof fn lemma_formatted_color_round_trip(r: u8, g: u8, b: u8, upper: bool)
    ensures
        color_of(seq![35u8] + hex2(r, upper) + hex2(g, upper) + hex2(b, upper)) == Some((r, g, b)),
{
    let s = seq![35u8] + hex2(r, upper) + hex2(g, upper) + hex2(b, upper);
    assert forall|d: u8| d < 16 implies hex_value(#[trigger] hex_digit_byte(d, upper)) == Some(d) by {}
    assert(s.len() == 7);
    assert(s[1] == hex_digit_byte(r / 16, upper));
    assert(s[1] != 35);
    assert(skip_hashes(s, 1) == 1);
    assert(skip_hashes(s, 0) == 1);
    let h = color_digits(s);
    assert(h =~= hex2(r, upper) + hex2(g, upper) + hex2(b, upper));
    assert(byte_field(h[0], h[1]) == Some(r));
    assert(byte_field(h[2], h[3]) == Some(g));
    assert(byte_field(h[4], h[5]) == Some(b));
}

/// The escape sequence that selects a 24-bit colour: `ESC [ <layer> ; 2 ;
/// r ; g ; b m`, with the components in decimal.
pub open spec fn color_escape(layer: Seq<char>, r: u8, g: u8, b: u8) -> Seq<char> {
    seq!['\x1b', '['] + layer + ";2;"@ + decimal(r as nat) + ";"@ + decimal(g as nat) + ";"@ + decimal(
        b as nat,
    ) + "m"@
}

fn color_escape_exec(layer: &str, r: u8, g: u8, b: u8) -> (s: String)
    ensures
        s@ == color_escape(layer@, r, g, b),
{
    let mut s = String::from_str("\x1b[");
    s.append(layer);
    s.append(";2;");
    let rs = decimal_string(r as u64);
    s.append(rs.as_str());
    s.append(";");
    let gs = decimal_string(g as u64);
    s.append(gs.as_str());
    s.append(";");
    let bs = decimal_string(b as u64);
    s.append(bs.as_str());
    s.append("m");
    proof {
        reveal_strlit("\x1b[");
    }
    assert(s@ =~= color_escape(layer@, r, g, b));
    s
}

/// Generate ANSI color escape sequence for foreground color
pub fn make_fg_color_escape(r: u8, g: u8, b: u8) -> (s: String)
    ensures
        s@ == color_escape("38"@, r, g, b),
{
    color_escape_exec("38", r, g, b)
}

/// Generate ANSI color escape sequence for background color
pub fn make_bg_color_escape(r: u8, g: u8, b: u8) -> (s: String)
    ensures
        s@ == color_escape("48"@, r, g, b),
{
    color_escape_exec("48", r, g, b)
}

} // verus!
