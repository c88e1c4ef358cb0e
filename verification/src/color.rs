//! Colours and the colour codes of the definition files.

use vstd::prelude::*;
use crate::raws::structs::Real;

verus! {

/// A colour: how strong red, green and blue are, each a number from zero to
/// one.
#[derive(Clone, Copy, Debug, PartialEq, Eq, Structural)]
pub struct Color {
    pub r: Real,
    pub g: Real,
    pub b: Real,
}

/// Whether `c` is a digit to the base 16.
pub open spec fn is_hex_digit(c: char) -> bool {
    ('0' <= c && c <= '9') || ('a' <= c && c <= 'f') || ('A' <= c && c <= 'F')
}

/// Whether `code` is written as an HTML colour code: `#`, then six
/// hexadecimal digits, and nothing else.
pub open spec fn is_color_code(code: Seq<char>) -> bool {
    code.len() == 7 && code[0] == '#' && forall|i: int| 1 <= i < 7 ==> is_hex_digit(#[trigger] code[i])
}

/// The strengths of red, green and blue that a colour code denotes, each as
/// the bit pattern of a single-precision number.
pub uninterp spec fn hex_color_bits(code: Seq<char>) -> (u32, u32, u32);

/// The colour that `code` denotes, or none where `code` is not written as a
/// colour code.
pub open spec fn color_of(code: Seq<char>) -> Option<Color> {
    if is_color_code(code) {
        let bits = hex_color_bits(code);
        Some(Color { r: Real { bits: bits.0 }, g: Real { bits: bits.1 }, b: Real { bits: bits.2 } })
    } else {
        None
    }
}

/// Reads an HTML colour code.
///
/// Trusted: the body is `rltk::RGB::from_hex`. It answers with a colour if
/// and only if the text starts with `#` and goes on with exactly six
/// characters that are digits to the base 16; the colour depends on the
/// text alone. The contract states when a colour comes out and gives its
/// three channels a name; the body hands them out as bit patterns.
#[verifier::external_body]
pub(crate) fn rgb_from_hex(code: &str) -> (r: Option<(u32, u32, u32)>)
    ensures
        r == if is_color_code(code@) {
            Some(hex_color_bits(code@))
        } else {
            None
        },
{
    match rltk::RGB::from_hex(code) {
        Ok(rgb) => Some((rgb.r.to_bits(), rgb.g.to_bits(), rgb.b.to_bits())),
        Err(_) => None,
    }
}

/// Parses an HTML colour code such as `#FF8800`.
pub fn parse_hex_color(code: &str) -> (r: Option<Color>)
    ensures
        r == color_of(code@),
{
    match rgb_from_hex(code) {
        Some((r, g, b)) => Some(
            Color { r: Real::from_bits(r), g: Real::from_bits(g), b: Real::from_bits(b) },
        ),
        None => None,
    }
}

} // verus!
