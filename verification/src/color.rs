//! Colours given on the command line, as the renderer takes them: one
//! integer for red, green and blue.

use vstd::prelude::*;

verus! {

/// The error of the colour parser.
#[verifier::external_type_specification]
#[verifier::external_body]
pub struct ExParseColorError(csscolorparser::ParseColorError);

/// The value of a hexadecimal digit, if `c` is one.
pub open spec fn hex_value(c: char) -> Option<int> {
    if '0' <= c <= '9' {
        Some(c as int - '0' as int)
    } else if 'a' <= c <= 'f' {
        Some(c as int - 'a' as int + 10)
    } else if 'A' <= c <= 'F' {
        Some(c as int - 'A' as int + 10)
    } else {
        None
    }
}

/// A number sign and six hexadecimal digits.
pub open spec fn is_hex_rgb(text: Seq<char>) -> bool {
    &&& text.len() == 7
    &&& text[0] == '#'
    &&& forall|i: int| 1 <= i < 7 ==> (#[trigger] hex_value(text[i])) is Some
}

/// The byte that two hexadecimal digits stand for.
pub open spec fn hex_byte(hi: char, lo: char) -> u8 {
    (16 * hex_value(hi)->0 + hex_value(lo)->0) as u8
}

/// The colour that a number sign and six hexadecimal digits stand for: red,
/// green and blue pair by pair, and full opacity.
pub open spec fn hex_rgba(text: Seq<char>) -> (u8, u8, u8, u8) {
    (hex_byte(text[1], text[2]), hex_byte(text[3], text[4]), hex_byte(text[5], text[6]), 255u8)
}

/// Calls `csscolorparser::parse` and turns the colour into four bytes by
/// `Color::to_rgba8`. The one claim is that a number sign with six
/// hexadecimal digits is read, and gives the three bytes that the digits stand
/// for, pair by pair, and full opacity. Of other texts nothing is claimed.
#[verifier::external_body]
fn css_parse_rgba8(cs: &str) -> (r: Result<(u8, u8, u8, u8), csscolorparser::ParseColorError>)
    ensures
        match r {
            Ok(c) => is_hex_rgb(cs@) ==> c == hex_rgba(cs@),
            Err(_) => !is_hex_rgb(cs@),
        },
{
    let [r, g, b, a] = csscolorparser::parse(cs)?.to_rgba8();
    Ok((r, g, b, a))
}

/// The words of `csscolorparser::ParseColorError`, by its `Display`.
#[verifier::external_body]
fn color_error_text(e: &csscolorparser::ParseColorError) -> (s: String) {
    e.to_string()
}

/// A text that names no colour; the parser's words say why.
#[derive(Debug, Clone, PartialEq, Eq)]
pub struct ColorError {
    pub message: String,
}

/// The integer whose four bytes, from the highest, are zero, red, green and
/// blue.
pub open spec fn packed(r: u8, g: u8, b: u8) -> int {
    r * 0x1_0000 + g * 0x100 + b
}

/// The four bytes of a number that is not negative, from the highest.
pub open spec fn be_bytes(v: i32) -> Seq<int> {
    let n = v as int;
    seq![(n / 0x100_0000) % 256, (n / 0x1_0000) % 256, (n / 0x100) % 256, n % 256]
}

/// Packs red, green and blue into one integer; the opacity is dropped.
pub fn color_to_i32(rgba: (u8, u8, u8, u8)) -> (v: i32)
    ensures
        v == packed(rgba.0, rgba.1, rgba.2),
        0 <= v < 0x100_0000,
        be_bytes(v) == seq![0int, rgba.0 as int, rgba.1 as int, rgba.2 as int],
{
    let v: i32 = (rgba.0 as i32) * 0x1_0000 + (rgba.1 as i32) * 0x100 + (rgba.2 as i32);
    assert(be_bytes(v) =~= seq![0int, rgba.0 as int, rgba.1 as int, rgba.2 as int]);
    v
}

/// Reads a colour in the notation of style sheets and packs its red, green
/// and blue into one integer of three bytes. A number sign with six
/// hexadecimal digits is always read, and gives the bytes that the digits
/// stand for; which other texts name a colour, and which, is the parser's to
/// say. A text that names none is answered by an error.
pub fn parse_color_to_i32(cs: &str) -> (r: Result<i32, ColorError>)
    ensures
        match r {
            Ok(v) => 0 <= v < 0x100_0000 && (is_hex_rgb(cs@) ==> be_bytes(v) == seq![
                0int,
                hex_rgba(cs@).0 as int,
                hex_rgba(cs@).1 as int,
                hex_rgba(cs@).2 as int,
            ]),
            Err(_) => !is_hex_rgb(cs@),
        },
{
    match css_parse_rgba8(cs) {
        Ok(rgba) => Ok(color_to_i32(rgba)),
        Err(e) => Err(ColorError { message: color_error_text(&e) }),
    }
}

} // verus!
