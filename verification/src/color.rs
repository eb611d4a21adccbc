//! Parsing of CSS background colors: `#RGB`, `#RGBA`, `#RRGGBB`,
//! `#RRGGBBAA` and the named colors.

use vstd::prelude::*;
use vstd::string::*;

use vstd::utf8::is_ascii_chars;

use crate::named_colors::{
    find_named_color, is_six_hex_digits, law_both_spellings_name_the_same_color,
    lemma_named_colors_are_six_hex_digits, named_color_hex, named_color_row,
};
use crate::text::{lemma_char_ascii_code, lemma_utf8_len_bounds, utf8_len};

verus! {

/// `std::num::ParseIntError`, the error of parsing a hexadecimal number.
#[verifier::external_type_specification]
#[verifier::external_body]
pub struct ExParseIntError(std::num::ParseIntError);

/// A color with 8-bit red, green, blue and alpha channels.
#[derive(Debug, Clone, Copy, PartialEq, Eq, Structural)]
pub struct ColorU {
    pub r: u8,
    pub g: u8,
    pub b: u8,
    pub a: u8,
}

/// Why a background color could not be parsed.
#[derive(Debug, PartialEq)]
pub enum CssColorParseError<'a> {
    /// Neither a known color name nor hex digits of a valid length: the input.
    InvalidColor(&'a str),
    /// A character of a short hex color that is not a hex digit, as a byte.
    InvalidColorComponent(u8),
    /// The digits of a long hex color are not a hexadecimal number.
    ValueParseErr(std::num::ParseIntError),
}

/// The value of a hexadecimal digit given as an ASCII byte.
pub open spec fn hex_byte_value(c: u8) -> Option<u8> {
    if 48 <= c <= 57 {
        Some((c - 48) as u8)
    } else if 97 <= c <= 102 {
        Some((c - 97 + 10) as u8)
    } else if 65 <= c <= 70 {
        Some((c - 65 + 10) as u8)
    } else {
        None
    }
}

/// The value of a hexadecimal digit, or the error naming the byte.
fn from_hex<'a>(c: u8) -> (r: Result<u8, CssColorParseError<'a>>)
    ensures
        r == (match hex_byte_value(c) {
            Some(v) => Ok(v),
            None => Err(CssColorParseError::InvalidColorComponent(c)),
        }),
        r matches Ok(v) ==> v < 16,
{
    if 48 <= c && c <= 57 {
        Ok(c - 48)
    } else if 97 <= c && c <= 102 {
        Ok(c - 97 + 10)
    } else if 65 <= c && c <= 70 {
        Ok(c - 65 + 10)
    } else {
        Err(CssColorParseError::InvalidColorComponent(c))
    }
}

/// Whether a character is a hexadecimal digit.
pub open spec fn is_hex_char(c: char) -> bool {
    ('0' <= c <= '9') || ('a' <= c <= 'f') || ('A' <= c <= 'F')
}

/// The value of a hexadecimal digit.
pub open spec fn hex_char_value(c: char) -> nat {
    if '0' <= c <= '9' {
        (c as nat - '0' as nat) as nat
    } else if 'a' <= c <= 'f' {
        (c as nat - 'a' as nat + 10) as nat
    } else {
        (c as nat - 'A' as nat + 10) as nat
    }
}

/// The value of a sequence of hexadecimal digits, most significant first.
pub open spec fn hex_value(s: Seq<char>) -> nat
    decreases s.len(),
{
    if s.len() == 0 {
        0
    } else {
        hex_value(s.drop_last()) * 16 + hex_char_value(s.last())
    }
}

/// The digits of a number text: the text without its leading `+`, if any.
pub open spec fn number_digits(s: Seq<char>) -> Seq<char> {
    if s.len() > 0 && s[0] == '+' {
        s.drop_first()
    } else {
        s
    }
}

/// Whether a text is a hexadecimal number: an optional `+` and at least one
/// hexadecimal digit, with nothing else.
pub open spec fn is_hex_number(s: Seq<char>) -> bool {
    let d = number_digits(s);
    d.len() > 0 && forall|i| 0 <= i < d.len() ==> is_hex_char(#[trigger] d[i])
}

/// The error that `u32::from_str_radix` gives on a text and a radix where
/// it fails; it depends on these alone.
pub uninterp spec fn from_str_radix_error(src: Seq<char>, radix: u32) -> std::num::ParseIntError;

/// Calls `u32::from_str_radix`. The claim, from its documentation: it
/// succeeds exactly on an optional `+` followed by digits of the radix, and
/// gives their value, which cannot overflow a `u32` for at most eight
/// characters. Where it fails, its error is named `from_str_radix_error`;
/// which kind of error that is is not described.
#[verifier::external_body]
fn u32_from_str_radix(src: &str, radix: u32) -> (r: Result<u32, std::num::ParseIntError>)
    requires
        radix == 16,
        2 <= src@.len() <= 8,
    ensures
        r is Ok <==> is_hex_number(src@),
        r matches Ok(v) ==> v == hex_value(number_digits(src@)),
        r matches Err(e) ==> e == from_str_radix_error(src@, radix),
{
    u32::from_str_radix(src, radix)
}

/// What a hex color text denotes, before errors are attached to it.
pub enum ColorOutcome {
    Parsed(ColorU),
    InvalidColor,
    InvalidComponent(u8),
    InvalidNumber,
}

/// A hexadecimal digit written twice: `d` as `dd`.
pub open spec fn doubled(d: u8) -> u8 {
    (d * 16 + d) as u8
}

/// A short hex color: three (or, with alpha, four) digits, each one standing
/// for a channel written with that digit twice. The first character that is
/// not a digit is reported.
pub open spec fn short_form_outcome(s: Seq<char>, with_alpha: bool) -> ColorOutcome {
    let r = s[0] as u8;
    let g = s[1] as u8;
    let b = s[2] as u8;
    let a = s[3] as u8;
    if hex_byte_value(r) is None {
        ColorOutcome::InvalidComponent(r)
    } else if hex_byte_value(g) is None {
        ColorOutcome::InvalidComponent(g)
    } else if hex_byte_value(b) is None {
        ColorOutcome::InvalidComponent(b)
    } else if with_alpha && hex_byte_value(a) is None {
        ColorOutcome::InvalidComponent(a)
    } else {
        ColorOutcome::Parsed(
            ColorU {
                r: doubled(hex_byte_value(r).unwrap()),
                g: doubled(hex_byte_value(g).unwrap()),
                b: doubled(hex_byte_value(b).unwrap()),
                a: if with_alpha {
                    doubled(hex_byte_value(a).unwrap())
                } else {
                    255
                },
            },
        )
    }
}

/// The opaque color of a 24-bit number `0xRRGGBB`.
pub open spec fn opaque_color(v: nat) -> ColorU {
    ColorU {
        r: ((v / 0x10000) % 256) as u8,
        g: ((v / 0x100) % 256) as u8,
        b: (v % 256) as u8,
        a: 255,
    }
}

/// The color of a 32-bit number `0xRRGGBBAA`.
pub open spec fn color_with_alpha(v: nat) -> ColorU {
    ColorU {
        r: ((v / 0x1000000) % 256) as u8,
        g: ((v / 0x10000) % 256) as u8,
        b: ((v / 0x100) % 256) as u8,
        a: (v % 256) as u8,
    }
}

/// What a hex color text (without its `#`) denotes, chosen by its length in
/// bytes: 3 or 4 for the short forms, 6 or 8 for a hexadecimal number of the
/// color without or with alpha.
pub open spec fn hex_color_outcome(s: Seq<char>) -> ColorOutcome {
    let n = utf8_len(s);
    if n == 3 {
        short_form_outcome(s, false)
    } else if n == 4 {
        short_form_outcome(s, true)
    } else if n == 6 || n == 8 {
        if is_hex_number(s) {
            let v = hex_value(number_digits(s));
            ColorOutcome::Parsed(
                if n == 6 {
                    opaque_color(v)
                } else {
                    color_with_alpha(v)
                },
            )
        } else {
            ColorOutcome::InvalidNumber
        }
    } else {
        ColorOutcome::InvalidColor
    }
}

/// A short hex color text must have a character for each of its bytes; where
/// it does not, it cannot be read as the short form.
pub open spec fn short_form_readable(s: Seq<char>) -> bool {
    (utf8_len(s) == 3 || utf8_len(s) == 4) ==> s.len() == utf8_len(s)
}

/// Whether a parse result is the one that a hex color text denotes.
pub open spec fn color_result_agrees<'a>(
    r: Result<ColorU, CssColorParseError<'a>>,
    s: Seq<char>,
) -> bool {
    match hex_color_outcome(s) {
        ColorOutcome::Parsed(c) => r == Ok::<ColorU, CssColorParseError<'a>>(c),
        ColorOutcome::InvalidColor => r matches Err(CssColorParseError::InvalidColor(t)) && t@
            == s,
        ColorOutcome::InvalidComponent(b) => r == Err::<ColorU, CssColorParseError<'a>>(
            CssColorParseError::InvalidColorComponent(b),
        ),
        ColorOutcome::InvalidNumber => r == Err::<ColorU, CssColorParseError<'a>>(
            CssColorParseError::ValueParseErr(from_str_radix_error(s, 16)),
        ),
    }
}

/// Parses a hex color given without its `#`: `RGB`, `RGBA`, `RRGGBB` or
/// `RRGGBBAA`.
pub fn parse_background_color<'a>(input: &'a str) -> (r: Result<ColorU, CssColorParseError<'a>>)
    requires
        short_form_readable(input@),
    ensures
        color_result_agrees(r, input@),
{
    proof {
        lemma_utf8_len_bounds(input@);
    }
    let len = input.as_bytes().len();
    if len == 3 {
        let r = input.get_char(0) as u8;
        let g = input.get_char(1) as u8;
        let b = input.get_char(2) as u8;

        let r = match from_hex(r) {
            Ok(d) => d * 16 + d,
            Err(e) => return Err(e),
        };
        let g = match from_hex(g) {
            Ok(d) => d * 16 + d,
            Err(e) => return Err(e),
        };
        let b = match from_hex(b) {
            Ok(d) => d * 16 + d,
            Err(e) => return Err(e),
        };

        Ok(ColorU { r: r, g: g, b: b, a: 255 })
    } else if len == 4 {
        let r = input.get_char(0) as u8;
        let g = input.get_char(1) as u8;
        let b = input.get_char(2) as u8;
        let a = input.get_char(3) as u8;

        let r = match from_hex(r) {
            Ok(d) => d * 16 + d,
            Err(e) => return Err(e),
        };
        let g = match from_hex(g) {
            Ok(d) => d * 16 + d,
            Err(e) => return Err(e),
        };
        let b = match from_hex(b) {
            Ok(d) => d * 16 + d,
            Err(e) => return Err(e),
        };
        let a = match from_hex(a) {
            Ok(d) => d * 16 + d,
            Err(e) => return Err(e),
        };

        Ok(ColorU { r: r, g: g, b: b, a: a })
    } else if len == 6 {
        let v = match u32_from_str_radix(input, 16) {
            Ok(v) => v,
            Err(e) => return Err(CssColorParseError::ValueParseErr(e)),
        };
        proof {
            assert((v >> 16u32) & 255u32 == (v / 0x10000) % 256) by (bit_vector);
            assert((v >> 8u32) & 255u32 == (v / 0x100) % 256) by (bit_vector);
            assert(v & 255u32 == v % 256) by (bit_vector);
        }
        Ok(ColorU {
            r: ((v >> 16) & 255) as u8,
            g: ((v >> 8) & 255) as u8,
            b: (v & 255) as u8,
            a: 255,
        })
    } else if len == 8 {
        let v = match u32_from_str_radix(input, 16) {
            Ok(v) => v,
            Err(e) => return Err(CssColorParseError::ValueParseErr(e)),
        };
        proof {
            assert((v >> 24u32) & 255u32 == (v / 0x1000000) % 256) by (bit_vector);
            assert((v >> 16u32) & 255u32 == (v / 0x10000) % 256) by (bit_vector);
            assert((v >> 8u32) & 255u32 == (v / 0x100) % 256) by (bit_vector);
            assert(v & 255u32 == v % 256) by (bit_vector);
        }
        Ok(ColorU {
            r: ((v >> 24) & 255) as u8,
            g: ((v >> 16) & 255) as u8,
            b: ((v >> 8) & 255) as u8,
            a: (v & 255) as u8,
        })
    } else {
        Err(CssColorParseError::InvalidColor(input))
    }
}

/// Six upper-case hex digits denote the opaque color of their value.
proof fn lemma_six_hex_digits_outcome(h: Seq<char>)
    requires
        is_six_hex_digits(h),
    ensures
        short_form_readable(h),
        hex_color_outcome(h) == ColorOutcome::Parsed(opaque_color(hex_value(h))),
{
    assert(is_ascii_chars(h)) by {
        assert forall|i| 0 <= i < h.len() implies '\0' <= #[trigger] h[i] <= '\u{7f}' by {
            assert('0' <= h[i] <= '9' || 'A' <= h[i] <= 'F');
        }
    }
    lemma_utf8_len_bounds(h);
    assert(number_digits(h) == h);
    assert forall|i| 0 <= i < h.len() implies is_hex_char(#[trigger] h[i]) by {
        assert('0' <= h[i] <= '9' || 'A' <= h[i] <= 'F');
    }
}

/// Whether a parse result is the one that a color name denotes: the opaque
/// color of its hex digits, or the error that holds the unknown name.
pub open spec fn named_color_agrees<'a>(
    r: Result<ColorU, CssColorParseError<'a>>,
    s: Seq<char>,
) -> bool {
    match named_color_hex(s) {
        None => r matches Err(CssColorParseError::InvalidColor(t)) && t@ == s,
        Some(h) => r == Ok::<ColorU, CssColorParseError<'a>>(opaque_color(hex_value(h))),
    }
}

/// Parses a named color, such as `AliceBlue` or `alice-blue`.
pub fn parse_background_color_builtin<'a>(input: &'a str) -> (r: Result<
    ColorU,
    CssColorParseError<'a>,
>)
    ensures
        named_color_agrees(r, input@),
{
    let color = match find_named_color(input) {
        Some(color) => color,
        None => {
            return Err(CssColorParseError::InvalidColor(input));
        },
    };
    proof {
        lemma_named_colors_are_six_hex_digits(input@);
        lemma_six_hex_digits_outcome(color@);
    }
    parse_background_color(color)
}

/// Whether a color text starts with `#`.
pub open spec fn starts_with_hash(s: Seq<char>) -> bool {
    s.len() > 0 && s[0] == '#'
}

/// Whether a parse result is the one that a background color text denotes:
/// after a `#`, a hex color; otherwise a named color, which is always opaque.
pub open spec fn background_color_agrees<'a>(
    r: Result<ColorU, CssColorParseError<'a>>,
    s: Seq<char>,
) -> bool {
    if starts_with_hash(s) {
        color_result_agrees(r, s.drop_first())
    } else {
        named_color_agrees(r, s)
    }
}

/// The text that follows `#` can be read: a short hex color has a character
/// for each of its bytes.
pub open spec fn background_color_readable(s: Seq<char>) -> bool {
    starts_with_hash(s) ==> short_form_readable(s.drop_first())
}

/// Parses a CSS background color: `#` followed by three, four, six or eight
/// hex digits, or the name of a color.
pub fn parse_css_background_color<'a>(input: &'a str) -> (r: Result<
    ColorU,
    CssColorParseError<'a>,
>)
    requires
        background_color_readable(input@),
    ensures
        background_color_agrees(r, input@),
{
    if !input.is_empty() && input.get_char(0) == '#' {
        let n = input.unicode_len();
        parse_background_color(input.substring_char(1, n))
    } else {
        parse_background_color_builtin(input)
    }
}

/// Two parse results are equal as `==` compares them: the same color, or
/// the same error, an error's text compared by its characters.
pub open spec fn same_color_result<'a, 'b>(
    r1: Result<ColorU, CssColorParseError<'a>>,
    r2: Result<ColorU, CssColorParseError<'b>>,
) -> bool {
    match (r1, r2) {
        (Ok(c1), Ok(c2)) => c1 == c2,
        (
            Err(CssColorParseError::InvalidColor(t1)),
            Err(CssColorParseError::InvalidColor(t2)),
        ) => t1@ == t2@,
        (
            Err(CssColorParseError::InvalidColorComponent(b1)),
            Err(CssColorParseError::InvalidColorComponent(b2)),
        ) => b1 == b2,
        (
            Err(CssColorParseError::ValueParseErr(e1)),
            Err(CssColorParseError::ValueParseErr(e2)),
        ) => e1 == e2,
        _ => false,
    }
}

/// The law of the `#`: a background color that starts with `#` is parsed to
/// the same result as the hex color after it, and any other one to the same
/// result as a color name.
pub proof fn law_background_color_dispatch<'a, 'b>(
    s: Seq<char>,
    r: Result<ColorU, CssColorParseError<'a>>,
    r_part: Result<ColorU, CssColorParseError<'b>>,
)
    requires
        background_color_agrees(r, s),
        starts_with_hash(s) ==> color_result_agrees(r_part, s.drop_first()),
        !starts_with_hash(s) ==> named_color_agrees(r_part, s),
    ensures
        same_color_result(r, r_part),
{
}

/// Appending a digit to a number text multiplies its value by sixteen and
/// adds the digit.
proof fn lemma_hex_value_take(d: Seq<char>, k: int)
    requires
        0 <= k < d.len(),
    ensures
        hex_value(d.take(k + 1)) == hex_value(d.take(k)) * 16 + hex_char_value(d[k]),
{
    assert(d.take(k + 1).drop_last() =~= d.take(k));
}

/// A hex digit has a value below sixteen, and its character is ASCII.
proof fn lemma_hex_char(c: char)
    requires
        is_hex_char(c),
    ensures
        hex_char_value(c) < 16,
        '\0' <= c <= '\u{7f}',
{
}

/// Digits that are all hex digits form an ASCII text that reads as a
/// hexadecimal number with no sign.
proof fn lemma_hex_digits_text(d: Seq<char>)
    requires
        d.len() > 0,
        forall|i| 0 <= i < d.len() ==> is_hex_char(#[trigger] d[i]),
    ensures
        utf8_len(d) == d.len(),
        number_digits(d) == d,
        is_hex_number(d),
        short_form_readable(d),
{
    assert(is_ascii_chars(d)) by {
        assert forall|i| 0 <= i < d.len() implies '\0' <= #[trigger] d[i] <= '\u{7f}' by {
            lemma_hex_char(d[i]);
        }
    }
    lemma_utf8_len_bounds(d);
    lemma_hex_char(d[0]);
}

/// The value of six hex digits, written out digit by digit.
proof fn lemma_hex_value_six(d: Seq<char>)
    requires
        d.len() == 6,
    ensures
        hex_value(d) == ((((hex_char_value(d[0]) * 16 + hex_char_value(d[1])) * 16
            + hex_char_value(d[2])) * 16 + hex_char_value(d[3])) * 16 + hex_char_value(d[4])) * 16
            + hex_char_value(d[5]),
{
    assert(d.take(0) =~= Seq::<char>::empty());
    lemma_hex_value_take(d, 0);
    lemma_hex_value_take(d, 1);
    lemma_hex_value_take(d, 2);
    lemma_hex_value_take(d, 3);
    lemma_hex_value_take(d, 4);
    lemma_hex_value_take(d, 5);
    assert(d.take(6) =~= d);
}

/// The bytes of a 24-bit number given by its six hex digits.
proof fn lemma_six_digit_bytes(a: nat, b: nat, c: nat, d: nat, e: nat, f: nat)
    by (nonlinear_arith)
    requires
        a < 16,
        b < 16,
        c < 16,
        d < 16,
        e < 16,
        f < 16,
    ensures
        ({
            let v = ((((a * 16 + b) * 16 + c) * 16 + d) * 16 + e) * 16 + f;
            &&& (v / 0x10000) % 256 == a * 16 + b
            &&& (v / 0x100) % 256 == c * 16 + d
            &&& v % 256 == e * 16 + f
        }),
{
}

/// The law of six-digit hex colors: `RRGGBB` denotes the opaque color whose
/// red, green and blue are the values of the digit pairs `RR`, `GG` and `BB`.
pub proof fn law_six_hex_digits_are_channel_pairs(d: Seq<char>)
    requires
        d.len() == 6,
        forall|i| 0 <= i < 6 ==> is_hex_char(#[trigger] d[i]),
    ensures
        short_form_readable(d),
        hex_color_outcome(d) == ColorOutcome::Parsed(
            ColorU {
                r: (hex_char_value(d[0]) * 16 + hex_char_value(d[1])) as u8,
                g: (hex_char_value(d[2]) * 16 + hex_char_value(d[3])) as u8,
                b: (hex_char_value(d[4]) * 16 + hex_char_value(d[5])) as u8,
                a: 255,
            },
        ),
{
    lemma_hex_digits_text(d);
    lemma_hex_value_six(d);
    lemma_hex_char(d[0]);
    lemma_hex_char(d[1]);
    lemma_hex_char(d[2]);
    lemma_hex_char(d[3]);
    lemma_hex_char(d[4]);
    lemma_hex_char(d[5]);
    lemma_six_digit_bytes(
        hex_char_value(d[0]),
        hex_char_value(d[1]),
        hex_char_value(d[2]),
        hex_char_value(d[3]),
        hex_char_value(d[4]),
        hex_char_value(d[5]),
    );
}

/// The value of eight hex digits, written out digit by digit.
proof fn lemma_hex_value_eight(d: Seq<char>)
    requires
        d.len() == 8,
    ensures
        hex_value(d) == ((((((hex_char_value(d[0]) * 16 + hex_char_value(d[1])) * 16
            + hex_char_value(d[2])) * 16 + hex_char_value(d[3])) * 16 + hex_char_value(d[4])) * 16
            + hex_char_value(d[5])) * 16 + hex_char_value(d[6])) * 16 + hex_char_value(d[7]),
{
    assert(d.take(0) =~= Seq::<char>::empty());
    lemma_hex_value_take(d, 0);
    lemma_hex_value_take(d, 1);
    lemma_hex_value_take(d, 2);
    lemma_hex_value_take(d, 3);
    lemma_hex_value_take(d, 4);
    lemma_hex_value_take(d, 5);
    lemma_hex_value_take(d, 6);
    lemma_hex_value_take(d, 7);
    assert(d.take(8) =~= d);
}

/// The bytes of a 32-bit number given as four bytes.
proof fn lemma_four_bytes(p: nat, q: nat, r: nat, s: nat)
    by (nonlinear_arith)
    requires
        p < 256,
        q < 256,
        r < 256,
        s < 256,
    ensures
        ({
            let v = ((p * 256 + q) * 256 + r) * 256 + s;
            &&& (v / 0x1000000) % 256 == p
            &&& (v / 0x10000) % 256 == q
            &&& (v / 0x100) % 256 == r
            &&& v % 256 == s
        }),
{
}

/// The law of eight-digit hex colors: `RRGGBBAA` denotes the color whose
/// red, green, blue and alpha are the values of the digit pairs.
pub proof fn law_eight_hex_digits_are_channel_pairs(d: Seq<char>)
    requires
        d.len() == 8,
        forall|i| 0 <= i < 8 ==> is_hex_char(#[trigger] d[i]),
    ensures
        short_form_readable(d),
        hex_color_outcome(d) == ColorOutcome::Parsed(
            ColorU {
                r: (hex_char_value(d[0]) * 16 + hex_char_value(d[1])) as u8,
                g: (hex_char_value(d[2]) * 16 + hex_char_value(d[3])) as u8,
                b: (hex_char_value(d[4]) * 16 + hex_char_value(d[5])) as u8,
                a: (hex_char_value(d[6]) * 16 + hex_char_value(d[7])) as u8,
            },
        ),
{
    lemma_hex_digits_text(d);
    lemma_hex_value_eight(d);
    let h = |i: int| hex_char_value(d[i]);
    assert forall|i| 0 <= i < 8 implies #[trigger] h(i) < 16 by {
        lemma_hex_char(d[i]);
    }
    let p = h(0) * 16 + h(1);
    let q = h(2) * 16 + h(3);
    let r = h(4) * 16 + h(5);
    let t = h(6) * 16 + h(7);
    assert(hex_value(d) == ((p * 256 + q) * 256 + r) * 256 + t) by (nonlinear_arith)
        requires
            hex_value(d) == ((((((h(0) * 16 + h(1)) * 16 + h(2)) * 16 + h(3)) * 16 + h(4)) * 16
                + h(5)) * 16 + h(6)) * 16 + h(7),
            p == h(0) * 16 + h(1),
            q == h(2) * 16 + h(3),
            r == h(4) * 16 + h(5),
            t == h(6) * 16 + h(7),
    ;
    assert(p < 256 && q < 256 && r < 256 && t < 256) by (nonlinear_arith)
        requires
            h(0) < 16,
            h(1) < 16,
            h(2) < 16,
            h(3) < 16,
            h(4) < 16,
            h(5) < 16,
            h(6) < 16,
            h(7) < 16,
            p == h(0) * 16 + h(1),
            q == h(2) * 16 + h(3),
            r == h(4) * 16 + h(5),
            t == h(6) * 16 + h(7),
    ;
    lemma_four_bytes(p, q, r, t);
}

/// The byte of a hex digit character has the digit's value.
proof fn lemma_hex_char_byte(c: char)
    requires
        is_hex_char(c),
    ensures
        hex_byte_value(c as u8) == Some(hex_char_value(c) as u8),
{
    lemma_hex_char(c);
    assert((c as u8) as int == c as int);
}

/// The law of three-digit hex colors: `RGB` denotes the same color as
/// `RRGGBB`, each digit written twice.
pub proof fn law_three_hex_digits_are_doubled(x: char, y: char, z: char)
    requires
        is_hex_char(x),
        is_hex_char(y),
        is_hex_char(z),
    ensures
        short_form_readable(seq![x, y, z]),
        hex_color_outcome(seq![x, y, z]) == hex_color_outcome(seq![x, x, y, y, z, z]),
{
    let short = seq![x, y, z];
    let long = seq![x, x, y, y, z, z];
    assert forall|i| 0 <= i < 3 implies is_hex_char(#[trigger] short[i]) by {}
    assert forall|i| 0 <= i < 6 implies is_hex_char(#[trigger] long[i]) by {}
    lemma_hex_digits_text(short);
    lemma_hex_char_byte(x);
    lemma_hex_char_byte(y);
    lemma_hex_char_byte(z);
    lemma_hex_char(x);
    lemma_hex_char(y);
    lemma_hex_char(z);
    law_six_hex_digits_are_channel_pairs(long);
}

/// The law of four-digit hex colors: `RGBA` denotes the same color as
/// `RRGGBBAA`, each digit written twice.
pub proof fn law_four_hex_digits_are_doubled(x: char, y: char, z: char, w: char)
    requires
        is_hex_char(x),
        is_hex_char(y),
        is_hex_char(z),
        is_hex_char(w),
    ensures
        short_form_readable(seq![x, y, z, w]),
        hex_color_outcome(seq![x, y, z, w]) == hex_color_outcome(seq![x, x, y, y, z, z, w, w]),
{
    let short = seq![x, y, z, w];
    let long = seq![x, x, y, y, z, z, w, w];
    assert forall|i| 0 <= i < 4 implies is_hex_char(#[trigger] short[i]) by {}
    assert forall|i| 0 <= i < 8 implies is_hex_char(#[trigger] long[i]) by {}
    lemma_hex_digits_text(short);
    lemma_hex_char_byte(x);
    lemma_hex_char_byte(y);
    lemma_hex_char_byte(z);
    lemma_hex_char_byte(w);
    lemma_hex_char(x);
    lemma_hex_char(y);
    lemma_hex_char(z);
    lemma_hex_char(w);
    law_eight_hex_digits_are_channel_pairs(long);
}

/// An upper-case hexadecimal digit of a value below sixteen.
pub open spec fn upper_hex_digit(v: int) -> char {
    if v < 10 {
        (48 + v) as char
    } else {
        (55 + v) as char
    }
}

/// A byte as two upper-case hexadecimal digits, as `{:02X}` formats it.
pub open spec fn upper_hex_byte(b: u8) -> Seq<char> {
    seq![upper_hex_digit((b as int) / 16), upper_hex_digit((b as int) % 16)]
}

/// The red, green and blue of a color as six upper-case hexadecimal digits.
pub open spec fn upper_hex_rgb(c: ColorU) -> Seq<char> {
    upper_hex_byte(c.r) + upper_hex_byte(c.g) + upper_hex_byte(c.b)
}

/// An upper-case hex digit is written back by `upper_hex_digit`.
proof fn lemma_upper_hex_digit(x: char)
    requires
        '0' <= x <= '9' || 'A' <= x <= 'F',
    ensures
        upper_hex_digit(hex_char_value(x) as int) == x,
{
}

/// A byte made of two digit values splits back into them.
proof fn lemma_byte_digits(p: int, q: int)
    by (nonlinear_arith)
    requires
        0 <= p < 16,
        0 <= q < 16,
    ensures
        (p * 16 + q) / 16 == p,
        (p * 16 + q) % 16 == q,
        p * 16 + q < 256,
{
}

/// The law of named colors: a color name is parsed to an opaque color whose
/// red, green and blue, formatted as six upper-case hex digits, are the
/// digits of that name; and to the same result as `#` followed by them.
pub proof fn law_named_color_is_its_hex_color<'a, 'b>(
    name: Seq<char>,
    by_name: Result<ColorU, CssColorParseError<'a>>,
    by_hex: Result<ColorU, CssColorParseError<'b>>,
)
    requires
        named_color_hex(name) is Some,
        background_color_agrees(by_name, name),
        background_color_agrees(by_hex, seq!['#'] + named_color_hex(name).unwrap()),
    ensures
        background_color_readable(seq!['#'] + named_color_hex(name).unwrap()),
        by_name matches Ok(c) && c.a == 255 && named_color_hex(name) == Some(upper_hex_rgb(c)),
        by_name == by_hex,
{
    let h = named_color_hex(name).unwrap();
    lemma_named_colors_are_six_hex_digits(name);
    lemma_six_hex_digits_outcome(h);
    assert((seq!['#'] + h).drop_first() =~= h);
    assert forall|i| 0 <= i < 6 implies is_hex_char(#[trigger] h[i]) by {
        assert('0' <= h[i] <= '9' || 'A' <= h[i] <= 'F');
    }
    law_six_hex_digits_are_channel_pairs(h);
    let c = opaque_color(hex_value(h));
    assert forall|i| 0 <= i < 6 implies upper_hex_digit(hex_char_value(#[trigger] h[i]) as int)
        == h[i] && hex_char_value(h[i]) < 16 by {
        assert('0' <= h[i] <= '9' || 'A' <= h[i] <= 'F');
        lemma_upper_hex_digit(h[i]);
    }
    let v = |i: int| hex_char_value(h[i]) as int;
    assert(v(0) < 16 && v(1) < 16 && v(2) < 16 && v(3) < 16 && v(4) < 16 && v(5) < 16);
    lemma_byte_digits(v(0), v(1));
    lemma_byte_digits(v(2), v(3));
    lemma_byte_digits(v(4), v(5));
    assert(upper_hex_rgb(c) =~= h);
}

/// Two texts of hex digits with the same values, digit by digit (such as
/// the same digits written in another case).
pub open spec fn same_hex_digits(s: Seq<char>, t: Seq<char>) -> bool {
    &&& s.len() == t.len()
    &&& forall|i|
        0 <= i < s.len() ==> is_hex_char(#[trigger] s[i]) && is_hex_char(t[i]) && hex_char_value(
            s[i],
        ) == hex_char_value(t[i])
}

/// Digit texts with the same digit values have the same value.
proof fn lemma_hex_value_same_digits(s: Seq<char>, t: Seq<char>)
    requires
        same_hex_digits(s, t),
    ensures
        hex_value(s) == hex_value(t),
    decreases s.len(),
{
    if s.len() > 0 {
        let s0 = s.drop_last();
        let t0 = t.drop_last();
        assert forall|i| 0 <= i < s0.len() implies is_hex_char(#[trigger] s0[i]) && is_hex_char(
            t0[i],
        ) && hex_char_value(s0[i]) == hex_char_value(t0[i]) by {
            assert(s0[i] == s[i] && t0[i] == t[i]);
        }
        lemma_hex_value_same_digits(s0, t0);
        assert(hex_char_value(s.last()) == hex_char_value(t.last())) by {
            assert(s.last() == s[s.len() - 1] && t.last() == t[t.len() - 1]);
        }
    }
}

/// The law of digit values: what a hex color text denotes depends only on
/// the values of its digits, so two texts with the same digits in another
/// case denote the same.
pub proof fn law_hex_color_depends_on_digit_values(s: Seq<char>, t: Seq<char>)
    requires
        same_hex_digits(s, t),
    ensures
        short_form_readable(s),
        short_form_readable(t),
        hex_color_outcome(s) == hex_color_outcome(t),
{
    if s.len() == 0 {
        assert(s =~= t);
    } else {
        assert forall|i| 0 <= i < t.len() implies is_hex_char(#[trigger] t[i]) by {
            assert(is_hex_char(s[i]));
        }
        assert forall|i| 0 <= i < s.len() implies is_hex_char(#[trigger] s[i]) by {}
        lemma_hex_digits_text(s);
        lemma_hex_digits_text(t);
        lemma_hex_value_same_digits(s, t);
        if s.len() == 3 || s.len() == 4 {
            assert forall|i| 0 <= i < s.len() implies hex_byte_value(#[trigger] s[i] as u8)
                == hex_byte_value(t[i] as u8) by {
                lemma_hex_char_byte(s[i]);
                lemma_hex_char_byte(t[i]);
            }
            assert(hex_byte_value(s[0] as u8) == hex_byte_value(t[0] as u8));
            assert(hex_byte_value(s[1] as u8) == hex_byte_value(t[1] as u8));
            assert(hex_byte_value(s[2] as u8) == hex_byte_value(t[2] as u8));
            if s.len() == 4 {
                assert(hex_byte_value(s[3] as u8) == hex_byte_value(t[3] as u8));
            }
        }
    }
}

/// A character in upper case, for ASCII letters.
pub open spec fn ascii_upper(c: char) -> char {
    if 'a' <= c <= 'z' {
        ((c as u32) - 32) as char
    } else {
        c
    }
}

/// A character in lower case, for ASCII letters.
pub open spec fn ascii_lower(c: char) -> char {
    if 'A' <= c <= 'Z' {
        ((c as u32) + 32) as char
    } else {
        c
    }
}

/// A hex digit keeps its value in either case.
proof fn lemma_hex_char_cases(c: char)
    requires
        is_hex_char(c),
    ensures
        is_hex_char(ascii_upper(c)),
        is_hex_char(ascii_lower(c)),
        hex_char_value(ascii_upper(c)) == hex_char_value(c),
        hex_char_value(ascii_lower(c)) == hex_char_value(c),
{
}

/// The law of case: a hex color of three, four, six or eight digits is
/// parsed to the same color whether its letters are written in upper or in
/// lower case.
pub proof fn law_hex_color_ignores_case<'a, 'b, 'c>(
    s: Seq<char>,
    r: Result<ColorU, CssColorParseError<'a>>,
    r_upper: Result<ColorU, CssColorParseError<'b>>,
    r_lower: Result<ColorU, CssColorParseError<'c>>,
)
    requires
        forall|i| 0 <= i < s.len() ==> is_hex_char(#[trigger] s[i]),
        s.len() == 3 || s.len() == 4 || s.len() == 6 || s.len() == 8,
        color_result_agrees(r, s),
        color_result_agrees(r_upper, s.map_values(|c: char| ascii_upper(c))),
        color_result_agrees(r_lower, s.map_values(|c: char| ascii_lower(c))),
    ensures
        short_form_readable(s),
        short_form_readable(s.map_values(|c: char| ascii_upper(c))),
        short_form_readable(s.map_values(|c: char| ascii_lower(c))),
        r is Ok,
        same_color_result(r, r_upper),
        same_color_result(r, r_lower),
{
    let up = s.map_values(|c: char| ascii_upper(c));
    let low = s.map_values(|c: char| ascii_lower(c));
    assert forall|i| 0 <= i < s.len() implies is_hex_char(#[trigger] s[i]) && is_hex_char(up[i])
        && hex_char_value(s[i]) == hex_char_value(up[i]) by {
        lemma_hex_char_cases(s[i]);
    }
    assert forall|i| 0 <= i < s.len() implies is_hex_char(#[trigger] s[i]) && is_hex_char(low[i])
        && hex_char_value(s[i]) == hex_char_value(low[i]) by {
        lemma_hex_char_cases(s[i]);
    }
    law_hex_color_depends_on_digit_values(s, up);
    law_hex_color_depends_on_digit_values(s, low);
    lemma_hex_digits_text(s);
    if s.len() == 3 || s.len() == 4 {
        lemma_hex_char_byte(s[0]);
        lemma_hex_char_byte(s[1]);
        lemma_hex_char_byte(s[2]);
        if s.len() == 4 {
            lemma_hex_char_byte(s[3]);
        }
    }
}

/// The law of the missing alpha: a hex color of three or six digits is
/// parsed to the same color as the one with an alpha of `F` or `FF` added,
/// fully opaque.
pub proof fn law_missing_alpha_is_opaque<'a, 'b>(
    s: Seq<char>,
    r: Result<ColorU, CssColorParseError<'a>>,
    r_alpha: Result<ColorU, CssColorParseError<'b>>,
)
    requires
        forall|i| 0 <= i < s.len() ==> is_hex_char(#[trigger] s[i]),
        s.len() == 3 || s.len() == 6,
        color_result_agrees(r, s),
        color_result_agrees(
            r_alpha,
            s + if s.len() == 3 {
                seq!['F']
            } else {
                seq!['F', 'F']
            },
        ),
    ensures
        short_form_readable(s),
        short_form_readable(
            s + if s.len() == 3 {
                seq!['F']
            } else {
                seq!['F', 'F']
            },
        ),
        r is Ok,
        r == r_alpha,
        r matches Ok(c) && c.a == 255,
{
    let x = s[0];
    let y = s[1];
    let z = s[2];
    assert(is_hex_char(x) && is_hex_char(y) && is_hex_char(z));
    if s.len() == 3 {
        assert(s =~= seq![x, y, z]);
        assert(s + seq!['F'] =~= seq![x, y, z, 'F']);
        law_three_hex_digits_are_doubled(x, y, z);
        law_four_hex_digits_are_doubled(x, y, z, 'F');
        law_six_hex_digits_are_channel_pairs(seq![x, x, y, y, z, z]);
        law_eight_hex_digits_are_channel_pairs(seq![x, x, y, y, z, z, 'F', 'F']);
    } else {
        let t = s + seq!['F', 'F'];
        assert forall|i| 0 <= i < 8 implies is_hex_char(#[trigger] t[i]) by {
            if i < 6 {
                assert(t[i] == s[i]);
            }
        }
        assert forall|i| 0 <= i < 6 implies is_hex_char(#[trigger] s[i]) by {}
        law_six_hex_digits_are_channel_pairs(s);
        law_eight_hex_digits_are_channel_pairs(t);
        assert(t[0] == s[0] && t[1] == s[1] && t[2] == s[2] && t[3] == s[3] && t[4] == s[4]
            && t[5] == s[5] && t[6] == 'F' && t[7] == 'F');
    }
}

/// The law of the two spellings, for parsing: both names of a row of the
/// color table are parsed to the same color, an opaque one.
pub proof fn law_both_spellings_parse_alike<'a, 'b>(
    camel: Seq<char>,
    hyphenated: Seq<char>,
    hex: Seq<char>,
    by_camel: Result<ColorU, CssColorParseError<'a>>,
    by_hyphenated: Result<ColorU, CssColorParseError<'b>>,
)
    requires
        named_color_row(camel, hyphenated, hex),
        named_color_agrees(by_camel, camel),
        named_color_agrees(by_hyphenated, hyphenated),
    ensures
        by_camel matches Ok(c) && c.a == 255,
        by_camel == by_hyphenated,
{
    law_both_spellings_name_the_same_color(camel, hyphenated, hex);
}

/// A text with each of its characters written twice.
pub open spec fn doubled_digits(s: Seq<char>) -> Seq<char> {
    Seq::new(2 * s.len(), |i: int| s[i / 2])
}

/// The law of short hex colors, for parsing: `RGB` and `RGBA` are parsed to
/// the same color as `RRGGBB` and `RRGGBBAA`.
pub proof fn law_short_hex_parses_as_doubled<'a, 'b>(
    s: Seq<char>,
    r_short: Result<ColorU, CssColorParseError<'a>>,
    r_long: Result<ColorU, CssColorParseError<'b>>,
)
    requires
        forall|i| 0 <= i < s.len() ==> is_hex_char(#[trigger] s[i]),
        s.len() == 3 || s.len() == 4,
        color_result_agrees(r_short, s),
        color_result_agrees(r_long, doubled_digits(s)),
    ensures
        short_form_readable(s),
        short_form_readable(doubled_digits(s)),
        r_short is Ok,
        r_short == r_long,
{
    let x = s[0];
    let y = s[1];
    let z = s[2];
    assert(is_hex_char(x) && is_hex_char(y) && is_hex_char(z));
    if s.len() == 3 {
        assert(s =~= seq![x, y, z]);
        assert(doubled_digits(s) =~= seq![x, x, y, y, z, z]);
        law_three_hex_digits_are_doubled(x, y, z);
        law_six_hex_digits_are_channel_pairs(seq![x, x, y, y, z, z]);
    } else {
        let w = s[3];
        assert(is_hex_char(w));
        assert(s =~= seq![x, y, z, w]);
        assert(doubled_digits(s) =~= seq![x, x, y, y, z, z, w, w]);
        law_four_hex_digits_are_doubled(x, y, z, w);
        law_eight_hex_digits_are_channel_pairs(seq![x, x, y, y, z, z, w, w]);
    }
}

/// The law of `#` colors: `#` followed by three, four, six or eight hex
/// digits, in either case, is parsed to the color those digits give: each
/// digit of a short color written twice, each pair of a long color one
/// channel, and a missing alpha fully opaque.
pub proof fn law_hash_hex_color_channels<'a>(
    d: Seq<char>,
    r: Result<ColorU, CssColorParseError<'a>>,
)
    requires
        forall|i| 0 <= i < d.len() ==> is_hex_char(#[trigger] d[i]),
        d.len() == 3 || d.len() == 4 || d.len() == 6 || d.len() == 8,
        background_color_agrees(r, seq!['#'] + d),
    ensures
        background_color_readable(seq!['#'] + d),
        d.len() == 3 ==> r == Ok::<ColorU, CssColorParseError<'a>>(
            ColorU {
                r: (hex_char_value(d[0]) * 16 + hex_char_value(d[0])) as u8,
                g: (hex_char_value(d[1]) * 16 + hex_char_value(d[1])) as u8,
                b: (hex_char_value(d[2]) * 16 + hex_char_value(d[2])) as u8,
                a: 255,
            },
        ),
        d.len() == 4 ==> r == Ok::<ColorU, CssColorParseError<'a>>(
            ColorU {
                r: (hex_char_value(d[0]) * 16 + hex_char_value(d[0])) as u8,
                g: (hex_char_value(d[1]) * 16 + hex_char_value(d[1])) as u8,
                b: (hex_char_value(d[2]) * 16 + hex_char_value(d[2])) as u8,
                a: (hex_char_value(d[3]) * 16 + hex_char_value(d[3])) as u8,
            },
        ),
        d.len() == 6 ==> r == Ok::<ColorU, CssColorParseError<'a>>(
            ColorU {
                r: (hex_char_value(d[0]) * 16 + hex_char_value(d[1])) as u8,
                g: (hex_char_value(d[2]) * 16 + hex_char_value(d[3])) as u8,
                b: (hex_char_value(d[4]) * 16 + hex_char_value(d[5])) as u8,
                a: 255,
            },
        ),
        d.len() == 8 ==> r == Ok::<ColorU, CssColorParseError<'a>>(
            ColorU {
                r: (hex_char_value(d[0]) * 16 + hex_char_value(d[1])) as u8,
                g: (hex_char_value(d[2]) * 16 + hex_char_value(d[3])) as u8,
                b: (hex_char_value(d[4]) * 16 + hex_char_value(d[5])) as u8,
                a: (hex_char_value(d[6]) * 16 + hex_char_value(d[7])) as u8,
            },
        ),
{
    let s = seq!['#'] + d;
    assert(s[0] == '#');
    assert(s.drop_first() =~= d);
    if d.len() == 6 {
        law_six_hex_digits_are_channel_pairs(d);
    } else if d.len() == 8 {
        law_eight_hex_digits_are_channel_pairs(d);
    } else {
        let x = d[0];
        let y = d[1];
        let z = d[2];
        assert(is_hex_char(x) && is_hex_char(y) && is_hex_char(z));
        if d.len() == 3 {
            assert(d =~= seq![x, y, z]);
            law_three_hex_digits_are_doubled(x, y, z);
            law_six_hex_digits_are_channel_pairs(seq![x, x, y, y, z, z]);
        } else {
            let w = d[3];
            assert(is_hex_char(w));
            assert(d =~= seq![x, y, z, w]);
            law_four_hex_digits_are_doubled(x, y, z, w);
            law_eight_hex_digits_are_channel_pairs(seq![x, x, y, y, z, z, w, w]);
        }
    }
}

/// The law of digit values: the short form reads a digit from its byte and
/// the long form from its character, and both give it the same value, below
/// sixteen; `0` to `9` count from zero, `a` to `f` and `A` to `F` from ten.
pub proof fn law_hex_digit_values(c: char)
    requires
        is_hex_char(c),
    ensures
        hex_byte_value(c as u8) == Some(hex_char_value(c) as u8),
        hex_char_value(c) < 16,
        '0' <= c <= '9' ==> hex_char_value(c) == c as int - '0' as int,
        'a' <= c <= 'f' ==> hex_char_value(c) == c as int - 'a' as int + 10,
        'A' <= c <= 'F' ==> hex_char_value(c) == c as int - 'A' as int + 10,
{
    lemma_hex_char_byte(c);
}

/// An ASCII character's byte is a hex digit exactly when the character is.
proof fn lemma_ascii_char_byte(c: char)
    requires
        c <= '\u{7f}',
    ensures
        (c as u8) as int == c as int,
        hex_byte_value(c as u8) is Some <==> is_hex_char(c),
{
    lemma_char_ascii_code(c);
    assert((c as u8) as int == c as int);
}

/// ASCII texts are as long in bytes as in characters.
proof fn lemma_ascii_text_len(s: Seq<char>)
    requires
        forall|i| 0 <= i < s.len() ==> #[trigger] s[i] <= '\u{7f}',
    ensures
        utf8_len(s) == s.len(),
        short_form_readable(s),
{
    assert(is_ascii_chars(s)) by {
        assert forall|i| 0 <= i < s.len() implies '\0' <= #[trigger] s[i] <= '\u{7f}' by {
            lemma_char_ascii_code(s[i]);
        }
    }
    lemma_utf8_len_bounds(s);
}

/// The law of lengths: an ASCII hex color text of a length other than three,
/// four, six or eight is refused as a whole.
pub proof fn law_other_lengths_are_invalid<'a>(
    s: Seq<char>,
    r: Result<ColorU, CssColorParseError<'a>>,
)
    requires
        forall|i| 0 <= i < s.len() ==> #[trigger] s[i] <= '\u{7f}',
        !(s.len() == 3 || s.len() == 4 || s.len() == 6 || s.len() == 8),
        color_result_agrees(r, s),
    ensures
        short_form_readable(s),
        r matches Err(CssColorParseError::InvalidColor(t)) && t@ == s,
{
    lemma_ascii_text_len(s);
}

/// The law of a bad short digit: a short ASCII hex color reports the byte of
/// its first character that is not a hex digit.
pub proof fn law_short_hex_reports_first_bad_digit<'a>(
    s: Seq<char>,
    r: Result<ColorU, CssColorParseError<'a>>,
)
    requires
        forall|i| 0 <= i < s.len() ==> #[trigger] s[i] <= '\u{7f}',
        s.len() == 3 || s.len() == 4,
        color_result_agrees(r, s),
    ensures
        short_form_readable(s),
        !is_hex_char(s[0]) ==> r == Err::<ColorU, CssColorParseError<'a>>(
            CssColorParseError::InvalidColorComponent(s[0] as u8),
        ),
        is_hex_char(s[0]) && !is_hex_char(s[1]) ==> r == Err::<ColorU, CssColorParseError<'a>>(
            CssColorParseError::InvalidColorComponent(s[1] as u8),
        ),
        is_hex_char(s[0]) && is_hex_char(s[1]) && !is_hex_char(s[2]) ==> r == Err::<
            ColorU,
            CssColorParseError<'a>,
        >(CssColorParseError::InvalidColorComponent(s[2] as u8)),
        s.len() == 4 && is_hex_char(s[0]) && is_hex_char(s[1]) && is_hex_char(s[2]) && !is_hex_char(
            s[3],
        ) ==> r == Err::<ColorU, CssColorParseError<'a>>(
            CssColorParseError::InvalidColorComponent(s[3] as u8),
        ),
{
    lemma_ascii_text_len(s);
    lemma_ascii_char_byte(s[0]);
    lemma_ascii_char_byte(s[1]);
    lemma_ascii_char_byte(s[2]);
    if s.len() == 4 {
        lemma_ascii_char_byte(s[3]);
    }
}

/// The law of a bad long digit: a long ASCII hex color with a character
/// after its first that is not a hex digit is not a number.
pub proof fn law_long_hex_with_bad_digit_is_not_a_number<'a>(
    s: Seq<char>,
    k: int,
    r: Result<ColorU, CssColorParseError<'a>>,
)
    requires
        forall|i| 0 <= i < s.len() ==> #[trigger] s[i] <= '\u{7f}',
        s.len() == 6 || s.len() == 8,
        1 <= k < s.len(),
        !is_hex_char(s[k]),
        color_result_agrees(r, s),
    ensures
        short_form_readable(s),
        r == Err::<ColorU, CssColorParseError<'a>>(
            CssColorParseError::ValueParseErr(from_str_radix_error(s, 16)),
        ),
{
    lemma_ascii_text_len(s);
    let d = number_digits(s);
    if s[0] == '+' {
        assert(d[k - 1] == s[k]);
    } else {
        assert(d[k] == s[k]);
    }
}

} // verus!
