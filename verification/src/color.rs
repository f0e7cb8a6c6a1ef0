//! Colors as the user writes them.

use vstd::prelude::*;

use crate::text;

verus! {

/// The colors that are offered.
pub open spec fn preset_colors() -> Seq<Seq<char>> {
    seq![
        "#1a73e8"@,
        "#d50000"@,
        "#e67c73"@,
        "#f4511e"@,
        "#f6bf26"@,
        "#33b679"@,
        "#0b8043"@,
        "#039be5"@,
        "#7986cb"@,
        "#8e24aa"@,
        "#616161"@,
        "#795548"@,
    ]
}

/// The colors that are offered.
pub fn color_presets() -> (r: Vec<&'static str>)
    ensures
        r.deep_view() == preset_colors(),
{
    let r = vec![
        "#1a73e8",
        "#d50000",
        "#e67c73",
        "#f4511e",
        "#f6bf26",
        "#33b679",
        "#0b8043",
        "#039be5",
        "#7986cb",
        "#8e24aa",
        "#616161",
        "#795548",
    ];
    assert(r.deep_view() =~= preset_colors());
    r
}

/// A color by its parts of red, green and blue.
#[derive(Debug, Clone, Copy, PartialEq, Eq, Structural)]
pub struct Rgb {
    pub red: u8,
    pub green: u8,
    pub blue: u8,
}

/// What stands for a part that cannot be read.
pub const UNREADABLE: u8 = 128;

/// The value of a hexadecimal digit.
pub open spec fn hex_digit(byte: u8) -> Option<int> {
    if 0x30 <= byte <= 0x39 {
        Some(byte - 0x30)
    } else if 0x41 <= byte <= 0x46 {
        Some(byte - 0x41 + 10)
    } else if 0x61 <= byte <= 0x66 {
        Some(byte - 0x61 + 10)
    } else {
        None
    }
}

/// The part of a color that two bytes write: two hexadecimal digits, or a plus sign and one.
pub open spec fn color_part(first: u8, second: u8) -> int {
    match (hex_digit(first), hex_digit(second)) {
        (Some(high), Some(low)) => 16 * high + low,
        (None, Some(low)) => if first == 0x2b {
            low
        } else {
            UNREADABLE as int
        },
        _ => UNREADABLE as int,
    }
}

/// The bytes that write a color: what follows the number signs.
pub open spec fn color_bytes(hex: Seq<char>) -> Seq<u8> {
    vstd::utf8::encode_utf8(text::without_front(hex, '#'))
}

/// Whether a character ends before this byte.
pub open spec fn ends_before(bytes: Seq<u8>, at: int) -> bool {
    at == bytes.len() || !(0x80 <= bytes[at] < 0xc0)
}

/// Whether a color is too short to have parts, or its parts do not cut through a character.
pub open spec fn has_whole_parts(hex: Seq<char>) -> bool {
    let bytes = color_bytes(hex);
    bytes.len() >= 6 ==> ends_before(bytes, 2) && ends_before(bytes, 4) && ends_before(bytes, 6)
}

/// The color that a text writes. One that is too short is grey, and so is each part of it that
/// cannot be read.
pub open spec fn written_color(hex: Seq<char>) -> Rgb {
    let bytes = color_bytes(hex);
    if bytes.len() >= 6 {
        Rgb {
            red: color_part(bytes[0], bytes[1]) as u8,
            green: color_part(bytes[2], bytes[3]) as u8,
            blue: color_part(bytes[4], bytes[5]) as u8,
        }
    } else {
        Rgb { red: UNREADABLE, green: UNREADABLE, blue: UNREADABLE }
    }
}

/// The value of a hexadecimal digit.
fn digit_value(byte: u8) -> (r: Option<u8>)
    ensures
        match r {
            Some(v) => hex_digit(byte) == Some(v as int) && v < 16,
            None => hex_digit(byte) is None,
        },
{
    if 0x30 <= byte && byte <= 0x39 {
        Some(byte - 0x30)
    } else if 0x41 <= byte && byte <= 0x46 {
        Some(byte - 0x41 + 10)
    } else if 0x61 <= byte && byte <= 0x66 {
        Some(byte - 0x61 + 10)
    } else {
        None
    }
}

/// The part of a color that two bytes write.
fn part_value(first: u8, second: u8) -> (r: u8)
    ensures
        r == color_part(first, second),
{
    match (digit_value(first), digit_value(second)) {
        (Some(high), Some(low)) => 16 * high + low,
        (None, Some(low)) => {
            if first == 0x2b {
                low
            } else {
                UNREADABLE
            }
        },
        _ => UNREADABLE,
    }
}

/// Whether [`parse_hex_color`] can read a text.
pub fn can_parse_color(hex: &str) -> (r: bool)
    ensures
        r == has_whole_parts(hex@),
{
    let bytes = text::trim_start_matches(hex, '#').as_bytes();
    if bytes.len() < 6 {
        return true;
    }
    !(0x80 <= bytes[2] && bytes[2] < 0xc0) && !(0x80 <= bytes[4] && bytes[4] < 0xc0) && (
    bytes.len() == 6 || !(0x80 <= bytes[6] && bytes[6] < 0xc0))
}

/// The color that a text writes.
pub fn parse_hex_color(hex: &str) -> (r: Rgb)
    requires
        has_whole_parts(hex@),
    ensures
        r == written_color(hex@),
{
    let bytes = text::trim_start_matches(hex, '#').as_bytes();
    if bytes.len() >= 6 {
        Rgb {
            red: part_value(bytes[0], bytes[1]),
            green: part_value(bytes[2], bytes[3]),
            blue: part_value(bytes[4], bytes[5]),
        }
    } else {
        Rgb { red: UNREADABLE, green: UNREADABLE, blue: UNREADABLE }
    }
}

// ── Laws ─────────────────────────────────────────────────────────────────

/// The way in which the colors that are offered write a digit.
pub open spec fn hex_char(n: int) -> char {
    if n < 10 {
        (0x30 + n) as char
    } else {
        (0x61 + n - 10) as char
    }
}

/// The way in which the colors that are offered write a color.
pub open spec fn hex_text(color: Rgb) -> Seq<char> {
    seq![
        '#',
        hex_char(color.red as int / 16),
        hex_char(color.red as int % 16),
        hex_char(color.green as int / 16),
        hex_char(color.green as int % 16),
        hex_char(color.blue as int / 16),
        hex_char(color.blue as int % 16),
    ]
}

/// Every color that is written with a number sign and six digits is read as what it is.
pub proof fn written_color_is_read_back(color: Rgb)
    ensures
        has_whole_parts(hex_text(color)),
        written_color(hex_text(color)) == color,
{
    let digits = hex_text(color).skip(1);
    assert(text::without_front(hex_text(color), '#') == digits) by {
        reveal_with_fuel(text::without_front, 2);
    }
    assert(vstd::utf8::is_ascii_chars(digits));
    vstd::utf8::is_ascii_chars_encode_utf8(digits);
    assert(color_bytes(hex_text(color)).len() == 6);
}

} // verus!
