//! The closed 16-value color palette and its bidirectional mapping to the
//! console attribute code that a platform terminal binding packs colors into.

use vstd::prelude::*;

verus! {

/// One of the sixteen console colors: eight dark ("Dark"-prefixed plus
/// `Black` and `Grey`) and eight intensified counterparts.
#[derive(Debug, Copy, Clone, PartialEq, Eq, Structural)]
pub enum Color {
    Black,
    DarkBlue,
    DarkGreen,
    DarkCyan,
    DarkRed,
    DarkMagenta,
    DarkYellow,
    Grey,
    DarkGrey,
    Blue,
    Green,
    Cyan,
    Red,
    Magenta,
    Yellow,
    White,
}

/// The attribute code of a color: the low four bits of a console attribute.
pub open spec fn spec_color_code(color: Color) -> u16 {
    match color {
        Color::Black => 0,
        Color::DarkBlue => 1,
        Color::DarkGreen => 2,
        Color::DarkCyan => 3,
        Color::DarkRed => 4,
        Color::DarkMagenta => 5,
        Color::DarkYellow => 6,
        Color::Grey => 7,
        Color::DarkGrey => 8,
        Color::Blue => 9,
        Color::Green => 10,
        Color::Cyan => 11,
        Color::Red => 12,
        Color::Magenta => 13,
        Color::Yellow => 14,
        Color::White => 15,
    }
}

/// The color that an attribute code denotes; only the low four bits count.
pub open spec fn spec_color_of_code(code: u16) -> Color {
    match code & 0x0F {
        0u16 => Color::Black,
        1u16 => Color::DarkBlue,
        2u16 => Color::DarkGreen,
        3u16 => Color::DarkCyan,
        4u16 => Color::DarkRed,
        5u16 => Color::DarkMagenta,
        6u16 => Color::DarkYellow,
        7u16 => Color::Grey,
        8u16 => Color::DarkGrey,
        9u16 => Color::Blue,
        10u16 => Color::Green,
        11u16 => Color::Cyan,
        12u16 => Color::Red,
        13u16 => Color::Magenta,
        14u16 => Color::Yellow,
        _ => Color::White,
    }
}

/// Maps a color to its console attribute code.
pub fn get_u16_from_color(color: Color) -> (r: u16)
    ensures
        r == spec_color_code(color),
        r < 16,
{
    match color {
        Color::Black => 0,
        Color::DarkBlue => 1,
        Color::DarkGreen => 2,
        Color::DarkCyan => 3,
        Color::DarkRed => 4,
        Color::DarkMagenta => 5,
        Color::DarkYellow => 6,
        Color::Grey => 7,
        Color::DarkGrey => 8,
        Color::Blue => 9,
        Color::Green => 10,
        Color::Cyan => 11,
        Color::Red => 12,
        Color::Magenta => 13,
        Color::Yellow => 14,
        Color::White => 15,
    }
}

/// Maps a console attribute code back to a color, reading only the low
/// four bits.
pub fn get_color_from_u16(color: u16) -> (r: Color)
    ensures
        r == spec_color_of_code(color),
{
    match color & 0x0F {
        0 => Color::Black,
        1 => Color::DarkBlue,
        2 => Color::DarkGreen,
        3 => Color::DarkCyan,
        4 => Color::DarkRed,
        5 => Color::DarkMagenta,
        6 => Color::DarkYellow,
        7 => Color::Grey,
        8 => Color::DarkGrey,
        9 => Color::Blue,
        10 => Color::Green,
        11 => Color::Cyan,
        12 => Color::Red,
        13 => Color::Magenta,
        14 => Color::Yellow,
        _ => Color::White,
    }
}

/// The two codes round-trip: decoding the code of a color gives the color
/// back, for every color.
pub proof fn lemma_color_code_round_trip(color: Color)
    ensures
        spec_color_of_code(spec_color_code(color)) == color,
{
    let c = spec_color_code(color);
    assert(c & 0x0F == c) by (bit_vector)
        requires
            c < 16,
    ;
}

} // verus!
