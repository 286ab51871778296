//! One grid unit: a single character with a foreground and a background
//! color, copied by value.

use vstd::prelude::*;
use crate::color::Color;
use crate::color::spec_color_code;
use crate::color::get_u16_from_color;

verus! {

/// One cell of the grid. Copying a cell copies all three fields; a cell has
/// no identity beyond the equality of its fields.
#[derive(Debug, Copy, Clone, PartialEq, Eq, Structural)]
pub struct Cell {
    pub character: char,
    pub foreground: Color,
    pub background: Color,
}

impl Cell {
    /// Builds a cell from a character and the two colors.
    pub fn new(character: char, foreground: Color, background: Color) -> (r: Cell)
        ensures
            r == (Cell { character, foreground, background }),
    {
        Cell { character, foreground, background }
    }

    /// The cell `new_default` builds: the character on black over black.
    pub open spec fn spec_new_default(character: char) -> Cell {
        Cell { character, foreground: Color::Black, background: Color::Black }
    }

    /// Builds a cell with the given character and black on black, the blank
    /// the engine paints where nothing was drawn.
    #[verifier::when_used_as_spec(spec_new_default)]
    pub fn new_default(character: char) -> (r: Cell)
        ensures
            r == (Cell { character, foreground: Color::Black, background: Color::Black }),
    {
        Cell { character, foreground: Color::Black, background: Color::Black }
    }

    /// Replaces the cell character, keeping both colors.
    pub fn set_char(&mut self, character: char)
        ensures
            *final(self) == (Cell { character, ..*old(self) }),
    {
        self.character = character;
    }

    /// Reads the cell character.
    pub fn get_char(&self) -> (r: char)
        ensures
            r == self.character,
    {
        self.character
    }

    /// Replaces both colors at once, keeping the character.
    pub fn set_colors(&mut self, foreground: Color, background: Color)
        ensures
            *final(self) == (Cell { character: old(self).character, foreground, background }),
    {
        self.foreground = foreground;
        self.background = background;
    }

    /// Replaces the background color only.
    pub fn set_bg_color(&mut self, color: Color)
        ensures
            *final(self) == (Cell { background: color, ..*old(self) }),
    {
        self.background = color;
    }

    /// Replaces the foreground color only.
    pub fn set_fg_color(&mut self, color: Color)
        ensures
            *final(self) == (Cell { foreground: color, ..*old(self) }),
    {
        self.foreground = color;
    }

    /// Reads the background color.
    pub fn get_bg_color(&self) -> (r: Color)
        ensures
            r == self.background,
    {
        self.background
    }

    /// Reads the foreground color.
    pub fn get_fg_color(&self) -> (r: Color)
        ensures
            r == self.foreground,
    {
        self.foreground
    }

    /// Copies the character and both colors from another cell, making the
    /// two cells equal.
    pub fn copy_from(&mut self, cell: &Cell)
        ensures
            *final(self) == *cell,
    {
        self.character = cell.character;
        self.background = cell.background;
        self.foreground = cell.foreground;
    }
}

/// The console attribute a cell's colors pack into: the background code in
/// the high four bits of the low byte, the foreground code in the low four.
pub open spec fn spec_cell_attribute(cell: Cell) -> u16 {
    (spec_color_code(cell.background) << 4) | spec_color_code(cell.foreground)
}

/// Packs a cell's two colors into one console attribute code.
pub fn cell_attribute(cell: &Cell) -> (r: u16)
    ensures
        r == spec_cell_attribute(*cell),
{
    let bg = get_u16_from_color(cell.background);
    let fg = get_u16_from_color(cell.foreground);
    (bg << 4) | fg
}

} // verus!
