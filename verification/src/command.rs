//! Command bytes of the controller, built from named settings rather than
//! from loose flag bits.
use vstd::prelude::*;
use crate::consts::{
    LCD_2LINE, LCD_8BITMODE, LCD_BLINKON, LCD_CLEARDISPLAY, LCD_CURSORON, LCD_DISPLAYCONTROL,
    LCD_DISPLAYON, LCD_ENTRYLEFT, LCD_ENTRYMODESET, LCD_ENTRYSHIFTINCREMENT, LCD_FUNCTIONSET,
    LCD_RETURNHOME,
};

verus! {

/// A command of the controller with its settings. Each setting stands for one
/// group of flags of which the chip takes exactly one, so no two flags of a
/// group can meet in one command byte.
#[derive(Debug, Clone, Copy, PartialEq, Eq, Structural)]
pub enum Command {
    /// Blank the display and move the cursor home.
    ClearDisplay,
    /// Move the cursor home and leave the contents.
    ReturnHome,
    /// Direction in which the cursor moves after a character, and whether the
    /// display shifts with it.
    EntryMode { left_to_right: bool, shift: bool },
    /// Display, cursor and cursor blinking, each on or off.
    DisplayControl { display: bool, cursor: bool, blink: bool },
    /// Width of the interface and number of lines; the font is five by eight.
    FunctionSet { eight_bit: bool, two_line: bool },
}

/// The value of a flag bit: `bit` where `on`, else nothing.
pub open spec fn flag(on: bool, bit: u8) -> int {
    if on {
        bit as int
    } else {
        0
    }
}

impl Command {
    /// The command byte: the command's code plus the bit of every setting
    /// that is on.
    pub open spec fn byte(self) -> int {
        match self {
            Command::ClearDisplay => 0x01,
            Command::ReturnHome => 0x02,
            Command::EntryMode { left_to_right, shift } => 0x04 + flag(left_to_right, 0x02) + flag(
                shift,
                0x01,
            ),
            Command::DisplayControl { display, cursor, blink } => 0x08 + flag(display, 0x04) + flag(
                cursor,
                0x02,
            ) + flag(blink, 0x01),
            Command::FunctionSet { eight_bit, two_line } => 0x20 + flag(eight_bit, 0x10) + flag(
                two_line,
                0x08,
            ),
        }
    }

    /// Encodes the command as the byte that the controller expects.
    pub fn encode(self) -> (byte: u8)
        ensures
            byte == self.byte(),
    {
        match self {
            Command::ClearDisplay => LCD_CLEARDISPLAY,
            Command::ReturnHome => LCD_RETURNHOME,
            Command::EntryMode { left_to_right, shift } => {
                let direction: u8 = if left_to_right { LCD_ENTRYLEFT } else { 0 };
                let follow: u8 = if shift { LCD_ENTRYSHIFTINCREMENT } else { 0 };
                assert((0x04u8 | direction | follow) == 0x04 + direction + follow) by (bit_vector)
                    requires
                        direction == 0 || direction == 0x02,
                        follow == 0 || follow == 0x01,
                ;
                LCD_ENTRYMODESET | direction | follow
            },
            Command::DisplayControl { display, cursor, blink } => {
                let shown: u8 = if display { LCD_DISPLAYON } else { 0 };
                let mark: u8 = if cursor { LCD_CURSORON } else { 0 };
                let flash: u8 = if blink { LCD_BLINKON } else { 0 };
                assert((0x08u8 | shown | mark | flash) == 0x08 + shown + mark + flash)
                    by (bit_vector)
                    requires
                        shown == 0 || shown == 0x04,
                        mark == 0 || mark == 0x02,
                        flash == 0 || flash == 0x01,
                ;
                LCD_DISPLAYCONTROL | shown | mark | flash
            },
            Command::FunctionSet { eight_bit, two_line } => {
                let width: u8 = if eight_bit { LCD_8BITMODE } else { 0 };
                let lines: u8 = if two_line { LCD_2LINE } else { 0 };
                assert((0x20u8 | width | lines) == 0x20 + width + lines) by (bit_vector)
                    requires
                        width == 0 || width == 0x10,
                        lines == 0 || lines == 0x08,
                ;
                LCD_FUNCTIONSET | width | lines
            },
        }
    }
}

/// Entry mode of the power-on handshake: left to right, the display holds still.
pub open spec fn entry_mode_byte() -> u8 {
    0x06
}

/// Function set of the power-on handshake: eight-bit interface, two lines.
pub open spec fn function_set_byte() -> u8 {
    0x38
}

/// Display control of the power-on handshake: display on, no cursor, no blinking.
pub open spec fn display_on_byte() -> u8 {
    0x0C
}

/// The command byte that moves the cursor to `column` of `row`.
pub open spec fn cursor_byte(row: u8, column: u8) -> u8 {
    if row == 0 {
        0x80u8 | column
    } else {
        0xC0u8 | column
    }
}

/// On the display's cells the cursor byte is the line's base address plus the
/// column: `0x80 + column` on the first line, `0xC0 + column` on the second.
pub proof fn lemma_cursor_byte_value(row: u8, column: u8)
    requires
        valid_coordinate(row, column),
    ensures
        cursor_byte(row, column) == 0x80 + 0x40 * row + column,
{
    assert(0x80u8 | column == 0x80 + column) by (bit_vector)
        requires
            column <= 15,
    ;
    assert(0xC0u8 | column == 0xC0 + column) by (bit_vector)
        requires
            column <= 15,
    ;
}

/// Whether `row` and `column` name a cell of the display.
pub open spec fn valid_coordinate(row: u8, column: u8) -> bool {
    row <= 1 && column <= 15
}

/// The character as the controller receives it: the low eight bits of its
/// code point.
pub open spec fn low_byte(c: char) -> u8 {
    ((c as u32) & 0xFF) as u8
}

/// Reduces a character to the byte that is transmitted for it. Code points
/// above 255 lose their upper bits.
pub fn char_byte(c: char) -> (byte: u8)
    ensures
        byte == low_byte(c),
{
    let code: u32 = c as u32;
    let low: u32 = code & 0xFF;
    assert(low < 256) by (bit_vector)
        requires
            low == code & 0xFF,
    ;
    low as u8
}

/// For a character of the single-byte range the transmitted byte is its code
/// point.
pub proof fn lemma_low_byte_of_small(c: char)
    requires
        (c as u32) < 256,
    ensures
        low_byte(c) == c as u32,
{
    let code = c as u32;
    assert(code & 0xFF == code) by (bit_vector)
        requires
            code < 256,
    ;
}

} // verus!
