//! Register numbers, command codes and flag bits of the two chips, as their
//! data sheets give them.
use vstd::prelude::*;

verus! {

/// Bus address of the character controller.
pub const CONTROLLER_ADDRESS: u8 = 0x3E;

/// Bus address of the backlight chip.
pub const BACKLIGHT_ADDRESS: u8 = 0x60;

/// Control byte that announces a command to the controller.
pub const CONTROL_COMMAND: u8 = 0x80;

/// Control byte that announces a character for display memory.
pub const CONTROL_DATA: u8 = 0x40;

/// Columns of one display line.
pub const COLUMNS: usize = 16;

/// Base address of the first line in display memory, as a command byte.
pub const LINE_ONE: u8 = 0x80;

/// Base address of the second line in display memory, as a command byte.
pub const LINE_TWO: u8 = 0xC0;

pub const WHITE: u8 = 0;
pub const RED: u8 = 1;
pub const GREEN: u8 = 2;
pub const BLUE: u8 = 3;

// Backlight chip: duty registers of the three channels.
pub const REG_RED: u8 = 0x04;
pub const REG_GREEN: u8 = 0x03;
pub const REG_BLUE: u8 = 0x02;

// Backlight chip: mode and output-driver registers.
pub const REG_MODE1: u8 = 0x00;
pub const REG_MODE2: u8 = 0x01;
pub const REG_OUTPUT: u8 = 0x08;

// Controller commands.
pub const LCD_CLEARDISPLAY: u8 = 0x01;
pub const LCD_RETURNHOME: u8 = 0x02;
pub const LCD_ENTRYMODESET: u8 = 0x04;
pub const LCD_DISPLAYCONTROL: u8 = 0x08;
pub const LCD_CURSORSHIFT: u8 = 0x10;
pub const LCD_FUNCTIONSET: u8 = 0x20;
pub const LCD_SETCGRAMADDR: u8 = 0x40;
pub const LCD_SETDDRAMADDR: u8 = 0x80;

// Entry mode flags.
pub const LCD_ENTRYRIGHT: u8 = 0x00;
pub const LCD_ENTRYLEFT: u8 = 0x02;
pub const LCD_ENTRYSHIFTINCREMENT: u8 = 0x01;
pub const LCD_ENTRYSHIFTDECREMENT: u8 = 0x00;

// Display control flags.
pub const LCD_DISPLAYON: u8 = 0x04;
pub const LCD_DISPLAYOFF: u8 = 0x00;
pub const LCD_CURSORON: u8 = 0x02;
pub const LCD_CURSOROFF: u8 = 0x00;
pub const LCD_BLINKON: u8 = 0x01;
pub const LCD_BLINKOFF: u8 = 0x00;

// Cursor and display shift flags.
pub const LCD_DISPLAYMOVE: u8 = 0x08;
pub const LCD_CURSORMOVE: u8 = 0x00;
pub const LCD_MOVERIGHT: u8 = 0x04;
pub const LCD_MOVELEFT: u8 = 0x00;

// Function set flags.
pub const LCD_8BITMODE: u8 = 0x10;
pub const LCD_4BITMODE: u8 = 0x00;
pub const LCD_2LINE: u8 = 0x08;
pub const LCD_1LINE: u8 = 0x00;
pub const LCD_5X8DOTS: u8 = 0x00;

} // verus!
