//! Encoding of the controller's instructions: each function maps the
//! instruction's parameters to the single command byte that carries it.

use vstd::prelude::*;

verus! {

/// Direction of text entry, and of a display or cursor shift.
#[derive(Debug, Clone, Copy, PartialEq, Eq, Structural)]
pub enum Direction {
    LeftToRight,
    RightToLeft,
}

/// The two instruction tables that the controller can interpret.
#[derive(Debug, Clone, Copy, PartialEq, Eq, Structural)]
pub enum InstructionSet {
    Normal,
    Extended,
}

/// Clears the display memory and sets the address counter to zero.
pub const CLEAR_DISPLAY: u8 = 0b0000_0001;

/// Returns the cursor and the display to their original positions.
pub const RETURN_HOME: u8 = 0b0000_0010;

/// `mask` when `on` holds, else nothing.
pub open spec fn flag(on: bool, mask: u8) -> u8 {
    if on {
        mask
    } else {
        0
    }
}

/// Function set: bus width fixed, two lines or double height, instruction table.
pub open spec fn function_set_byte(is: InstructionSet, lines: u8, dbl: bool) -> u8 {
    (0b0011_0000 + flag(lines > 1, 0b1000) + flag(lines <= 1 && dbl, 0b0100) + flag(
        is == InstructionSet::Extended,
        0b0001,
    )) as u8
}

/// Entry mode: shift of the whole display while writing, direction of entry.
pub open spec fn entry_mode_byte(scroll: bool, entry: Direction) -> u8 {
    (0b0000_0100 + flag(scroll, 0b0001) + flag(entry == Direction::LeftToRight, 0b0010)) as u8
}

/// Display control: display, cursor and blink on or off.
pub open spec fn display_mode_byte(display: bool, cursor: bool, blink: bool) -> u8 {
    (0b0000_1000 + flag(blink, 0b0001) + flag(cursor, 0b0010) + flag(display, 0b0100)) as u8
}

/// Oscillator frequency (three bits) and bias selection.
pub open spec fn osc_config_byte(bias: bool, freq: u8) -> u8 {
    (0b0001_0000 + freq + flag(bias, 0b1000)) as u8
}

/// Low four bits of the contrast setting.
pub open spec fn contrast_byte(contrast: u8) -> u8 {
    (0b0111_0000 + contrast) as u8
}

/// Booster circuit, icon display and the two high bits of the contrast setting.
pub open spec fn booster_config_byte(on: bool, icon: bool, contrast_low: u8) -> u8 {
    (0b0101_0000 + contrast_low + flag(on, 0b0100) + flag(icon, 0b1000)) as u8
}

/// Voltage follower circuit and its amplification ratio (three bits).
pub open spec fn follower_config_byte(on: bool, ratio: u8) -> u8 {
    (0b0110_0000 + ratio + flag(on, 0b1000)) as u8
}

/// Display memory address of column `col` on row `row`: row zero starts at
/// address zero, every other row at `0x40`.
pub open spec fn move_cursor_byte(row: u8, col: u8) -> u8 {
    if row == 0 {
        col | 0b1000_0000
    } else {
        col | 0b1100_0000
    }
}

/// Shift of the whole display by one position.
pub open spec fn shift_display_byte(dir: Direction) -> u8 {
    (0b0001_1000 + flag(dir == Direction::LeftToRight, 0b0100)) as u8
}

/// Shift of the cursor by one position.
pub open spec fn shift_cursor_byte(dir: Direction) -> u8 {
    (0b0001_0000 + flag(dir == Direction::LeftToRight, 0b0100)) as u8
}

/// Function set, in the given instruction table; `lines` above one selects two
/// lines, otherwise `dbl` selects double-height characters.
pub fn function_set(is: InstructionSet, lines: u8, dbl: bool) -> (r: u8)
    ensures
        r == function_set_byte(is, lines, dbl),
{
    let mut command: u8 = 0b0011_0000;
    if lines > 1 {
        command = command + 0b0000_1000;
    } else if dbl {
        command = command + 0b0000_0100;
    }
    if is == InstructionSet::Extended {
        command = command + 0b0000_0001;
    }
    command
}

/// Entry mode: with `scroll` the display shifts as characters are written;
/// `entry` gives the direction in which the cursor advances.
pub fn entry_mode(scroll: bool, entry: Direction) -> (r: u8)
    ensures
        r == entry_mode_byte(scroll, entry),
{
    let mut command: u8 = 0b0000_0100;
    if scroll {
        command = command + 0b0000_0001;
    }
    if entry == Direction::LeftToRight {
        command = command + 0b0000_0010;
    }
    command
}

/// Display control: the display, the cursor and the cursor's blinking.
pub fn display_mode(display: bool, cursor: bool, blink: bool) -> (r: u8)
    ensures
        r == display_mode_byte(display, cursor, blink),
{
    let mut command: u8 = 0b0000_1000;
    if blink {
        command = command + 0b0000_0001;
    }
    if cursor {
        command = command + 0b0000_0010;
    }
    if display {
        command = command + 0b0000_0100;
    }
    command
}

/// Oscillator and bias (extended table). The frequency must fit in three
/// bits: it is never masked.
pub fn osc_config(bias: bool, freq: u8) -> (r: u8)
    requires
        freq < 8,
    ensures
        r == osc_config_byte(bias, freq),
{
    let mut command: u8 = 0b0001_0000 + freq;
    if bias {
        command = command + 0b0000_1000;
    }
    command
}

/// Low nibble of the contrast (extended table). The value must fit in four
/// bits: it is never masked.
pub fn contrast(value: u8) -> (r: u8)
    requires
        value < 16,
    ensures
        r == contrast_byte(value),
{
    0b0111_0000 + value
}

/// Booster, icon and high contrast bits (extended table). The contrast part
/// must fit in two bits: it is never masked.
pub fn booster_config(on: bool, icon: bool, contrast_low: u8) -> (r: u8)
    requires
        contrast_low < 4,
    ensures
        r == booster_config_byte(on, icon, contrast_low),
{
    let mut command: u8 = 0b0101_0000 + contrast_low;
    if on {
        command = command + 0b0000_0100;
    }
    if icon {
        command = command + 0b0000_1000;
    }
    command
}

/// Voltage follower (extended table). The ratio must fit in three bits: it
/// is never masked.
pub fn follower_config(on: bool, ratio: u8) -> (r: u8)
    requires
        ratio < 8,
    ensures
        r == follower_config_byte(on, ratio),
{
    let mut command: u8 = 0b0110_0000 + ratio;
    if on {
        command = command + 0b0000_1000;
    }
    command
}

/// Sets the display memory address to column `col` of row `row`. The column
/// is not checked against the width of the display.
pub fn move_cursor(row: u8, col: u8) -> (r: u8)
    ensures
        r == move_cursor_byte(row, col),
{
    if row == 0 {
        col | 0b1000_0000
    } else {
        col | 0b1100_0000
    }
}

/// Shifts the whole display by one position in direction `dir`.
pub fn shift_display(dir: Direction) -> (r: u8)
    ensures
        r == shift_display_byte(dir),
{
    let mut command: u8 = 0b0001_1000;
    if dir == Direction::LeftToRight {
        command = command + 0b0000_0100;
    }
    command
}

/// Moves the cursor by one position in direction `dir`.
pub fn shift_cursor(dir: Direction) -> (r: u8)
    ensures
        r == shift_cursor_byte(dir),
{
    let mut command: u8 = 0b0001_0000;
    if dir == Direction::LeftToRight {
        command = command + 0b0000_0100;
    }
    command
}

} // verus!
