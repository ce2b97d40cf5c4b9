//! Properties that hold across the encoders and the handle's operations.

use vstd::prelude::*;

use crate::command::{
    display_mode_byte, entry_mode_byte, function_set_byte, Direction, InstructionSet,
    CLEAR_DISPLAY,
};
use crate::driver::{
    after_disable_scroll, after_enable_scroll, after_init, after_off, after_on,
    after_show_cursor, display_mode_of, entry_mode_of, init_program, initial_config, Config,
};
use crate::step::Step;

verus! {

/// Low bit of a flag.
pub open spec fn bit(b: bool) -> u8 {
    if b {
        1
    } else {
        0
    }
}

/// A function set byte always has the high nibble `0011`; of its low nibble,
/// bit 3 is set exactly for more than one line, bit 2 exactly for double
/// height on one line, bit 1 never, and bit 0 exactly for the extended
/// instruction table.
pub proof fn function_set_layout(is: InstructionSet, lines: u8, dbl: bool)
    ensures
        function_set_byte(is, lines, dbl) & 0xf0 == 0x30,
        (function_set_byte(is, lines, dbl) & 0x08 != 0) == (lines > 1),
        (function_set_byte(is, lines, dbl) & 0x04 != 0) == (lines <= 1 && dbl),
        function_set_byte(is, lines, dbl) & 0x02 == 0,
        (function_set_byte(is, lines, dbl) & 0x01 != 0) == (is == InstructionSet::Extended),
{
    let b = function_set_byte(is, lines, dbl);
    let two = lines > 1;
    let high = lines <= 1 && dbl;
    let ext = is == InstructionSet::Extended;
    assert(b & 0xf0 == 0x30 && (b & 0x08 != 0) == two && (b & 0x04 != 0) == high && b & 0x02 == 0
        && (b & 0x01 != 0) == ext) by (bit_vector)
        requires
            b == (0x30 + (if two { 8u8 } else { 0u8 }) + (if high { 4u8 } else { 0u8 }) + (if ext {
                1u8
            } else {
                0u8
            })) as u8,
            !(two && high),
    ;
}

/// The display control byte is the opcode `0b00001000` with blink in bit 0,
/// cursor in bit 1 and display in bit 2.
pub proof fn display_mode_layout(display: bool, cursor: bool, blink: bool)
    ensures
        display_mode_byte(display, cursor, blink) == 0b0000_1000u8 | bit(blink) | (bit(cursor)
            << 1u8) | (bit(display) << 2u8),
{
    let b = display_mode_byte(display, cursor, blink);
    let (x, y, z) = (bit(blink), bit(cursor), bit(display));
    assert(b == 0b0000_1000u8 | x | (y << 1u8) | (z << 2u8)) by (bit_vector)
        requires
            b == (0b0000_1000 + (if blink { 1u8 } else { 0u8 }) + (if cursor { 2u8 } else { 0u8 })
                + (if display { 4u8 } else { 0u8 })) as u8,
            x == (if blink { 1u8 } else { 0u8 }),
            y == (if cursor { 1u8 } else { 0u8 }),
            z == (if display { 1u8 } else { 0u8 }),
    ;
}

/// Switching the display off and on again keeps the cursor and blink flags:
/// after `show_cursor(blink)`, `off` and `on`, the cursor is shown, it blinks
/// as asked, and the byte that `on` sends says so.
pub proof fn display_toggle_keeps_cursor(c: Config, blink: bool)
    ensures
        after_on(after_off(after_show_cursor(c, blink))).cursor,
        after_on(after_off(after_show_cursor(c, blink))).blink == blink,
        after_on(after_off(after_show_cursor(c, blink))).display,
        display_mode_of(after_on(after_off(after_show_cursor(c, blink)))) == display_mode_byte(
            true,
            true,
            blink,
        ),
{
}

/// `init` on a fresh handle for `lines` lines leaves the display on, the
/// cursor hidden and not blinking, no scrolling and right-to-left entry. Its
/// program starts with four function set instructions, the last of which
/// selects the extended table, and two lines exactly when `lines` is above
/// one; its last instruction clears the display.
pub proof fn init_from_fresh(lines: u8)
    ensures
        after_init(initial_config(lines)) == (Config {
            entry: Direction::RightToLeft,
            lines,
            scroll: false,
            display: true,
            cursor: false,
            blink: false,
        }),
        init_program(initial_config(lines))[0] == Step::Probe(
            function_set_byte(InstructionSet::Normal, 1, false),
        ),
        init_program(initial_config(lines))[1] == Step::Command(
            function_set_byte(InstructionSet::Extended, 1, false),
        ),
        init_program(initial_config(lines))[3] == Step::Command(
            function_set_byte(InstructionSet::Extended, 1, false),
        ),
        init_program(initial_config(lines))[5] == Step::Command(
            function_set_byte(InstructionSet::Extended, lines, false),
        ),
        function_set_byte(InstructionSet::Extended, lines, false) & 0x01 != 0,
        (function_set_byte(InstructionSet::Extended, lines, false) & 0x08 != 0) == (lines > 1),
        init_program(initial_config(lines))[15] == Step::Command(CLEAR_DISPLAY),
        init_program(initial_config(lines))[16] == Step::Pause(2),
        init_program(initial_config(lines)).len() == 17,
{
    function_set_layout(InstructionSet::Extended, lines, false);
}

/// Disabling scrolling keeps the entry direction: after
/// `enable_scroll(LeftToRight)` and `disable_scroll`, entry is still left to
/// right and scrolling is off, and the entry mode byte sent has its scroll
/// bit clear and its direction bit set.
pub proof fn disable_scroll_keeps_direction(c: Config)
    ensures
        after_disable_scroll(after_enable_scroll(c, Direction::LeftToRight)).entry
            == Direction::LeftToRight,
        !after_disable_scroll(after_enable_scroll(c, Direction::LeftToRight)).scroll,
        entry_mode_of(after_disable_scroll(after_enable_scroll(c, Direction::LeftToRight))) & 0x01
            == 0,
        entry_mode_of(after_disable_scroll(after_enable_scroll(c, Direction::LeftToRight))) & 0x02
            != 0,
{
    let b = entry_mode_of(after_disable_scroll(after_enable_scroll(c, Direction::LeftToRight)));
    assert(b == entry_mode_byte(false, Direction::LeftToRight));
    assert(b & 0x01 == 0 && b & 0x02 != 0) by (bit_vector)
        requires
            b == 0b0000_0110u8,
    ;
}

} // verus!
