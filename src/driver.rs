//! The controller handle: its configuration state, and the program that each
//! operation hands back.

use vstd::prelude::*;

use crate::command::{
    booster_config, booster_config_byte, contrast, contrast_byte, display_mode, display_mode_byte,
    entry_mode, entry_mode_byte, follower_config, follower_config_byte, function_set,
    function_set_byte, move_cursor_byte, osc_config, osc_config_byte, shift_cursor_byte,
    shift_display_byte, Direction, InstructionSet, CLEAR_DISPLAY, RETURN_HOME,
};
use crate::step::Step;

verus! {

/// The configuration that the driver has last asked of the controller. The
/// controller is never read back, so this is what was requested, not what
/// the hardware confirmed.
#[derive(Debug, Clone, Copy, PartialEq, Eq, Structural)]
pub struct Config {
    pub entry: Direction,
    pub lines: u8,
    pub scroll: bool,
    pub display: bool,
    pub cursor: bool,
    pub blink: bool,
}

/// The configuration of a handle that has just been made for `lines` lines.
pub open spec fn initial_config(lines: u8) -> Config {
    Config {
        entry: Direction::RightToLeft,
        lines,
        scroll: false,
        display: false,
        cursor: false,
        blink: false,
    }
}

/// The configuration after `init`: the display is on, nothing else changes.
pub open spec fn after_init(c: Config) -> Config {
    Config { display: true, ..c }
}

/// The configuration after `on`.
pub open spec fn after_on(c: Config) -> Config {
    Config { display: true, ..c }
}

/// The configuration after `off`.
pub open spec fn after_off(c: Config) -> Config {
    Config { display: false, ..c }
}

/// The configuration after `show_cursor(blink)`.
pub open spec fn after_show_cursor(c: Config, blink: bool) -> Config {
    Config { cursor: true, blink, ..c }
}

/// The configuration after `hide_cursor`.
pub open spec fn after_hide_cursor(c: Config) -> Config {
    Config { cursor: false, blink: false, ..c }
}

/// The configuration after `enable_scroll(entry)`.
pub open spec fn after_enable_scroll(c: Config, entry: Direction) -> Config {
    Config { scroll: true, entry, ..c }
}

/// The configuration after `disable_scroll`.
pub open spec fn after_disable_scroll(c: Config) -> Config {
    Config { scroll: false, ..c }
}

/// The configuration that the power-up sequence from `c` has requested when
/// its run stops with an error at step `at` of `init_program(c)`: nothing
/// before the display-off step, the display off from that step on, and the
/// display on from the display-on step on.
pub open spec fn init_stopped_config(c: Config, at: int) -> Config {
    if at < 7 {
        c
    } else if at < 14 {
        after_off(c)
    } else {
        after_init(c)
    }
}

/// The display control byte that replays the flags of `c`.
pub open spec fn display_mode_of(c: Config) -> u8 {
    display_mode_byte(c.display, c.cursor, c.blink)
}

/// The entry mode byte that replays the flags of `c`.
pub open spec fn entry_mode_of(c: Config) -> u8 {
    entry_mode_byte(c.scroll, c.entry)
}

/// The power-up sequence for a controller configured as `c`, which ends with
/// the display switched on and cleared.
pub open spec fn init_program(c: Config) -> Seq<Step> {
    seq![
        Step::Probe(function_set_byte(InstructionSet::Normal, 1, false)),
        Step::Command(function_set_byte(InstructionSet::Extended, 1, false)),
        Step::Pause(5),
        Step::Command(function_set_byte(InstructionSet::Extended, 1, false)),
        Step::Pause(5),
        Step::Command(function_set_byte(InstructionSet::Extended, c.lines, false)),
        Step::Pause(5),
        Step::Command(display_mode_byte(false, c.cursor, c.blink)),
        Step::Command(osc_config_byte(true, 0)),
        Step::Command(contrast_byte(0)),
        Step::Command(booster_config_byte(true, false, 0)),
        Step::Command(follower_config_byte(true, 0)),
        Step::Command(entry_mode_of(c)),
        Step::Pause(20),
        Step::Command(display_mode_byte(true, c.cursor, c.blink)),
        Step::Command(CLEAR_DISPLAY),
        Step::Pause(2),
    ]
}

/// Handle of one ST7032i controller. It holds the configuration state; the
/// bus and the delay source stay with whoever runs the programs that its
/// operations return.
///
/// An operation updates the configuration as soon as it hands out its
/// program: the state records what was requested, whatever the run of the
/// program then meets on the bus.
#[derive(Debug)]
pub struct ST7032i {
    config: Config,
}

impl View for ST7032i {
    type V = Config;

    closed spec fn view(&self) -> Config {
        self.config
    }
}

impl ST7032i {
    /// A handle for a display of `lines` lines (1 or 2). Nothing is sent.
    pub fn new(lines: u8) -> (r: Self)
        ensures
            r@ == initial_config(lines),
    {
        ST7032i {
            config: Config {
                entry: Direction::RightToLeft,
                lines,
                scroll: false,
                display: false,
                cursor: false,
                blink: false,
            },
        }
    }

    /// The power-up sequence: function set (first as a probe, then in the
    /// extended table), display off, oscillator, contrast, booster,
    /// follower, entry mode, display on, clear.
    pub fn init(&mut self) -> (r: Vec<Step>)
        ensures
            final(self)@ == after_init(old(self)@),
            r@ == init_program(old(self)@),
    {
        let mut program: Vec<Step> = Vec::new();
        program.push(Step::Probe(function_set(InstructionSet::Normal, 1, false)));
        program.push(Step::Command(function_set(InstructionSet::Extended, 1, false)));
        program.push(Step::Pause(5));
        program.push(Step::Command(function_set(InstructionSet::Extended, 1, false)));
        program.push(Step::Pause(5));
        program.push(Step::Command(function_set(InstructionSet::Extended, self.config.lines, false)));
        program.push(Step::Pause(5));
        self.config.display = false;
        program.push(self.display_mode_command());
        program.push(Step::Command(osc_config(true, 0)));
        program.push(Step::Command(contrast(0)));
        program.push(Step::Command(booster_config(true, false, 0)));
        program.push(Step::Command(follower_config(true, 0)));
        program.push(self.entry_mode_command());
        program.push(Step::Pause(20));
        self.config.display = true;
        program.push(self.display_mode_command());
        program.push(Step::Command(CLEAR_DISPLAY));
        program.push(Step::Pause(2));
        assert(program@ =~= init_program(old(self)@));
        program
    }

    /// Corrects the configuration after a run of the program of `init` that
    /// stopped with an error at step `at`, where `before` is the
    /// configuration that `init` was called on. `init` records the
    /// configuration of a complete run; this records what the run had
    /// requested when it stopped. A handle that is not in the state that
    /// `init` left from `before` is not changed.
    pub fn init_stopped(&mut self, before: Config, at: usize)
        ensures
            old(self)@ == after_init(before) ==> final(self)@ == init_stopped_config(
                before,
                at as int,
            ),
            old(self)@ != after_init(before) ==> final(self)@ == old(self)@,
    {
        if self.config == (Config { display: true, ..before }) {
            if at < 7 {
                self.config = before;
            } else if at < 14 {
                self.config = Config { display: false, ..before };
            }
        }
    }

    /// Switches the display on; cursor and blink stay as they were.
    pub fn on(&mut self) -> (r: Vec<Step>)
        ensures
            final(self)@ == after_on(old(self)@),
            r@ == seq![Step::Command(display_mode_of(final(self)@))],
    {
        self.config.display = true;
        vec![self.display_mode_command()]
    }

    /// Switches the display off; cursor and blink stay as they were.
    pub fn off(&mut self) -> (r: Vec<Step>)
        ensures
            final(self)@ == after_off(old(self)@),
            r@ == seq![Step::Command(display_mode_of(final(self)@))],
    {
        self.config.display = false;
        vec![self.display_mode_command()]
    }

    /// Fills display memory with spaces and sets the address to zero, then
    /// leaves the controller the time that this takes.
    pub fn clear(&self) -> (r: Vec<Step>)
        ensures
            r@ == seq![Step::Command(CLEAR_DISPLAY), Step::Pause(2)],
    {
        vec![Step::Command(CLEAR_DISPLAY), Step::Pause(2)]
    }

    /// Sets the address to zero and undoes any shift of the display; the
    /// contents of display memory do not change.
    pub fn home(&self) -> (r: Vec<Step>)
        ensures
            r@ == seq![Step::Command(RETURN_HOME), Step::Pause(2)],
    {
        vec![Step::Command(RETURN_HOME), Step::Pause(2)]
    }

    /// Moves the cursor to column `col` of row `row`.
    pub fn move_cursor(&self, row: u8, col: u8) -> (r: Vec<Step>)
        ensures
            r@ == seq![Step::Command(move_cursor_byte(row, col))],
    {
        vec![Step::Command(crate::command::move_cursor(row, col))]
    }

    /// Shows the cursor, blinking or not.
    pub fn show_cursor(&mut self, blink: bool) -> (r: Vec<Step>)
        ensures
            final(self)@ == after_show_cursor(old(self)@, blink),
            r@ == seq![Step::Command(display_mode_of(final(self)@))],
    {
        self.config.cursor = true;
        self.config.blink = blink;
        vec![self.display_mode_command()]
    }

    /// Hides the cursor and stops its blinking.
    pub fn hide_cursor(&mut self) -> (r: Vec<Step>)
        ensures
            final(self)@ == after_hide_cursor(old(self)@),
            r@ == seq![Step::Command(display_mode_of(final(self)@))],
    {
        self.config.cursor = false;
        self.config.blink = false;
        vec![self.display_mode_command()]
    }

    /// Shifts the display as characters are written, with text entered in
    /// direction `entry`.
    pub fn enable_scroll(&mut self, entry: Direction) -> (r: Vec<Step>)
        ensures
            final(self)@ == after_enable_scroll(old(self)@, entry),
            r@ == seq![Step::Command(entry_mode_of(final(self)@))],
    {
        self.config.scroll = true;
        self.config.entry = entry;
        vec![self.entry_mode_command()]
    }

    /// Stops shifting the display as characters are written; the entry
    /// direction stays as it was.
    pub fn disable_scroll(&mut self) -> (r: Vec<Step>)
        ensures
            final(self)@ == after_disable_scroll(old(self)@),
            r@ == seq![Step::Command(entry_mode_of(final(self)@))],
    {
        self.config.scroll = false;
        vec![self.entry_mode_command()]
    }

    /// Shifts the whole display by one position in direction `dir`; the
    /// entry direction is not changed.
    pub fn shift_display(&self, dir: Direction) -> (r: Vec<Step>)
        ensures
            r@ == seq![Step::Command(shift_display_byte(dir))],
    {
        vec![Step::Command(crate::command::shift_display(dir))]
    }

    /// Moves the cursor by one position in direction `dir`; the entry
    /// direction is not changed.
    pub fn shift_cursor(&self, dir: Direction) -> (r: Vec<Step>)
        ensures
            r@ == seq![Step::Command(shift_cursor_byte(dir))],
    {
        vec![Step::Command(crate::command::shift_cursor(dir))]
    }

    /// Writes `bytes` at the cursor, one character frame per byte.
    pub fn write_bytes(&self, bytes: &[u8]) -> (r: Vec<Step>)
        ensures
            r@ == bytes@.map_values(|b: u8| Step::Data(b)),
    {
        crate::step::text(bytes)
    }

    /// Number of lines that the handle was made for.
    pub fn lines(&self) -> (r: u8)
        ensures
            r == self@.lines,
    {
        self.config.lines
    }

    /// Direction of text entry last asked for.
    pub fn entry(&self) -> (r: Direction)
        ensures
            r == self@.entry,
    {
        self.config.entry
    }

    /// Whether the display shifts as characters are written.
    pub fn scroll(&self) -> (r: bool)
        ensures
            r == self@.scroll,
    {
        self.config.scroll
    }

    /// Whether the display is switched on.
    pub fn display(&self) -> (r: bool)
        ensures
            r == self@.display,
    {
        self.config.display
    }

    /// Whether the cursor is shown.
    pub fn cursor(&self) -> (r: bool)
        ensures
            r == self@.cursor,
    {
        self.config.cursor
    }

    /// Whether the cursor blinks.
    pub fn blink(&self) -> (r: bool)
        ensures
            r == self@.blink,
    {
        self.config.blink
    }

    /// The configuration as a whole.
    pub fn config(&self) -> (r: Config)
        ensures
            r == self@,
    {
        self.config
    }

    fn entry_mode_command(&self) -> (r: Step)
        ensures
            r == Step::Command(entry_mode_of(self@)),
    {
        Step::Command(entry_mode(self.config.scroll, self.config.entry))
    }

    fn display_mode_command(&self) -> (r: Step)
        ensures
            r == Step::Command(display_mode_of(self@)),
    {
        Step::Command(display_mode(self.config.display, self.config.cursor, self.config.blink))
    }
}

} // verus!
