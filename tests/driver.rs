use st7032i::command::{
    booster_config, contrast, display_mode, entry_mode, follower_config, function_set,
    move_cursor, osc_config, shift_cursor, shift_display, CLEAR_DISPLAY, RETURN_HOME,
};
use st7032i::step::{text, CONTROL_COMMAND, CONTROL_DATA};
use st7032i::{action, after_write, Action, Direction, InstructionSet, Reaction, Step, ST7032i};

fn commands(program: &[Step]) -> Vec<u8> {
    program
        .iter()
        .filter_map(|s| match s {
            Step::Command(b) | Step::Probe(b) => Some(*b),
            _ => None,
        })
        .collect()
}

#[test]
fn function_set_bits() {
    for is in [InstructionSet::Normal, InstructionSet::Extended] {
        for lines in [0u8, 1, 2, 4] {
            for dbl in [false, true] {
                let b = function_set(is, lines, dbl);
                assert_eq!(b & 0xf0, 0x30);
                assert_eq!(b & 0x08 != 0, lines > 1);
                assert_eq!(b & 0x04 != 0, lines <= 1 && dbl);
                assert_eq!(b & 0x02, 0);
                assert_eq!(b & 0x01 != 0, is == InstructionSet::Extended);
            }
        }
    }
    assert_eq!(function_set(InstructionSet::Normal, 1, false), 0b0011_0000);
    assert_eq!(function_set(InstructionSet::Extended, 2, false), 0b0011_1001);
    assert_eq!(function_set(InstructionSet::Extended, 1, true), 0b0011_0101);
}

#[test]
fn display_mode_bits() {
    for display in [false, true] {
        for cursor in [false, true] {
            for blink in [false, true] {
                let expected = 0b0000_1000u8 | blink as u8 | (cursor as u8) << 1 | (display as u8) << 2;
                assert_eq!(display_mode(display, cursor, blink), expected);
            }
        }
    }
}

#[test]
fn display_mode_replays_state_in_any_order() {
    let mut a = ST7032i::new(2);
    a.on();
    a.show_cursor(true);
    let from_a = a.off();
    let mut b = ST7032i::new(2);
    b.show_cursor(false);
    b.hide_cursor();
    b.show_cursor(true);
    let from_b = b.off();
    assert_eq!(from_a, from_b);
    assert_eq!(from_a, vec![Step::Command(0b0000_1011)]);
}

#[test]
fn cursor_survives_off_and_on() {
    let mut d = ST7032i::new(2);
    d.init();
    assert_eq!(d.show_cursor(true), vec![Step::Command(0b0000_1111)]);
    assert_eq!(d.off(), vec![Step::Command(0b0000_1011)]);
    assert_eq!(d.on(), vec![Step::Command(0b0000_1111)]);
    assert!(d.cursor());
    assert!(d.blink());
    assert!(d.display());
}

#[test]
fn numeric_fields_at_their_bounds() {
    assert_eq!(contrast(15), 0b0111_1111);
    assert_eq!(follower_config(false, 7), 0b0110_0111);
    assert_eq!(osc_config(false, 7), 0b0001_0111);
    assert_eq!(booster_config(false, false, 3), 0b0101_0011);
}

#[test]
fn numeric_fields_with_flags() {
    assert_eq!(osc_config(true, 0), 0b0001_1000);
    assert_eq!(contrast(0), 0b0111_0000);
    assert_eq!(booster_config(true, false, 0), 0b0101_0100);
    assert_eq!(booster_config(true, true, 2), 0b0101_1110);
    assert_eq!(follower_config(true, 0), 0b0110_1000);
}

#[test]
fn init_stopped_early_keeps_display() {
    let mut d = ST7032i::new(2);
    d.on();
    let before = d.config();
    d.init();
    d.init_stopped(before, 3);
    assert_eq!(d.config(), before);
    assert!(d.display());
}

#[test]
fn init_stopped_after_display_off() {
    let mut d = ST7032i::new(2);
    d.on();
    let before = d.config();
    d.init();
    d.init_stopped(before, 9);
    assert!(!d.display());
    assert_eq!(d.lines(), 2);
}

#[test]
fn init_stopped_at_clear_has_display_on() {
    let mut d = ST7032i::new(2);
    let before = d.config();
    d.init();
    d.init_stopped(before, 15);
    assert!(d.display());
}

#[test]
fn init_stopped_on_other_state_changes_nothing() {
    let mut d = ST7032i::new(2);
    let before = d.config();
    d.init();
    d.show_cursor(true);
    let now = d.config();
    d.init_stopped(before, 0);
    assert_eq!(d.config(), now);
}

#[test]
fn move_cursor_rows() {
    assert_eq!(move_cursor(0, 5), 0b1000_0101);
    assert_eq!(move_cursor(1, 5), 0b1100_0101);
    let d = ST7032i::new(2);
    assert_eq!(d.move_cursor(0, 5), vec![Step::Command(0b1000_0101)]);
    assert_eq!(d.move_cursor(1, 5), vec![Step::Command(0b1100_0101)]);
}

#[test]
fn init_on_two_lines() {
    let mut d = ST7032i::new(2);
    let program = d.init();
    let cmds = commands(&program);
    assert_eq!(&cmds[..4], &[0b0011_0000, 0b0011_0001, 0b0011_0001, 0b0011_1001]);
    for b in &cmds[..4] {
        assert_eq!(b & 0xf0, 0x30);
    }
    assert!(cmds[3] & 0x08 != 0);
    assert!(cmds[3] & 0x01 != 0);
    assert_eq!(*cmds.last().unwrap(), 0x01);
    assert_eq!(
        cmds,
        vec![0x30, 0x31, 0x31, 0x39, 0x08, 0x18, 0x70, 0x54, 0x68, 0x04, 0x0c, 0x01]
    );
    assert_eq!(program[0], Step::Probe(0x30));
    assert_eq!(*program.last().unwrap(), Step::Pause(2));
    assert!(d.display());
    assert!(!d.cursor());
    assert!(!d.blink());
    assert!(!d.scroll());
    assert_eq!(d.entry(), Direction::RightToLeft);
    assert_eq!(d.lines(), 2);
}

#[test]
fn init_on_one_line() {
    let mut d = ST7032i::new(1);
    let cmds = commands(&d.init());
    assert_eq!(cmds[3], 0b0011_0001);
}

#[test]
fn disable_scroll_keeps_entry() {
    let mut d = ST7032i::new(2);
    assert_eq!(d.enable_scroll(Direction::LeftToRight), vec![Step::Command(0b0000_0111)]);
    let program = d.disable_scroll();
    assert_eq!(program, vec![Step::Command(0b0000_0110)]);
    assert_eq!(d.entry(), Direction::LeftToRight);
    assert!(!d.scroll());
    assert_eq!(entry_mode(false, Direction::LeftToRight) & 0x01, 0);
    assert_ne!(entry_mode(false, Direction::LeftToRight) & 0x02, 0);
}

#[test]
fn fresh_handle() {
    let d = ST7032i::new(1);
    assert_eq!(d.lines(), 1);
    assert_eq!(d.entry(), Direction::RightToLeft);
    assert!(!d.scroll() && !d.display() && !d.cursor() && !d.blink());
}

#[test]
fn entry_mode_bits() {
    assert_eq!(entry_mode(false, Direction::RightToLeft), 0b0000_0100);
    assert_eq!(entry_mode(true, Direction::RightToLeft), 0b0000_0101);
    assert_eq!(entry_mode(true, Direction::LeftToRight), 0b0000_0111);
}

#[test]
fn shifts_do_not_touch_entry() {
    let d = ST7032i::new(2);
    assert_eq!(shift_display(Direction::LeftToRight), 0b0001_1100);
    assert_eq!(shift_display(Direction::RightToLeft), 0b0001_1000);
    assert_eq!(shift_cursor(Direction::LeftToRight), 0b0001_0100);
    assert_eq!(shift_cursor(Direction::RightToLeft), 0b0001_0000);
    assert_eq!(d.shift_display(Direction::LeftToRight), vec![Step::Command(0b0001_1100)]);
    assert_eq!(d.shift_cursor(Direction::RightToLeft), vec![Step::Command(0b0001_0000)]);
    assert_eq!(d.entry(), Direction::RightToLeft);
}

#[test]
fn clear_and_home_wait() {
    let d = ST7032i::new(2);
    assert_eq!(d.clear(), vec![Step::Command(CLEAR_DISPLAY), Step::Pause(2)]);
    assert_eq!(d.home(), vec![Step::Command(RETURN_HOME), Step::Pause(2)]);
    assert_eq!(CLEAR_DISPLAY, 0x01);
    assert_eq!(RETURN_HOME, 0x02);
}

#[test]
fn hide_cursor_clears_both() {
    let mut d = ST7032i::new(2);
    d.on();
    d.show_cursor(true);
    assert_eq!(d.hide_cursor(), vec![Step::Command(0b0000_1100)]);
    assert!(!d.cursor() && !d.blink());
}

#[test]
fn frames() {
    assert_eq!(action(Step::Command(0x39)), Action::Write { control: CONTROL_COMMAND, payload: 0x39 });
    assert_eq!(action(Step::Probe(0x30)), Action::Write { control: 0x00, payload: 0x30 });
    assert_eq!(action(Step::Data(b'A')), Action::Write { control: CONTROL_DATA, payload: b'A' });
    assert_eq!(CONTROL_DATA, 0x40);
    assert_eq!(action(Step::Pause(20)), Action::Wait(20));
}

#[test]
fn write_outcomes() {
    assert_eq!(after_write(Step::Command(1), true), Reaction::Continue { pauses: vec![1] });
    assert_eq!(after_write(Step::Command(1), false), Reaction::Stop);
    assert_eq!(after_write(Step::Probe(0x30), true), Reaction::Continue { pauses: vec![1, 1] });
    assert_eq!(after_write(Step::Probe(0x30), false), Reaction::Continue { pauses: vec![20] });
    assert_eq!(after_write(Step::Data(b'x'), false), Reaction::Continue { pauses: vec![] });
    assert_eq!(after_write(Step::Data(b'x'), true), Reaction::Continue { pauses: vec![] });
}

#[test]
fn text_frames_each_byte() {
    assert_eq!(text(b"Hi!"), vec![Step::Data(b'H'), Step::Data(b'i'), Step::Data(b'!')]);
    assert_eq!(text(b""), vec![]);
    let d = ST7032i::new(2);
    assert_eq!(d.write_bytes(b"Rust"), text(b"Rust"));
}
