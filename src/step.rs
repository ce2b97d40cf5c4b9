//! The bus protocol: the steps that an operation's program is made of, the
//! frame that each write puts on the bus, and what the outcome of a write
//! means for the rest of the program.

use vstd::prelude::*;

verus! {

/// Seven-bit bus address of the controller.
pub const I2C_ADDRESS: u8 = 0x3e;

/// Control byte of a frame whose payload is an instruction.
pub const CONTROL_COMMAND: u8 = 0b0000_0000;

/// Control byte of a frame whose payload is a character for display memory.
pub const CONTROL_DATA: u8 = 0b0100_0000;

/// One step of a program.
#[derive(Debug, Clone, Copy, PartialEq, Eq, Structural)]
pub enum Step {
    /// Writes an instruction. A failed write ends the program with its error;
    /// a successful one is followed by a settle of one millisecond.
    Command(u8),
    /// Writes an instruction to a controller that may still be in its
    /// power-on reset. A failure does not end the program, it only makes the
    /// wait that follows longer.
    Probe(u8),
    /// Writes a character. Its outcome is ignored.
    Data(u8),
    /// Waits the given number of milliseconds.
    Pause(u8),
}

/// What the owner of the bus and of the delay source does for one step.
#[derive(Debug, Clone, Copy, PartialEq, Eq, Structural)]
pub enum Action {
    /// Writes the frame `[control, payload]` to `I2C_ADDRESS`.
    Write { control: u8, payload: u8 },
    /// Blocks for the given number of milliseconds.
    Wait(u8),
}

/// What follows a write, given its outcome.
#[derive(Debug, Clone, PartialEq, Eq)]
pub enum Reaction {
    /// Waits these numbers of milliseconds in turn, then goes on with the
    /// next step.
    Continue { pauses: Vec<u8> },
    /// Ends the program with the error of the write.
    Stop,
}

pub open spec fn action_of(step: Step) -> Action {
    match step {
        Step::Command(b) => Action::Write { control: CONTROL_COMMAND, payload: b },
        Step::Probe(b) => Action::Write { control: CONTROL_COMMAND, payload: b },
        Step::Data(b) => Action::Write { control: CONTROL_DATA, payload: b },
        Step::Pause(ms) => Action::Wait(ms),
    }
}

/// The pauses that follow a write of `step` with outcome `ok`, or `None`
/// where the program ends with the write's error.
pub open spec fn pauses_after(step: Step, ok: bool) -> Option<Seq<u8>> {
    match step {
        Step::Command(_) => if ok {
            Some(seq![1u8])
        } else {
            None
        },
        Step::Probe(_) => if ok {
            Some(seq![1u8, 1u8])
        } else {
            Some(seq![20u8])
        },
        Step::Data(_) => Some(Seq::empty()),
        Step::Pause(_) => Some(Seq::empty()),
    }
}

/// The bus write or the wait that carries out `step`.
pub fn action(step: Step) -> (r: Action)
    ensures
        r == action_of(step),
{
    match step {
        Step::Command(b) => Action::Write { control: CONTROL_COMMAND, payload: b },
        Step::Probe(b) => Action::Write { control: CONTROL_COMMAND, payload: b },
        Step::Data(b) => Action::Write { control: CONTROL_DATA, payload: b },
        Step::Pause(ms) => Action::Wait(ms),
    }
}

/// Decides what follows the write of `step`, where `ok` tells whether the
/// bus accepted it. Only a failed `Command` ends a program early.
pub fn after_write(step: Step, ok: bool) -> (r: Reaction)
    ensures
        match pauses_after(step, ok) {
            Some(p) => r matches Reaction::Continue { pauses } && pauses@ == p,
            None => r is Stop,
        },
{
    match step {
        Step::Command(_) => if ok {
            Reaction::Continue { pauses: vec![1u8] }
        } else {
            Reaction::Stop
        },
        Step::Probe(_) => if ok {
            Reaction::Continue { pauses: vec![1u8, 1u8] }
        } else {
            Reaction::Continue { pauses: vec![20u8] }
        },
        Step::Data(_) => Reaction::Continue { pauses: Vec::new() },
        Step::Pause(_) => Reaction::Continue { pauses: Vec::new() },
    }
}

/// The program that writes `bytes` to display memory, one character frame
/// per byte; a failed write does not stop the ones after it.
pub fn text(bytes: &[u8]) -> (r: Vec<Step>)
    ensures
        r@ == bytes@.map_values(|b: u8| Step::Data(b)),
{
    let mut program: Vec<Step> = Vec::new();
    let mut i: usize = 0;
    while i < bytes.len()
        invariant
            i <= bytes@.len(),
            program@ == bytes@.subrange(0, i as int).map_values(|b: u8| Step::Data(b)),
        decreases bytes@.len() - i,
    {
        program.push(Step::Data(bytes[i]));
        i = i + 1;
        assert(bytes@.subrange(0, i as int) == bytes@.subrange(0, i - 1).push(bytes@[i - 1]));
    }
    assert(bytes@.subrange(0, bytes@.len() as int) == bytes@);
    program
}

} // verus!
