//! Driver logic for the Sitronix ST7032i dot-matrix LCD controller, which is
//! reached over a two-wire bus.
//!
//! The library turns display operations into the controller's command bytes
//! and keeps the configuration state that later commands must agree with.
//! Every operation hands back a program: the ordered bus writes and pauses
//! that carry it out. Whoever owns the bus and the delay source runs the
//! program, one step at a time, and asks [`after_write`] what each write's
//! outcome means for the rest of it.

pub mod command;
pub mod driver;
pub mod laws;
pub mod step;

pub use command::{Direction, InstructionSet};
pub use driver::{Config, ST7032i};
pub use step::{action, after_write, Action, Reaction, Step, I2C_ADDRESS};
