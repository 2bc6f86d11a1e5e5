//! Execution core of an 8-bit interpreted machine with a 64x32 monochrome
//! display and a sixteen-key keypad: the fetch-decode-execute engine, its
//! timers, and the state they change, each operation specified over a
//! mathematical model of that state.

pub mod display;
pub mod emulator;
pub mod instruction;
pub mod laws;
pub mod model;

pub use emulator::Emulator;
pub use instruction::Instruction;
pub use model::{EmuError, MachineState, SCREEN_HEIGHT, SCREEN_WIDTH};
