//! The core of a CHIP-8 virtual machine: the machine state and the
//! fetch-decode-execute engine that mutates it.
//!
//! The host drives the machine by calling [`Chip8::tick`] once per instruction
//! cycle and [`Chip8::tick_timers`] once per 60 Hz timer tick. Everything the
//! machine does is stated over [`MachineState`], the mathematical model of the
//! machine, and proved against it.

pub mod display;
pub mod fault;
pub mod instruction;
pub mod laws;
pub mod machine;
mod random;
pub mod semantics;
pub mod state;

pub use fault::{Fault, Trap};
pub use instruction::{decode, Instruction};
pub use machine::Chip8;
pub use state::{
    MachineState, DISPLAY_HEIGHT, DISPLAY_SIZE, DISPLAY_WIDTH, FONTSET, FONTSET_SIZE, NUM_KEYS,
    NUM_REGS, RAM_SIZE, STACK_SIZE, START_ADDR,
};
