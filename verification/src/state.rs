//! The sizes of the machine, its built-in font and the mathematical model
//! of its state.

use vstd::prelude::*;

verus! {

/// Number of addressable bytes of memory.
pub const RAM_SIZE: usize = 4096;

/// Width of the display in pixels.
pub const DISPLAY_WIDTH: usize = 64;

/// Height of the display in pixels.
pub const DISPLAY_HEIGHT: usize = 32;

/// Number of pixels of the display.
pub const DISPLAY_SIZE: usize = 2048;

/// Number of general-purpose registers `V0..VF`.
pub const NUM_REGS: usize = 16;

/// Number of return addresses the stack can hold.
pub const STACK_SIZE: usize = 16;

/// Number of keys of the keypad.
pub const NUM_KEYS: usize = 16;

/// Address at which programs are loaded and start to run.
pub const START_ADDR: u16 = 0x200;

/// Number of bytes of the built-in font.
pub const FONTSET_SIZE: usize = 80;

/// The built-in font: sixteen glyphs of five bytes each, one per hexadecimal
/// digit. Each byte is a row of the glyph, its four high bits the pixels.
pub const FONTSET: [u8; 80] = [
    0xF0, 0x90, 0x90, 0x90, 0xF0,
    0x20, 0x60, 0x20, 0x20, 0x70,
    0xF0, 0x10, 0xF0, 0x80, 0xF0,
    0xF0, 0x10, 0xF0, 0x10, 0xF0,
    0x90, 0x90, 0xF0, 0x10, 0x10,
    0xF0, 0x80, 0xF0, 0x10, 0xF0,
    0xF0, 0x80, 0xF0, 0x90, 0xF0,
    0xF0, 0x10, 0x20, 0x40, 0x40,
    0xF0, 0x90, 0xF0, 0x90, 0xF0,
    0xF0, 0x90, 0xF0, 0x10, 0xF0,
    0xF0, 0x90, 0xF0, 0x90, 0x90,
    0xE0, 0x90, 0xE0, 0x90, 0xE0,
    0xF0, 0x80, 0x80, 0x80, 0xF0,
    0xE0, 0x90, 0x90, 0x90, 0xE0,
    0xF0, 0x80, 0xF0, 0x80, 0xF0,
    0xF0, 0x80, 0xF0, 0x80, 0x80,
];

/// The mathematical model of the machine: every piece of interpreter state as
/// a plain value.
#[verifier::ext_equal]
pub struct MachineState {
    /// Address of the next instruction to fetch.
    pub pc: u16,
    /// The 4096 bytes of memory.
    pub memory: Seq<u8>,
    /// The 64x32 pixels, row by row; `true` is lit.
    pub display: Seq<bool>,
    /// The registers `V0..VF`; `VF` doubles as the flag register.
    pub v: Seq<u8>,
    /// The index register `I`.
    pub i: u16,
    /// Number of return addresses on the stack.
    pub sp: nat,
    /// The sixteen stack slots; the first `sp` of them are in use.
    pub stack: Seq<u16>,
    /// The sixteen keys; `true` is held down.
    pub keys: Seq<bool>,
    /// The delay timer.
    pub delay_timer: u8,
    /// The sound timer.
    pub sound_timer: u8,
}

impl MachineState {
    /// Every component has its fixed size and the stack is not overfull.
    pub open spec fn wf(self) -> bool {
        &&& self.memory.len() == RAM_SIZE
        &&& self.display.len() == DISPLAY_SIZE
        &&& self.v.len() == NUM_REGS
        &&& self.stack.len() == STACK_SIZE
        &&& self.keys.len() == NUM_KEYS
        &&& self.sp <= STACK_SIZE
    }

    /// The state of a machine that was just built or reset: the font at
    /// address 0, the program counter at the start address, all else zero.
    pub open spec fn initial() -> MachineState {
        MachineState {
            pc: START_ADDR,
            memory: Seq::new(
                RAM_SIZE as nat,
                |a: int| if a < FONTSET_SIZE { FONTSET@[a] } else { 0u8 },
            ),
            display: Seq::new(DISPLAY_SIZE as nat, |p: int| false),
            v: Seq::new(NUM_REGS as nat, |k: int| 0u8),
            i: 0,
            sp: 0,
            stack: Seq::new(STACK_SIZE as nat, |k: int| 0u16),
            keys: Seq::new(NUM_KEYS as nat, |k: int| false),
            delay_timer: 0,
            sound_timer: 0,
        }
    }

    /// The state with register `x` set to `value`.
    pub open spec fn with_register(self, x: int, value: u8) -> MachineState {
        MachineState { v: self.v.update(x, value), ..self }
    }

    /// The state with register `x` set to `value` and then `VF` set to `flag`.
    /// When `x` names `VF` itself, the flag is what remains.
    pub open spec fn with_register_and_flag(self, x: int, value: u8, flag: u8) -> MachineState {
        MachineState { v: self.v.update(x, value).update(0xF, flag), ..self }
    }

    /// The state with the program counter moved past one more instruction
    /// when `condition` holds.
    pub open spec fn skip_if(self, condition: bool) -> MachineState {
        if condition {
            MachineState { pc: (self.pc + 2) as u16, ..self }
        } else {
            self
        }
    }

    /// The opcode at the program counter: two bytes, the high one first.
    pub open spec fn next_opcode(self) -> u16 {
        (self.memory[self.pc as int] * 256 + self.memory[self.pc + 1]) as u16
    }
}

} // verus!
