//! The machine itself: the state it owns and the operations a host drives
//! it with.

use vstd::prelude::*;
use crate::display::draw_sprite;
use crate::fault::{Fault, Trap};
use crate::instruction::{decode, decoded_is_valid, Instruction};
use crate::random::random_byte;
use crate::semantics::{
    any_pressed, can_fetch, draws_random, effect, execute_spec, fetched, is_lowest_pressed,
    loaded, lowest_pressed_is_unique, next_draws_random, result_of, state_after, step,
    timers_ticked, trap_of,
};
use crate::state::{
    MachineState, DISPLAY_SIZE, FONTSET, FONTSET_SIZE, NUM_KEYS, NUM_REGS, RAM_SIZE, STACK_SIZE,
    START_ADDR,
};

verus! {

/// A CHIP-8 machine: an owned value that holds all interpreter state.
///
/// Its view is the [`MachineState`] that the contracts speak of. The stack
/// never holds more than sixteen return addresses.
pub struct Chip8 {
    pc: u16,
    ram: [u8; RAM_SIZE],
    display: [bool; DISPLAY_SIZE],
    v: [u8; NUM_REGS],
    i: u16,
    sp: u16,
    stack: [u16; STACK_SIZE],
    keys: [bool; NUM_KEYS],
    dt: u8,
    st: u8,
}

impl View for Chip8 {
    type V = MachineState;

    closed spec fn view(&self) -> MachineState {
        MachineState {
            pc: self.pc,
            memory: self.ram@,
            display: self.display@,
            v: self.v@,
            i: self.i,
            sp: self.sp as nat,
            stack: self.stack@,
            keys: self.keys@,
            delay_timer: self.dt,
            sound_timer: self.st,
        }
    }
}

/// Memory as it is after power-up: the font at address 0 and zero elsewhere.
fn fresh_memory() -> (ram: [u8; RAM_SIZE])
    ensures
        ram@ == MachineState::initial().memory,
{
    let mut ram: [u8; RAM_SIZE] = [0; RAM_SIZE];
    let mut a: usize = 0;
    while a < FONTSET_SIZE
        invariant
            a <= FONTSET_SIZE,
            forall|b: int| 0 <= b < a ==> ram@[b] == FONTSET@[b],
            forall|b: int| a <= b < RAM_SIZE ==> ram@[b] == 0,
        decreases FONTSET_SIZE - a,
    {
        ram[a] = FONTSET[a];
        a += 1;
    }
    ram
}

/// The lowest-indexed key that is held down, if any is.
fn first_pressed(keys: &[bool; NUM_KEYS]) -> (found: Option<u8>)
    ensures
        match found {
            Some(k) => is_lowest_pressed(keys@, k as int),
            None => !any_pressed(keys@),
        },
{
    let mut k: u8 = 0;
    while k < 16
        invariant
            k <= 16,
            forall|j: int| 0 <= j < k ==> !keys@[j],
        decreases 16 - k,
    {
        if keys[k as usize] {
            return Some(k);
        }
        k += 1;
    }
    None
}

/// Whether `op` is an opcode of the form `Cxkk`.
fn is_random_opcode(op: u16) -> (yes: bool)
    ensures
        yes == draws_random(op),
{
    assert((op & 0xF000 == 0xC000) == (op / 0x1000 == 0xC)) by (bit_vector);
    op & 0xF000 == 0xC000
}

impl Chip8 {
    #[verifier::type_invariant]
    spec fn stack_fits(self) -> bool {
        self.sp <= STACK_SIZE
    }

    /// A machine in its power-up state: the font at address 0, the program
    /// counter at `0x200`, memory, registers, stack, keys, timers and display
    /// all zero.
    pub fn new() -> (machine: Self)
        ensures
            machine@ == MachineState::initial(),
            machine@.wf(),
            machine@.pc == START_ADDR,
            forall|p: int| 0 <= p < DISPLAY_SIZE ==> !machine@.display[p],
    {
        let new_chip8 = Self {
            pc: START_ADDR,
            ram: fresh_memory(),
            display: [false; DISPLAY_SIZE],
            v: [0; NUM_REGS],
            i: 0,
            sp: 0,
            stack: [0; STACK_SIZE],
            keys: [false; NUM_KEYS],
            dt: 0,
            st: 0,
        };
        new_chip8
    }

    /// Puts the machine back into its power-up state, whatever state it is
    /// in. Any loaded program and the display contents are gone.
    pub fn reset(&mut self)
        ensures
            final(self)@ == MachineState::initial(),
            final(self)@.wf(),
    {
        proof {
            use_type_invariant(&*self);
        }
        self.pc = START_ADDR;
        self.ram = fresh_memory();
        self.display = [false; DISPLAY_SIZE];
        self.v = [0; NUM_REGS];
        self.i = 0;
        self.sp = 0;
        self.stack = [0; STACK_SIZE];
        self.keys = [false; NUM_KEYS];
        self.dt = 0;
        self.st = 0;
    }

    /// The display, row by row, 64 pixels to a row; `true` is lit.
    pub fn get_display(&self) -> (pixels: &[bool])
        ensures
            pixels@ == self@.display,
            pixels@.len() == DISPLAY_SIZE,
    {
        &self.display
    }

    /// The address of the next instruction.
    pub fn pc(&self) -> (pc: u16)
        ensures
            pc == self@.pc,
    {
        self.pc
    }

    /// The index register `I`.
    pub fn index(&self) -> (i: u16)
        ensures
            i == self@.i,
    {
        self.i
    }

    /// The value of register `Vx`.
    pub fn register(&self, x: usize) -> (value: u8)
        requires
            x < NUM_REGS,
        ensures
            value == self@.v[x as int],
    {
        self.v[x]
    }

    /// The byte of memory at `addr`.
    pub fn memory(&self, addr: usize) -> (byte: u8)
        requires
            addr < RAM_SIZE,
        ensures
            byte == self@.memory[addr as int],
    {
        self.ram[addr]
    }

    /// The delay timer.
    pub fn delay_timer(&self) -> (dt: u8)
        ensures
            dt == self@.delay_timer,
    {
        self.dt
    }

    /// The sound timer.
    pub fn sound_timer(&self) -> (st: u8)
        ensures
            st == self@.sound_timer,
    {
        self.st
    }

    /// The number of return addresses on the stack.
    pub fn stack_depth(&self) -> (depth: usize)
        ensures
            depth == self@.sp,
            depth <= STACK_SIZE,
    {
        proof {
            use_type_invariant(self);
        }
        self.sp as usize
    }

    /// Records that key `idx` went down or came up.
    pub fn keypress(&mut self, idx: usize, pressed: bool)
        requires
            idx < NUM_KEYS,
        ensures
            final(self)@ == (MachineState {
                keys: old(self)@.keys.update(idx as int, pressed),
                ..old(self)@
            }),
            final(self)@.wf(),
    {
        proof {
            use_type_invariant(&*self);
        }
        self.keys[idx] = pressed;
    }

    /// Copies a program into memory from address `0x200` on. Nothing else
    /// changes.
    pub fn load(&mut self, data: &[u8])
        requires
            START_ADDR + data@.len() <= RAM_SIZE,
        ensures
            final(self)@ == (MachineState {
                memory: loaded(old(self)@.memory, data@),
                ..old(self)@
            }),
            final(self)@.wf(),
    {
        proof {
            use_type_invariant(&*self);
        }
        let start: usize = START_ADDR as usize;
        let mut k: usize = 0;
        while k < data.len()
            invariant
                k <= data@.len(),
                start == 0x200,
                0x200 + data@.len() <= RAM_SIZE,
                self.sp <= STACK_SIZE,
                self@ == (MachineState { memory: self.ram@, ..old(self)@ }),
                forall|a: int|
                    0 <= a < RAM_SIZE ==> self.ram@[a] == if 0x200 <= a < 0x200 + k {
                        data@[a - 0x200]
                    } else {
                        old(self)@.memory[a]
                    },
            decreases data@.len() - k,
        {
            self.ram[start + k] = data[k];
            k += 1;
        }
    }

    /// Puts a return address on the stack.
    fn push(&mut self, val: u16)
        requires
            old(self)@.sp < STACK_SIZE,
        ensures
            final(self)@ == (MachineState {
                sp: old(self)@.sp + 1,
                stack: old(self)@.stack.update(old(self)@.sp as int, val),
                ..old(self)@
            }),
    {
        proof {
            use_type_invariant(&*self);
        }
        self.stack[self.sp as usize] = val;
        self.sp += 1;
    }

    /// Takes the newest return address off the stack.
    fn pop(&mut self) -> (val: u16)
        requires
            old(self)@.sp > 0,
        ensures
            val == old(self)@.stack[old(self)@.sp - 1],
            final(self)@ == (MachineState { sp: (old(self)@.sp - 1) as nat, ..old(self)@ }),
    {
        proof {
            use_type_invariant(&*self);
        }
        self.sp -= 1;
        self.stack[self.sp as usize]
    }

    /// The opcode at the program counter, high byte first, or `None` where
    /// its two bytes do not both lie in memory.
    fn next_opcode(&self) -> (next: Option<u16>)
        ensures
            match next {
                Some(op) => can_fetch(self@) && op == self@.next_opcode(),
                None => !can_fetch(self@),
            },
    {
        if self.pc as usize + 1 >= RAM_SIZE {
            return None;
        }
        let high_byte: u16 = self.ram[self.pc as usize] as u16;
        let low_byte: u16 = self.ram[(self.pc + 1) as usize] as u16;
        let op: u16 = (high_byte << 8) | low_byte;
        assert((high_byte << 8) | low_byte == high_byte * 256 + low_byte) by (bit_vector)
            requires
                high_byte < 256,
                low_byte < 256,
        ;
        Some(op)
    }

    /// Reads the opcode at the program counter and moves the program counter
    /// past it. Where the opcode does not lie in memory the machine is left
    /// as it is.
    fn fetch(&mut self) -> (fetched_op: Result<u16, Fault>)
        ensures
            match fetched_op {
                Ok(op) => {
                    &&& can_fetch(old(self)@)
                    &&& op == old(self)@.next_opcode()
                    &&& final(self)@ == fetched(old(self)@)
                },
                Err(fault) => {
                    &&& !can_fetch(old(self)@)
                    &&& fault == (Fault::FetchOutOfBounds { pc: old(self)@.pc })
                    &&& final(self)@ == old(self)@
                },
            },
    {
        proof {
            use_type_invariant(&*self);
        }
        match self.next_opcode() {
            Some(op) => {
                self.pc += 2;
                Ok(op)
            },
            None => Err(Fault::FetchOutOfBounds { pc: self.pc }),
        }
    }

    /// Why `instruction` cannot be carried out in the current state, if it
    /// cannot.
    fn trap(&self, instruction: Instruction) -> (trap: Option<Trap>)
        requires
            instruction.valid(),
        ensures
            trap == trap_of(self@, instruction),
    {
        proof {
            use_type_invariant(self);
        }
        let i = self.i as usize;
        match instruction {
            Instruction::Return => {
                if self.sp == 0 {
                    Some(Trap::StackUnderflow)
                } else {
                    None
                }
            },
            Instruction::Call { addr: _ } => {
                if self.sp as usize >= STACK_SIZE {
                    Some(Trap::StackOverflow)
                } else {
                    None
                }
            },
            Instruction::Draw { x: _, y: _, rows } => {
                if rows > 0 && i + rows as usize > RAM_SIZE {
                    Some(Trap::MemoryOutOfBounds)
                } else {
                    None
                }
            },
            Instruction::SkipIfKeyDown { x } | Instruction::SkipIfKeyUp { x } => {
                if self.v[x as usize] as usize >= NUM_KEYS {
                    Some(Trap::KeyOutOfRange)
                } else {
                    None
                }
            },
            Instruction::StoreDecimal { x: _ } => {
                if i + 2 >= RAM_SIZE {
                    Some(Trap::MemoryOutOfBounds)
                } else {
                    None
                }
            },
            Instruction::StoreRegisters { x } | Instruction::LoadRegisters { x } => {
                if i + x as usize >= RAM_SIZE {
                    Some(Trap::MemoryOutOfBounds)
                } else {
                    None
                }
            },
            _ => None,
        }
    }

    /// Moves the program counter past one more instruction.
    fn skip(&mut self)
        requires
            old(self)@.pc <= 0xFFFD,
        ensures
            final(self)@ == old(self)@.skip_if(true),
    {
        proof {
            use_type_invariant(&*self);
        }
        self.pc += 2;
    }

    /// Sets register `x`.
    fn set_register(&mut self, x: u8, value: u8)
        requires
            x < NUM_REGS,
        ensures
            final(self)@ == old(self)@.with_register(x as int, value),
    {
        proof {
            use_type_invariant(&*self);
        }
        self.v[x as usize] = value;
    }

    /// Sets the program counter.
    fn jump(&mut self, pc: u16)
        ensures
            final(self)@ == (MachineState { pc, ..old(self)@ }),
    {
        proof {
            use_type_invariant(&*self);
        }
        self.pc = pc;
    }

    /// Sets the index register.
    fn set_index(&mut self, i: u16)
        ensures
            final(self)@ == (MachineState { i, ..old(self)@ }),
    {
        proof {
            use_type_invariant(&*self);
        }
        self.i = i;
    }

    /// Turns every pixel off.
    fn clear_display(&mut self)
        ensures
            final(self)@ == effect(old(self)@, Instruction::ClearScreen, 0),
    {
        proof {
            use_type_invariant(&*self);
        }
        self.display = [false; DISPLAY_SIZE];
        assert(self.display@ =~= Seq::new(DISPLAY_SIZE as nat, |p: int| false));
    }

    /// Sets register `x`, then the flag register.
    fn set_register_and_flag(&mut self, x: u8, value: u8, flag: u8)
        requires
            x < NUM_REGS,
        ensures
            final(self)@ == old(self)@.with_register_and_flag(x as int, value, flag),
    {
        proof {
            use_type_invariant(&*self);
        }
        self.v[x as usize] = value;
        self.v[0xF] = flag;
    }

    /// Draws the sprite at `I` and records in `VF` whether it collided.
    fn draw(&mut self, x: u8, y: u8, rows: u8)
        requires
            x < NUM_REGS,
            y < NUM_REGS,
            rows < 16,
            trap_of(old(self)@, Instruction::Draw { x, y, rows }) is None,
        ensures
            final(self)@ == effect(old(self)@, Instruction::Draw { x, y, rows }, 0),
    {
        proof {
            use_type_invariant(&*self);
        }
        let x_coor = self.v[x as usize];
        let y_coor = self.v[y as usize];
        let start = self.i as usize;
        let flipped = draw_sprite(&mut self.display, &self.ram, start, rows, x_coor, y_coor);
        self.v[0xF] = if flipped {
            1
        } else {
            0
        };
    }

    /// Stores the hundreds, tens and ones of `Vx` at `I`, `I + 1`, `I + 2`.
    fn store_decimal(&mut self, x: u8)
        requires
            x < NUM_REGS,
            old(self)@.i + 2 < RAM_SIZE,
        ensures
            final(self)@ == effect(old(self)@, Instruction::StoreDecimal { x }, 0),
    {
        proof {
            use_type_invariant(&*self);
        }
        let vx = self.v[x as usize];
        let i = self.i as usize;
        self.ram[i] = vx / 100;
        self.ram[i + 1] = (vx / 10) % 10;
        self.ram[i + 2] = vx % 10;
    }

    /// Stores `V0..=Vx` in memory from `I` on.
    fn store_registers(&mut self, x: u8)
        requires
            x < NUM_REGS,
            old(self)@.i + x < RAM_SIZE,
        ensures
            final(self)@ == effect(old(self)@, Instruction::StoreRegisters { x }, 0),
    {
        proof {
            use_type_invariant(&*self);
        }
        let i = self.i as usize;
        let mut idx: usize = 0;
        while idx <= x as usize
            invariant
                idx <= x + 1,
                x < NUM_REGS,
                i == old(self)@.i,
                i + x < RAM_SIZE,
                self.sp <= STACK_SIZE,
                self@ == (MachineState { memory: self.ram@, ..old(self)@ }),
                forall|a: int|
                    0 <= a < RAM_SIZE ==> self.ram@[a] == if i <= a < i + idx {
                        old(self)@.v[a - i]
                    } else {
                        old(self)@.memory[a]
                    },
            decreases x + 1 - idx,
        {
            self.ram[i + idx] = self.v[idx];
            idx += 1;
        }
    }

    /// Loads `V0..=Vx` from memory from `I` on.
    fn load_registers(&mut self, x: u8)
        requires
            x < NUM_REGS,
            old(self)@.i + x < RAM_SIZE,
        ensures
            final(self)@ == effect(old(self)@, Instruction::LoadRegisters { x }, 0),
    {
        proof {
            use_type_invariant(&*self);
        }
        let i = self.i as usize;
        let mut idx: usize = 0;
        while idx <= x as usize
            invariant
                idx <= x + 1,
                x < NUM_REGS,
                i == old(self)@.i,
                i + x < RAM_SIZE,
                self.sp <= STACK_SIZE,
                self@ == (MachineState { v: self.v@, ..old(self)@ }),
                forall|k: int|
                    0 <= k < NUM_REGS ==> self.v@[k] == if k < idx {
                        old(self)@.memory[i + k]
                    } else {
                        old(self)@.v[k]
                    },
            decreases x + 1 - idx,
        {
            self.v[idx] = self.ram[i + idx];
            idx += 1;
        }
    }

    /// Stores the lowest key that is down in `Vx`, or, with no key down,
    /// moves the program counter back onto this instruction.
    fn wait_key(&mut self, x: u8)
        requires
            x < NUM_REGS,
            old(self)@.pc >= 2,
        ensures
            final(self)@ == effect(old(self)@, Instruction::WaitKey { x }, 0),
    {
        proof {
            use_type_invariant(&*self);
        }
        match first_pressed(&self.keys) {
            Some(k) => {
                proof {
                    lowest_pressed_is_unique(self.keys@, k as int);
                }
                self.v[x as usize] = k;
            },
            None => {
                self.pc -= 2;
            },
        }
    }

    /// Carries out an instruction that does not trap. The program counter
    /// already points past it.
    fn perform(&mut self, instruction: Instruction, random: u8)
        requires
            instruction.valid(),
            trap_of(old(self)@, instruction) is None,
            2 <= old(self)@.pc <= 0xFFFD,
        ensures
            final(self)@ == effect(old(self)@, instruction, random),
    {
        proof {
            use_type_invariant(&*self);
        }
        match instruction {
            Instruction::ClearScreen => {
                self.clear_display();
            },
            Instruction::Return => {
                let addr = self.pop();
                self.jump(addr);
            },
            Instruction::Jump { addr } => {
                self.jump(addr);
            },
            Instruction::Call { addr } => {
                self.push(self.pc);
                self.jump(addr);
            },
            Instruction::SkipIfEqualByte { x, byte } => {
                if self.v[x as usize] == byte {
                    self.skip();
                }
            },
            Instruction::SkipIfNotEqualByte { x, byte } => {
                if self.v[x as usize] != byte {
                    self.skip();
                }
            },
            Instruction::SkipIfEqual { x, y } => {
                if self.v[x as usize] == self.v[y as usize] {
                    self.skip();
                }
            },
            Instruction::SkipIfNotEqual { x, y } => {
                if self.v[x as usize] != self.v[y as usize] {
                    self.skip();
                }
            },
            Instruction::LoadByte { x, byte } => {
                self.set_register(x, byte);
            },
            Instruction::AddByte { x, byte } => {
                let vx = self.v[x as usize];
                self.set_register(x, vx.wrapping_add(byte));
            },
            Instruction::Move { x, y } => {
                let vy = self.v[y as usize];
                self.set_register(x, vy);
            },
            Instruction::Or { x, y } => {
                let vx = self.v[x as usize];
                let vy = self.v[y as usize];
                self.set_register(x, vx | vy);
            },
            Instruction::And { x, y } => {
                let vx = self.v[x as usize];
                let vy = self.v[y as usize];
                self.set_register(x, vx & vy);
            },
            Instruction::Xor { x, y } => {
                let vx = self.v[x as usize];
                let vy = self.v[y as usize];
                self.set_register(x, vx ^ vy);
            },
            Instruction::Add { x, y } => {
                let vx = self.v[x as usize];
                let vy = self.v[y as usize];
                let carry: u8 = if vx as u16 + vy as u16 > 0xFF {
                    1
                } else {
                    0
                };
                self.set_register_and_flag(x, vx.wrapping_add(vy), carry);
            },
            Instruction::Sub { x, y } => {
                let vx = self.v[x as usize];
                let vy = self.v[y as usize];
                let no_borrow: u8 = if vx < vy {
                    0
                } else {
                    1
                };
                self.set_register_and_flag(x, vx.wrapping_sub(vy), no_borrow);
            },
            Instruction::SubFrom { x, y } => {
                let vx = self.v[x as usize];
                let vy = self.v[y as usize];
                let no_borrow: u8 = if vy < vx {
                    0
                } else {
                    1
                };
                self.set_register_and_flag(x, vy.wrapping_sub(vx), no_borrow);
            },
            Instruction::ShiftRight { x } => {
                let vx = self.v[x as usize];
                let lsb = vx & 1;
                assert(vx & 1 == vx % 2) by (bit_vector);
                assert(vx >> 1 == vx / 2) by (bit_vector);
                self.set_register_and_flag(x, vx >> 1, lsb);
            },
            Instruction::ShiftLeft { x } => {
                let vx = self.v[x as usize];
                let msb = (vx >> 7) & 1;
                assert((vx >> 7) & 1 == vx / 128) by (bit_vector);
                assert(vx << 1 == (vx as int * 2) % 256) by (bit_vector);
                self.set_register_and_flag(x, vx << 1, msb);
            },
            Instruction::LoadIndex { addr } => {
                self.set_index(addr);
            },
            Instruction::JumpOffset { addr } => {
                let v0 = self.v[0] as u16;
                self.jump(v0 + addr);
            },
            Instruction::Random { x, byte } => {
                self.set_register(x, random & byte);
            },
            Instruction::Draw { x, y, rows } => {
                self.draw(x, y, rows);
            },
            Instruction::SkipIfKeyDown { x } => {
                let vx = self.v[x as usize];
                if self.keys[vx as usize] {
                    self.skip();
                }
            },
            Instruction::SkipIfKeyUp { x } => {
                let vx = self.v[x as usize];
                if !self.keys[vx as usize] {
                    self.skip();
                }
            },
            Instruction::ReadDelay { x } => {
                let dt = self.dt;
                self.set_register(x, dt);
            },
            Instruction::WaitKey { x } => {
                self.wait_key(x);
            },
            Instruction::SetDelay { x } => {
                self.dt = self.v[x as usize];
            },
            Instruction::SetSound { x } => {
                self.st = self.v[x as usize];
            },
            Instruction::AddIndex { x } => {
                let value = self.v[x as usize] as u16;
                let i = self.i;
                self.set_index(i.wrapping_add(value));
            },
            Instruction::FontGlyph { x } => {
                let vx = self.v[x as usize] as u16;
                self.set_index(vx * 5);
            },
            Instruction::StoreDecimal { x } => {
                self.store_decimal(x);
            },
            Instruction::StoreRegisters { x } => {
                self.store_registers(x);
            },
            Instruction::LoadRegisters { x } => {
                self.load_registers(x);
            },
        }
    }

    /// Decodes and executes one opcode with `random` as the byte that a
    /// `Cxkk` instruction draws. The program counter already points past the
    /// opcode. On a fault the machine is left as it is.
    fn execute(&mut self, op: u16, random: u8) -> (result: Result<(), Fault>)
        requires
            2 <= old(self)@.pc <= 0xFFFD,
        ensures
            result == result_of(execute_spec(old(self)@, op, random)),
            final(self)@ == state_after(old(self)@, execute_spec(old(self)@, op, random)),
    {
        match decode(op) {
            None => Err(Fault::UnknownOpcode { opcode: op }),
            Some(instruction) => {
                proof {
                    decoded_is_valid(op);
                }
                match self.trap(instruction) {
                    Some(trap) => Err(Fault::Trapped { opcode: op, trap }),
                    None => {
                        self.perform(instruction, random);
                        Ok(())
                    },
                }
            },
        }
    }

    /// Runs one fetch-decode-execute cycle with `random` as the byte that a
    /// `Cxkk` instruction draws; no other instruction looks at it.
    ///
    /// The program counter moves past the instruction before it is executed,
    /// so jumps, calls, returns and skips set it from there. On a fault the
    /// machine stops at the instruction boundary: its state is what it was
    /// before the call.
    pub fn tick_with(&mut self, random: u8) -> (result: Result<(), Fault>)
        ensures
            result == result_of(step(old(self)@, random)),
            final(self)@ == state_after(old(self)@, step(old(self)@, random)),
            final(self)@.wf(),
    {
        let start = self.pc;
        let op = match self.fetch() {
            Ok(op) => op,
            Err(fault) => {
                proof {
                    use_type_invariant(&*self);
                }
                return Err(fault);
            },
        };
        let result = self.execute(op, random);
        if result.is_err() {
            self.jump(start);
        }
        proof {
            use_type_invariant(&*self);
        }
        result
    }

    /// Runs one fetch-decode-execute cycle. A `Cxkk` instruction draws its
    /// byte from the random number generator; every other instruction does
    /// what [`Chip8::tick_with`] does with any byte.
    pub fn tick(&mut self) -> (result: Result<(), Fault>)
        ensures
            exists|random: u8|
                {
                    &&& next_draws_random(old(self)@) || random == 0
                    &&& result == result_of(#[trigger] step(old(self)@, random))
                    &&& final(self)@ == state_after(old(self)@, step(old(self)@, random))
                },
            final(self)@.wf(),
    {
        let random = match self.next_opcode() {
            Some(op) => {
                if is_random_opcode(op) {
                    random_byte()
                } else {
                    0
                }
            },
            None => 0,
        };
        self.tick_with(random)
    }

    /// One tick of the 60 Hz clock: each timer that is not yet zero goes
    /// down by one and none goes below zero. A sound timer that reads 1
    /// before the call is the host's cue for its tone.
    pub fn tick_timers(&mut self)
        ensures
            final(self)@ == timers_ticked(old(self)@),
            final(self)@.wf(),
    {
        proof {
            use_type_invariant(&*self);
        }
        if self.dt > 0 {
            self.dt -= 1;
        }
        if self.st > 0 {
            self.st -= 1;
        }
    }
}

} // verus!
