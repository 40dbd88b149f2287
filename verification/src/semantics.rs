//! What every instruction and every cycle does, as functions on the model
//! of the machine.

use vstd::prelude::*;
use crate::display::{collides, drawn, sprite_at};
use crate::fault::{Fault, Trap};
use crate::instruction::{decode_spec, Instruction};
use crate::state::{MachineState, DISPLAY_SIZE, NUM_KEYS, RAM_SIZE, STACK_SIZE, START_ADDR};

verus! {

/// Whether `k` is the lowest-indexed key that is held down.
pub open spec fn is_lowest_pressed(keys: Seq<bool>, k: int) -> bool {
    &&& 0 <= k < keys.len()
    &&& keys[k]
    &&& forall|j: int| 0 <= j < k ==> !keys[j]
}

/// Whether any key is held down.
pub open spec fn any_pressed(keys: Seq<bool>) -> bool {
    exists|k: int| 0 <= k < keys.len() && keys[k]
}

/// The lowest-indexed key that is held down, where there is one.
pub open spec fn lowest_pressed(keys: Seq<bool>) -> int {
    choose|k: int| is_lowest_pressed(keys, k)
}

/// Only one key can be the lowest that is held down.
pub proof fn lowest_pressed_is_unique(keys: Seq<bool>, k: int)
    requires
        is_lowest_pressed(keys, k),
    ensures
        any_pressed(keys),
        lowest_pressed(keys) == k,
{
    let chosen = lowest_pressed(keys);
    assert(is_lowest_pressed(keys, chosen));
    if chosen < k {
        assert(!keys[chosen]);
    }
    if k < chosen {
        assert(!keys[k]);
    }
}

/// The flag value for a condition: 1 where it holds, 0 where it does not.
pub open spec fn flag(condition: bool) -> u8 {
    if condition {
        1
    } else {
        0
    }
}

/// Why `instruction` cannot be carried out in state `s`, or `None` where it
/// can. A return traps on an empty stack and a call on a full one; an
/// instruction that reads or writes memory at `I` traps where it would reach
/// past the last address; a key test traps where `Vx` names no key.
pub open spec fn trap_of(s: MachineState, instruction: Instruction) -> Option<Trap> {
    match instruction {
        Instruction::Return => {
            if s.sp == 0 {
                Some(Trap::StackUnderflow)
            } else {
                None
            }
        },
        Instruction::Call { addr } => {
            if s.sp >= STACK_SIZE {
                Some(Trap::StackOverflow)
            } else {
                None
            }
        },
        Instruction::Draw { x, y, rows } => {
            if rows > 0 && s.i + rows > RAM_SIZE {
                Some(Trap::MemoryOutOfBounds)
            } else {
                None
            }
        },
        Instruction::SkipIfKeyDown { x } | Instruction::SkipIfKeyUp { x } => {
            if s.v[x as int] >= NUM_KEYS {
                Some(Trap::KeyOutOfRange)
            } else {
                None
            }
        },
        Instruction::StoreDecimal { x } => {
            if s.i + 2 >= RAM_SIZE {
                Some(Trap::MemoryOutOfBounds)
            } else {
                None
            }
        },
        Instruction::StoreRegisters { x } | Instruction::LoadRegisters { x } => {
            if s.i + x >= RAM_SIZE {
                Some(Trap::MemoryOutOfBounds)
            } else {
                None
            }
        },
        _ => None,
    }
}

/// The state after `instruction` was carried out in state `s`, whose program
/// counter already points past the instruction. `random` is the byte that a
/// `Random` instruction draws; no other instruction looks at it.
pub open spec fn effect(s: MachineState, instruction: Instruction, random: u8) -> MachineState {
    match instruction {
        Instruction::ClearScreen => MachineState {
            display: Seq::new(DISPLAY_SIZE as nat, |p: int| false),
            ..s
        },
        Instruction::Return => MachineState {
            pc: s.stack[s.sp - 1],
            sp: (s.sp - 1) as nat,
            ..s
        },
        Instruction::Jump { addr } => MachineState { pc: addr, ..s },
        Instruction::Call { addr } => MachineState {
            pc: addr,
            sp: s.sp + 1,
            stack: s.stack.update(s.sp as int, s.pc),
            ..s
        },
        Instruction::SkipIfEqualByte { x, byte } => s.skip_if(s.v[x as int] == byte),
        Instruction::SkipIfNotEqualByte { x, byte } => s.skip_if(s.v[x as int] != byte),
        Instruction::SkipIfEqual { x, y } => s.skip_if(s.v[x as int] == s.v[y as int]),
        Instruction::SkipIfNotEqual { x, y } => s.skip_if(s.v[x as int] != s.v[y as int]),
        Instruction::LoadByte { x, byte } => s.with_register(x as int, byte),
        Instruction::AddByte { x, byte } => s.with_register(
            x as int,
            ((s.v[x as int] + byte) % 256) as u8,
        ),
        Instruction::Move { x, y } => s.with_register(x as int, s.v[y as int]),
        Instruction::Or { x, y } => s.with_register(x as int, s.v[x as int] | s.v[y as int]),
        Instruction::And { x, y } => s.with_register(x as int, s.v[x as int] & s.v[y as int]),
        Instruction::Xor { x, y } => s.with_register(x as int, s.v[x as int] ^ s.v[y as int]),
        Instruction::Add { x, y } => s.with_register_and_flag(
            x as int,
            ((s.v[x as int] + s.v[y as int]) % 256) as u8,
            flag(s.v[x as int] + s.v[y as int] > 255),
        ),
        Instruction::Sub { x, y } => s.with_register_and_flag(
            x as int,
            ((s.v[x as int] - s.v[y as int]) % 256) as u8,
            flag(s.v[x as int] >= s.v[y as int]),
        ),
        Instruction::SubFrom { x, y } => s.with_register_and_flag(
            x as int,
            ((s.v[y as int] - s.v[x as int]) % 256) as u8,
            flag(s.v[y as int] >= s.v[x as int]),
        ),
        Instruction::ShiftRight { x } => s.with_register_and_flag(
            x as int,
            s.v[x as int] / 2,
            s.v[x as int] % 2,
        ),
        Instruction::ShiftLeft { x } => s.with_register_and_flag(
            x as int,
            ((s.v[x as int] * 2) % 256) as u8,
            s.v[x as int] / 128,
        ),
        Instruction::LoadIndex { addr } => MachineState { i: addr, ..s },
        Instruction::JumpOffset { addr } => MachineState { pc: (s.v[0] + addr) as u16, ..s },
        Instruction::Random { x, byte } => s.with_register(x as int, random & byte),
        Instruction::Draw { x, y, rows } => {
            let sprite = sprite_at(s.memory, s.i as int, rows as int);
            MachineState {
                display: drawn(s.display, sprite, s.v[x as int] as int, s.v[y as int] as int),
                v: s.v.update(
                    0xF,
                    flag(collides(s.display, sprite, s.v[x as int] as int, s.v[y as int] as int)),
                ),
                ..s
            }
        },
        Instruction::SkipIfKeyDown { x } => s.skip_if(s.keys[s.v[x as int] as int]),
        Instruction::SkipIfKeyUp { x } => s.skip_if(!s.keys[s.v[x as int] as int]),
        Instruction::ReadDelay { x } => s.with_register(x as int, s.delay_timer),
        Instruction::WaitKey { x } => if any_pressed(s.keys) {
            s.with_register(x as int, lowest_pressed(s.keys) as u8)
        } else {
            MachineState { pc: (s.pc - 2) as u16, ..s }
        },
        Instruction::SetDelay { x } => MachineState { delay_timer: s.v[x as int], ..s },
        Instruction::SetSound { x } => MachineState { sound_timer: s.v[x as int], ..s },
        Instruction::AddIndex { x } => MachineState {
            i: ((s.i + s.v[x as int]) % 0x10000) as u16,
            ..s
        },
        Instruction::FontGlyph { x } => MachineState { i: (s.v[x as int] * 5) as u16, ..s },
        Instruction::StoreDecimal { x } => MachineState {
            memory: s.memory.update(s.i as int, s.v[x as int] / 100).update(
                s.i + 1,
                (s.v[x as int] / 10) % 10,
            ).update(s.i + 2, s.v[x as int] % 10),
            ..s
        },
        Instruction::StoreRegisters { x } => MachineState {
            memory: Seq::new(
                s.memory.len(),
                |a: int|
                    if s.i <= a <= s.i + x {
                        s.v[a - s.i]
                    } else {
                        s.memory[a]
                    },
            ),
            ..s
        },
        Instruction::LoadRegisters { x } => MachineState {
            v: Seq::new(
                s.v.len(),
                |k: int|
                    if k <= x {
                        s.memory[s.i + k]
                    } else {
                        s.v[k]
                    },
            ),
            ..s
        },
    }
}

/// What executing opcode `op` does to state `s`, whose program counter
/// already points past the opcode: the next state, or the fault that stops
/// the machine.
pub open spec fn execute_spec(s: MachineState, op: u16, random: u8) -> Result<MachineState, Fault> {
    match decode_spec(op) {
        None => Err(Fault::UnknownOpcode { opcode: op }),
        Some(instruction) => match trap_of(s, instruction) {
            Some(trap) => Err(Fault::Trapped { opcode: op, trap }),
            None => Ok(effect(s, instruction, random)),
        },
    }
}

/// What the caller is told of a cycle: that it went through, or the fault.
pub open spec fn result_of(outcome: Result<MachineState, Fault>) -> Result<(), Fault> {
    match outcome {
        Ok(_) => Ok(()),
        Err(fault) => Err(fault),
    }
}

/// The state a cycle leaves the machine in: the next state, or, where the
/// machine faulted, the state `before` the cycle, untouched.
pub open spec fn state_after(before: MachineState, outcome: Result<MachineState, Fault>) -> MachineState {
    match outcome {
        Ok(next) => next,
        Err(_) => before,
    }
}

/// Whether opcode `op` stands for the instruction that draws a random byte.
pub open spec fn draws_random(op: u16) -> bool {
    decode_spec(op) matches Some(Instruction::Random { x: _, byte: _ })
}

/// Whether both bytes of the next instruction lie in memory.
pub open spec fn can_fetch(s: MachineState) -> bool {
    s.pc + 1 < RAM_SIZE
}

/// The state after the fetch: the program counter moved past the opcode.
pub open spec fn fetched(s: MachineState) -> MachineState {
    MachineState { pc: (s.pc + 2) as u16, ..s }
}

/// Whether the next cycle from state `s` executes the instruction that
/// draws a random byte.
pub open spec fn next_draws_random(s: MachineState) -> bool {
    can_fetch(s) && draws_random(s.next_opcode())
}

/// One whole cycle from state `s`: fetch the opcode at the program counter,
/// move the program counter past it, decode and execute. Gives the next
/// state, or the fault that stops the machine with its state as it was.
pub open spec fn step(s: MachineState, random: u8) -> Result<MachineState, Fault> {
    if can_fetch(s) {
        execute_spec(fetched(s), s.next_opcode(), random)
    } else {
        Err(Fault::FetchOutOfBounds { pc: s.pc })
    }
}

/// One cycle after another from state `s`, as many as `randoms` has bytes,
/// the k-th cycle with the k-th byte. Stops at the first fault.
pub open spec fn run(s: MachineState, randoms: Seq<u8>) -> Result<MachineState, Fault>
    decreases randoms.len(),
{
    if randoms.len() == 0 {
        Ok(s)
    } else {
        match step(s, randoms[0]) {
            Ok(next) => run(next, randoms.drop_first()),
            Err(fault) => Err(fault),
        }
    }
}

/// The state after one tick of the 60 Hz clock: each timer that is not yet
/// zero goes down by one.
pub open spec fn timers_ticked(s: MachineState) -> MachineState {
    MachineState {
        delay_timer: if s.delay_timer > 0 {
            (s.delay_timer - 1) as u8
        } else {
            0
        },
        sound_timer: if s.sound_timer > 0 {
            (s.sound_timer - 1) as u8
        } else {
            0
        },
        ..s
    }
}

/// The memory after `data` was copied to the start address and onward.
pub open spec fn loaded(memory: Seq<u8>, data: Seq<u8>) -> Seq<u8> {
    Seq::new(
        memory.len(),
        |a: int|
            if START_ADDR <= a < START_ADDR + data.len() {
                data[a - START_ADDR]
            } else {
                memory[a]
            },
    )
}

} // verus!
