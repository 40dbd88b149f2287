//! The instruction set and the opcode table that decodes it.

use vstd::prelude::*;

verus! {

/// One decoded instruction. `x` and `y` name registers, `addr` is a 12-bit
/// address, `byte` an 8-bit constant and `rows` a sprite height.
#[derive(Clone, Copy, Debug, PartialEq, Eq, Structural)]
pub enum Instruction {
    /// `00E0`: clear the display.
    ClearScreen,
    /// `00EE`: return from a subroutine.
    Return,
    /// `1nnn`: jump to `addr`.
    Jump { addr: u16 },
    /// `2nnn`: call the subroutine at `addr`.
    Call { addr: u16 },
    /// `3xkk`: skip the next instruction if `Vx == byte`.
    SkipIfEqualByte { x: u8, byte: u8 },
    /// `4xkk`: skip the next instruction if `Vx != byte`.
    SkipIfNotEqualByte { x: u8, byte: u8 },
    /// `5xy0`: skip the next instruction if `Vx == Vy`.
    SkipIfEqual { x: u8, y: u8 },
    /// `6xkk`: `Vx = byte`.
    LoadByte { x: u8, byte: u8 },
    /// `7xkk`: `Vx = Vx + byte`, wrapping, flag untouched.
    AddByte { x: u8, byte: u8 },
    /// `8xy0`: `Vx = Vy`.
    Move { x: u8, y: u8 },
    /// `8xy1`: `Vx = Vx | Vy`.
    Or { x: u8, y: u8 },
    /// `8xy2`: `Vx = Vx & Vy`.
    And { x: u8, y: u8 },
    /// `8xy3`: `Vx = Vx ^ Vy`.
    Xor { x: u8, y: u8 },
    /// `8xy4`: `Vx = Vx + Vy`, `VF` = carry.
    Add { x: u8, y: u8 },
    /// `8xy5`: `Vx = Vx - Vy`, `VF` = no borrow.
    Sub { x: u8, y: u8 },
    /// `8xy6`: `Vx = Vx >> 1`, `VF` = the bit shifted out.
    ShiftRight { x: u8 },
    /// `8xy7`: `Vx = Vy - Vx`, `VF` = no borrow.
    SubFrom { x: u8, y: u8 },
    /// `8xyE`: `Vx = Vx << 1`, `VF` = the bit shifted out.
    ShiftLeft { x: u8 },
    /// `9xy0`: skip the next instruction if `Vx != Vy`.
    SkipIfNotEqual { x: u8, y: u8 },
    /// `Annn`: `I = addr`.
    LoadIndex { addr: u16 },
    /// `Bnnn`: jump to `V0 + addr`.
    JumpOffset { addr: u16 },
    /// `Cxkk`: `Vx` = a random byte masked with `byte`.
    Random { x: u8, byte: u8 },
    /// `Dxyn`: draw the sprite of `rows` rows at `I` at `(Vx, Vy)`.
    Draw { x: u8, y: u8, rows: u8 },
    /// `Ex9E`: skip the next instruction if key `Vx` is down.
    SkipIfKeyDown { x: u8 },
    /// `ExA1`: skip the next instruction if key `Vx` is up.
    SkipIfKeyUp { x: u8 },
    /// `Fx07`: `Vx` = delay timer.
    ReadDelay { x: u8 },
    /// `Fx0A`: wait for a key and store its index in `Vx`.
    WaitKey { x: u8 },
    /// `Fx15`: delay timer = `Vx`.
    SetDelay { x: u8 },
    /// `Fx18`: sound timer = `Vx`.
    SetSound { x: u8 },
    /// `Fx1E`: `I = I + Vx`, wrapping.
    AddIndex { x: u8 },
    /// `Fx29`: `I` = address of the font glyph for digit `Vx`.
    FontGlyph { x: u8 },
    /// `Fx33`: store the decimal digits of `Vx` at `I`, `I+1`, `I+2`.
    StoreDecimal { x: u8 },
    /// `Fx55`: store `V0..=Vx` in memory from `I` on.
    StoreRegisters { x: u8 },
    /// `Fx65`: load `V0..=Vx` from memory from `I` on.
    LoadRegisters { x: u8 },
}

/// The leading hexadecimal digit of an opcode.
pub open spec fn digit1(op: u16) -> int {
    op as int / 0x1000
}

/// The second hexadecimal digit of an opcode, where `x` stands.
pub open spec fn digit2(op: u16) -> int {
    (op as int / 0x100) % 0x10
}

/// The third hexadecimal digit of an opcode, where `y` stands.
pub open spec fn digit3(op: u16) -> int {
    (op as int / 0x10) % 0x10
}

/// The last hexadecimal digit of an opcode, where `n` stands.
pub open spec fn digit4(op: u16) -> int {
    op as int % 0x10
}

/// The low byte of an opcode, where `kk` stands.
pub open spec fn low_byte(op: u16) -> int {
    op as int % 0x100
}

/// The low twelve bits of an opcode, where `nnn` stands.
pub open spec fn low_address(op: u16) -> int {
    op as int % 0x1000
}

impl Instruction {
    /// Every operand lies in the range its place in an opcode can hold.
    pub open spec fn valid(self) -> bool {
        match self {
            Instruction::ClearScreen | Instruction::Return => true,
            Instruction::Jump { addr }
            | Instruction::Call { addr }
            | Instruction::LoadIndex { addr }
            | Instruction::JumpOffset { addr } => addr < 0x1000,
            Instruction::SkipIfEqualByte { x, byte: _ }
            | Instruction::SkipIfNotEqualByte { x, byte: _ }
            | Instruction::LoadByte { x, byte: _ }
            | Instruction::AddByte { x, byte: _ }
            | Instruction::Random { x, byte: _ } => x < 16,
            Instruction::SkipIfEqual { x, y }
            | Instruction::Move { x, y }
            | Instruction::Or { x, y }
            | Instruction::And { x, y }
            | Instruction::Xor { x, y }
            | Instruction::Add { x, y }
            | Instruction::Sub { x, y }
            | Instruction::SubFrom { x, y }
            | Instruction::SkipIfNotEqual { x, y } => x < 16 && y < 16,
            Instruction::Draw { x, y, rows } => x < 16 && y < 16 && rows < 16,
            Instruction::ShiftRight { x }
            | Instruction::ShiftLeft { x }
            | Instruction::SkipIfKeyDown { x }
            | Instruction::SkipIfKeyUp { x }
            | Instruction::ReadDelay { x }
            | Instruction::WaitKey { x }
            | Instruction::SetDelay { x }
            | Instruction::SetSound { x }
            | Instruction::AddIndex { x }
            | Instruction::FontGlyph { x }
            | Instruction::StoreDecimal { x }
            | Instruction::StoreRegisters { x }
            | Instruction::LoadRegisters { x } => x < 16,
        }
    }
}

/// The opcode table: the instruction an opcode stands for, or `None` where
/// it stands for none.
pub open spec fn decode_spec(op: u16) -> Option<Instruction> {
    let x = digit2(op) as u8;
    let y = digit3(op) as u8;
    let n = digit4(op);
    let byte = low_byte(op) as u8;
    let addr = low_address(op) as u16;
    let kind = digit1(op);
    if kind == 0x0 {
        if op == 0x00E0 {
            Some(Instruction::ClearScreen)
        } else if op == 0x00EE {
            Some(Instruction::Return)
        } else {
            None
        }
    } else if kind == 0x1 {
        Some(Instruction::Jump { addr })
    } else if kind == 0x2 {
        Some(Instruction::Call { addr })
    } else if kind == 0x3 {
        Some(Instruction::SkipIfEqualByte { x, byte })
    } else if kind == 0x4 {
        Some(Instruction::SkipIfNotEqualByte { x, byte })
    } else if kind == 0x5 {
        if n == 0x0 {
            Some(Instruction::SkipIfEqual { x, y })
        } else {
            None
        }
    } else if kind == 0x6 {
        Some(Instruction::LoadByte { x, byte })
    } else if kind == 0x7 {
        Some(Instruction::AddByte { x, byte })
    } else if kind == 0x8 {
        if n == 0x0 {
            Some(Instruction::Move { x, y })
        } else if n == 0x1 {
            Some(Instruction::Or { x, y })
        } else if n == 0x2 {
            Some(Instruction::And { x, y })
        } else if n == 0x3 {
            Some(Instruction::Xor { x, y })
        } else if n == 0x4 {
            Some(Instruction::Add { x, y })
        } else if n == 0x5 {
            Some(Instruction::Sub { x, y })
        } else if n == 0x6 {
            Some(Instruction::ShiftRight { x })
        } else if n == 0x7 {
            Some(Instruction::SubFrom { x, y })
        } else if n == 0xE {
            Some(Instruction::ShiftLeft { x })
        } else {
            None
        }
    } else if kind == 0x9 {
        if n == 0x0 {
            Some(Instruction::SkipIfNotEqual { x, y })
        } else {
            None
        }
    } else if kind == 0xA {
        Some(Instruction::LoadIndex { addr })
    } else if kind == 0xB {
        Some(Instruction::JumpOffset { addr })
    } else if kind == 0xC {
        Some(Instruction::Random { x, byte })
    } else if kind == 0xD {
        Some(Instruction::Draw { x, y, rows: n as u8 })
    } else if kind == 0xE {
        if byte == 0x9E {
            Some(Instruction::SkipIfKeyDown { x })
        } else if byte == 0xA1 {
            Some(Instruction::SkipIfKeyUp { x })
        } else {
            None
        }
    } else {
        if byte == 0x07 {
            Some(Instruction::ReadDelay { x })
        } else if byte == 0x0A {
            Some(Instruction::WaitKey { x })
        } else if byte == 0x15 {
            Some(Instruction::SetDelay { x })
        } else if byte == 0x18 {
            Some(Instruction::SetSound { x })
        } else if byte == 0x1E {
            Some(Instruction::AddIndex { x })
        } else if byte == 0x29 {
            Some(Instruction::FontGlyph { x })
        } else if byte == 0x33 {
            Some(Instruction::StoreDecimal { x })
        } else if byte == 0x55 {
            Some(Instruction::StoreRegisters { x })
        } else if byte == 0x65 {
            Some(Instruction::LoadRegisters { x })
        } else {
            None
        }
    }
}

/// Whatever an opcode decodes to has its operands in range.
pub proof fn decoded_is_valid(op: u16)
    ensures
        decode_spec(op) matches Some(instruction) ==> instruction.valid(),
{
}

/// Splits an opcode into its four hexadecimal digits and looks it up in the
/// opcode table.
pub fn decode(op: u16) -> (decoded: Option<Instruction>)
    ensures
        decoded == decode_spec(op),
{
    let d1: u16 = (op & 0xF000) >> 12;
    let d2: u16 = (op & 0x0F00) >> 8;
    let d3: u16 = (op & 0x00F0) >> 4;
    let d4: u16 = op & 0x000F;
    let low: u16 = op & 0x00FF;
    let addr: u16 = op & 0x0FFF;
    assert((op & 0xF000) >> 12 == op / 0x1000) by (bit_vector);
    assert((op & 0x0F00) >> 8 == (op / 0x100) % 0x10) by (bit_vector);
    assert((op & 0x00F0) >> 4 == (op / 0x10) % 0x10) by (bit_vector);
    assert(op & 0x000F == op % 0x10) by (bit_vector);
    assert(op & 0x00FF == op % 0x100) by (bit_vector);
    assert(op & 0x0FFF == op % 0x1000) by (bit_vector);
    let x: u8 = d2 as u8;
    let y: u8 = d3 as u8;
    let byte: u8 = low as u8;
    match (d1, d2, d3, d4) {
        (0x0, 0x0, 0xE, 0x0) => Some(Instruction::ClearScreen),
        (0x0, 0x0, 0xE, 0xE) => Some(Instruction::Return),
        (0x1, _, _, _) => Some(Instruction::Jump { addr }),
        (0x2, _, _, _) => Some(Instruction::Call { addr }),
        (0x3, _, _, _) => Some(Instruction::SkipIfEqualByte { x, byte }),
        (0x4, _, _, _) => Some(Instruction::SkipIfNotEqualByte { x, byte }),
        (0x5, _, _, 0x0) => Some(Instruction::SkipIfEqual { x, y }),
        (0x6, _, _, _) => Some(Instruction::LoadByte { x, byte }),
        (0x7, _, _, _) => Some(Instruction::AddByte { x, byte }),
        (0x8, _, _, 0x0) => Some(Instruction::Move { x, y }),
        (0x8, _, _, 0x1) => Some(Instruction::Or { x, y }),
        (0x8, _, _, 0x2) => Some(Instruction::And { x, y }),
        (0x8, _, _, 0x3) => Some(Instruction::Xor { x, y }),
        (0x8, _, _, 0x4) => Some(Instruction::Add { x, y }),
        (0x8, _, _, 0x5) => Some(Instruction::Sub { x, y }),
        (0x8, _, _, 0x6) => Some(Instruction::ShiftRight { x }),
        (0x8, _, _, 0x7) => Some(Instruction::SubFrom { x, y }),
        (0x8, _, _, 0xE) => Some(Instruction::ShiftLeft { x }),
        (0x9, _, _, 0x0) => Some(Instruction::SkipIfNotEqual { x, y }),
        (0xA, _, _, _) => Some(Instruction::LoadIndex { addr }),
        (0xB, _, _, _) => Some(Instruction::JumpOffset { addr }),
        (0xC, _, _, _) => Some(Instruction::Random { x, byte }),
        (0xD, _, _, _) => Some(Instruction::Draw { x, y, rows: d4 as u8 }),
        (0xE, _, 0x9, 0xE) => Some(Instruction::SkipIfKeyDown { x }),
        (0xE, _, 0xA, 0x1) => Some(Instruction::SkipIfKeyUp { x }),
        (0xF, _, 0x0, 0x7) => Some(Instruction::ReadDelay { x }),
        (0xF, _, 0x0, 0xA) => Some(Instruction::WaitKey { x }),
        (0xF, _, 0x1, 0x5) => Some(Instruction::SetDelay { x }),
        (0xF, _, 0x1, 0x8) => Some(Instruction::SetSound { x }),
        (0xF, _, 0x1, 0xE) => Some(Instruction::AddIndex { x }),
        (0xF, _, 0x2, 0x9) => Some(Instruction::FontGlyph { x }),
        (0xF, _, 0x3, 0x3) => Some(Instruction::StoreDecimal { x }),
        (0xF, _, 0x5, 0x5) => Some(Instruction::StoreRegisters { x }),
        (0xF, _, 0x6, 0x5) => Some(Instruction::LoadRegisters { x }),
        (_, _, _, _) => None,
    }
}

} // verus!
