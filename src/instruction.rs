//! Decoding of 16-bit instruction words into tagged instructions.
use vstd::prelude::*;

verus! {

/// The register-to-register operations of the `8xyN` family.
#[derive(Debug, Clone, Copy, PartialEq, Eq, Structural)]
pub enum ArithOp {
    /// `8xy0`: Vx := Vy.
    Load,
    /// `8xy1`: Vx := Vx | Vy.
    Or,
    /// `8xy2`: Vx := Vx & Vy.
    And,
    /// `8xy3`: Vx := Vx ^ Vy.
    Xor,
    /// `8xy4`: Vx := Vx + Vy, VF := carry.
    Add,
    /// `8xy5`: Vx := Vx - Vy, VF := no borrow.
    Sub,
    /// `8xy6`: Vx := Vx >> 1, VF := shifted-out bit.
    ShiftRight,
    /// `8xy7`: Vx := Vy - Vx, VF := no borrow.
    SubReverse,
    /// `8xyE`: Vx := Vx << 1, VF := shifted-out bit.
    ShiftLeft,
}

/// One machine instruction with its operands. Register operands are in
/// `0..16`, addresses in `0..0x1000`, `n` in `0..16`.
#[derive(Debug, Clone, Copy, PartialEq, Eq, Structural)]
pub enum Instruction {
    /// `00E0`
    Clear,
    /// `00EE`
    Return,
    /// `1nnn`
    Jump(u16),
    /// `2nnn`
    Call(u16),
    /// `3xkk`
    SkipEqByte(u8, u8),
    /// `4xkk`
    SkipNeByte(u8, u8),
    /// `5xy0`
    SkipEqReg(u8, u8),
    /// `6xkk`
    LoadByte(u8, u8),
    /// `7xkk`
    AddByte(u8, u8),
    /// `8xyN`
    Arith(ArithOp, u8, u8),
    /// `9xy0`
    SkipNeReg(u8, u8),
    /// `Annn`
    LoadIndex(u16),
    /// `Bnnn`
    JumpV0(u16),
    /// `Cxkk`
    Random(u8, u8),
    /// `Dxyn`
    Draw(u8, u8, u8),
    /// `Ex9E`
    SkipKeyPressed(u8),
    /// `ExA1`
    SkipKeyNotPressed(u8),
    /// `Fx07`
    LoadDelay(u8),
    /// `Fx0A`
    WaitKey(u8),
    /// `Fx15`
    SetDelay(u8),
    /// `Fx18`
    SetSound(u8),
    /// `Fx1E`
    AddIndex(u8),
    /// `Fx29`
    LoadFont(u8),
    /// `Fx33`
    StoreBcd(u8),
    /// `Fx55`
    StoreRegs(u8),
    /// `Fx65`
    LoadRegs(u8),
}

/// Bits 12-15 of an instruction word.
pub open spec fn op_of(w: u16) -> int {
    (w / 4096) as int
}

/// Bits 8-11: the first register operand.
pub open spec fn x_of(w: u16) -> u8 {
    ((w / 256) % 16) as u8
}

/// Bits 4-7: the second register operand.
pub open spec fn y_of(w: u16) -> u8 {
    ((w / 16) % 16) as u8
}

/// Bits 0-3.
pub open spec fn n_of(w: u16) -> u8 {
    (w % 16) as u8
}

/// Bits 0-7: an immediate byte.
pub open spec fn kk_of(w: u16) -> u8 {
    (w % 256) as u8
}

/// Bits 0-11: an address.
pub open spec fn nnn_of(w: u16) -> u16 {
    (w % 4096) as u16
}

/// The operation that the low nibble selects in the `8xyN` family.
pub open spec fn arith_op_spec(n: u8) -> Option<ArithOp> {
    if n == 0 {
        Some(ArithOp::Load)
    } else if n == 1 {
        Some(ArithOp::Or)
    } else if n == 2 {
        Some(ArithOp::And)
    } else if n == 3 {
        Some(ArithOp::Xor)
    } else if n == 4 {
        Some(ArithOp::Add)
    } else if n == 5 {
        Some(ArithOp::Sub)
    } else if n == 6 {
        Some(ArithOp::ShiftRight)
    } else if n == 7 {
        Some(ArithOp::SubReverse)
    } else if n == 0xE {
        Some(ArithOp::ShiftLeft)
    } else {
        None
    }
}

/// The instruction that the word `w` encodes, or `None` for a word that
/// encodes none.
pub open spec fn decode_spec(w: u16) -> Option<Instruction> {
    let x = x_of(w);
    let y = y_of(w);
    let n = n_of(w);
    let kk = kk_of(w);
    let nnn = nnn_of(w);
    let op = op_of(w);
    if op == 0x0 {
        if w == 0x00E0 {
            Some(Instruction::Clear)
        } else if w == 0x00EE {
            Some(Instruction::Return)
        } else {
            None
        }
    } else if op == 0x1 {
        Some(Instruction::Jump(nnn))
    } else if op == 0x2 {
        Some(Instruction::Call(nnn))
    } else if op == 0x3 {
        Some(Instruction::SkipEqByte(x, kk))
    } else if op == 0x4 {
        Some(Instruction::SkipNeByte(x, kk))
    } else if op == 0x5 {
        if n == 0 {
            Some(Instruction::SkipEqReg(x, y))
        } else {
            None
        }
    } else if op == 0x6 {
        Some(Instruction::LoadByte(x, kk))
    } else if op == 0x7 {
        Some(Instruction::AddByte(x, kk))
    } else if op == 0x8 {
        match arith_op_spec(n) {
            Some(a) => Some(Instruction::Arith(a, x, y)),
            None => None,
        }
    } else if op == 0x9 {
        if n == 0 {
            Some(Instruction::SkipNeReg(x, y))
        } else {
            None
        }
    } else if op == 0xA {
        Some(Instruction::LoadIndex(nnn))
    } else if op == 0xB {
        Some(Instruction::JumpV0(nnn))
    } else if op == 0xC {
        Some(Instruction::Random(x, kk))
    } else if op == 0xD {
        Some(Instruction::Draw(x, y, n))
    } else if op == 0xE {
        if kk == 0x9E {
            Some(Instruction::SkipKeyPressed(x))
        } else if kk == 0xA1 {
            Some(Instruction::SkipKeyNotPressed(x))
        } else {
            None
        }
    } else {
        if kk == 0x07 {
            Some(Instruction::LoadDelay(x))
        } else if kk == 0x0A {
            Some(Instruction::WaitKey(x))
        } else if kk == 0x15 {
            Some(Instruction::SetDelay(x))
        } else if kk == 0x18 {
            Some(Instruction::SetSound(x))
        } else if kk == 0x1E {
            Some(Instruction::AddIndex(x))
        } else if kk == 0x29 {
            Some(Instruction::LoadFont(x))
        } else if kk == 0x33 {
            Some(Instruction::StoreBcd(x))
        } else if kk == 0x55 {
            Some(Instruction::StoreRegs(x))
        } else if kk == 0x65 {
            Some(Instruction::LoadRegs(x))
        } else {
            None
        }
    }
}

/// Whether every operand of `ins` is in its field's range.
pub open spec fn operands_in_range(ins: Instruction) -> bool {
    match ins {
        Instruction::Jump(a) | Instruction::Call(a) | Instruction::LoadIndex(a)
        | Instruction::JumpV0(a) => a < 0x1000,
        Instruction::SkipEqByte(x, _) | Instruction::SkipNeByte(x, _)
        | Instruction::LoadByte(x, _) | Instruction::AddByte(x, _)
        | Instruction::Random(x, _) => x < 16,
        Instruction::SkipEqReg(x, y) | Instruction::SkipNeReg(x, y) | Instruction::Arith(
            _,
            x,
            y,
        ) => x < 16 && y < 16,
        Instruction::Draw(x, y, n) => x < 16 && y < 16 && n < 16,
        Instruction::SkipKeyPressed(x) | Instruction::SkipKeyNotPressed(x)
        | Instruction::LoadDelay(x) | Instruction::WaitKey(x) | Instruction::SetDelay(x)
        | Instruction::SetSound(x) | Instruction::AddIndex(x) | Instruction::LoadFont(x)
        | Instruction::StoreBcd(x) | Instruction::StoreRegs(x) | Instruction::LoadRegs(x) => x
            < 16,
        Instruction::Clear | Instruction::Return => true,
    }
}

/// Jumps, calls, returns and skips.
pub open spec fn is_control_flow(ins: Instruction) -> bool {
    match ins {
        Instruction::Return | Instruction::Jump(..) | Instruction::Call(..)
        | Instruction::JumpV0(..) | Instruction::SkipEqByte(..) | Instruction::SkipNeByte(..)
        | Instruction::SkipEqReg(..) | Instruction::SkipNeReg(..)
        | Instruction::SkipKeyPressed(..) | Instruction::SkipKeyNotPressed(..) => true,
        _ => false,
    }
}

/// Instructions that set a register or a timer and nothing else.
pub open spec fn is_register_op(ins: Instruction) -> bool {
    match ins {
        Instruction::LoadByte(..) | Instruction::AddByte(..) | Instruction::Arith(..)
        | Instruction::Random(..) | Instruction::LoadDelay(..) | Instruction::WaitKey(..)
        | Instruction::SetDelay(..) | Instruction::SetSound(..) => true,
        _ => false,
    }
}

/// The bit-field extractions of the decoder, as arithmetic.
proof fn lemma_fields(w: u16)
    by (bit_vector)
    ensures
        w >> 12u16 == w / 4096,
        (w >> 8u16) & 0xFu16 == (w / 256) % 16,
        (w >> 4u16) & 0xFu16 == (w / 16) % 16,
        w & 0xFu16 == w % 16,
        w & 0xFFu16 == w % 256,
        w & 0xFFFu16 == w % 4096,
{
}

/// Every instruction that a word decodes to has its operands in range.
pub proof fn lemma_decode_in_range(w: u16)
    ensures
        decode_spec(w) is Some ==> operands_in_range(decode_spec(w)->0),
{
}

/// Decodes the instruction word `instr`; `None` when it encodes no instruction.
pub fn decode(instr: u16) -> (r: Option<Instruction>)
    ensures
        r == decode_spec(instr),
{
    proof {
        lemma_fields(instr);
    }
    let x = ((instr >> 8) & 0xF) as u8;
    let y = ((instr >> 4) & 0xF) as u8;
    let n = (instr & 0xF) as u8;
    let kk = (instr & 0xFF) as u8;
    let nnn = instr & 0xFFF;
    match instr >> 12 {
        0x0 => match instr {
            0x00E0 => Some(Instruction::Clear),
            0x00EE => Some(Instruction::Return),
            _ => None,
        },
        0x1 => Some(Instruction::Jump(nnn)),
        0x2 => Some(Instruction::Call(nnn)),
        0x3 => Some(Instruction::SkipEqByte(x, kk)),
        0x4 => Some(Instruction::SkipNeByte(x, kk)),
        0x5 => if n == 0 {
            Some(Instruction::SkipEqReg(x, y))
        } else {
            None
        },
        0x6 => Some(Instruction::LoadByte(x, kk)),
        0x7 => Some(Instruction::AddByte(x, kk)),
        0x8 => {
            let op = match n {
                0x0 => ArithOp::Load,
                0x1 => ArithOp::Or,
                0x2 => ArithOp::And,
                0x3 => ArithOp::Xor,
                0x4 => ArithOp::Add,
                0x5 => ArithOp::Sub,
                0x6 => ArithOp::ShiftRight,
                0x7 => ArithOp::SubReverse,
                0xE => ArithOp::ShiftLeft,
                _ => {
                    return None;
                },
            };
            Some(Instruction::Arith(op, x, y))
        },
        0x9 => if n == 0 {
            Some(Instruction::SkipNeReg(x, y))
        } else {
            None
        },
        0xA => Some(Instruction::LoadIndex(nnn)),
        0xB => Some(Instruction::JumpV0(nnn)),
        0xC => Some(Instruction::Random(x, kk)),
        0xD => Some(Instruction::Draw(x, y, n)),
        0xE => match kk {
            0x9E => Some(Instruction::SkipKeyPressed(x)),
            0xA1 => Some(Instruction::SkipKeyNotPressed(x)),
            _ => None,
        },
        _ => match kk {
            0x07 => Some(Instruction::LoadDelay(x)),
            0x0A => Some(Instruction::WaitKey(x)),
            0x15 => Some(Instruction::SetDelay(x)),
            0x18 => Some(Instruction::SetSound(x)),
            0x1E => Some(Instruction::AddIndex(x)),
            0x29 => Some(Instruction::LoadFont(x)),
            0x33 => Some(Instruction::StoreBcd(x)),
            0x55 => Some(Instruction::StoreRegs(x)),
            0x65 => Some(Instruction::LoadRegs(x)),
            _ => None,
        },
    }
}

} // verus!
