//! The abstract machine: its state as mathematical values and the effect of
//! each instruction and of each tick on it.
use vstd::prelude::*;

use crate::error::Chip8Error;
use crate::instruction::{ArithOp, Instruction, decode_spec};

verus! {

/// Bytes of addressable memory.
pub const MEMORY_SIZE: usize = 4096;

/// Address of the first font glyph byte.
pub const FONT_START_ADDRESS: usize = 0x50;

/// One past the address of the last font glyph byte.
pub const FONT_END_ADDRESS: usize = 0xA0;

/// Bytes per font glyph.
pub const GLYPH_SIZE: usize = 5;

/// Address at which programs are loaded and execution starts.
pub const PROGRAM_START_ADDRESS: usize = 0x200;

/// The general registers, V0 to VF.
pub const REGISTER_COUNT: usize = 16;

/// Index of VF, the flag register.
pub const FLAG_REGISTER: usize = 15;

/// Keys on the hexadecimal keypad.
pub const KEY_COUNT: usize = 16;

/// The sixteen hexadecimal digit glyphs, five rows of four pixels each.
pub open spec fn font_glyphs() -> Seq<u8> {
    seq![
        0xF0u8, 0x90, 0x90, 0x90, 0xF0, 0x20, 0x60, 0x20, 0x20, 0x70,
        0xF0, 0x10, 0xF0, 0x80, 0xF0, 0xF0, 0x10, 0xF0, 0x10, 0xF0,
        0x90, 0x90, 0xF0, 0x10, 0x10, 0xF0, 0x80, 0xF0, 0x10, 0xF0,
        0xF0, 0x80, 0xF0, 0x90, 0xF0, 0xF0, 0x10, 0x20, 0x40, 0x40,
        0xF0, 0x90, 0xF0, 0x90, 0xF0, 0xF0, 0x90, 0xF0, 0x10, 0xF0,
        0xF0, 0x90, 0xF0, 0x90, 0x90, 0xE0, 0x90, 0xE0, 0x90, 0xE0,
        0xF0, 0x80, 0x80, 0x80, 0xF0, 0xE0, 0x90, 0x90, 0x90, 0xE0,
        0xF0, 0x80, 0xF0, 0x80, 0xF0, 0xF0, 0x80, 0xF0, 0x80, 0x80,
    ]
}

/// What an instruction asks of the display.
pub enum DisplayOp {
    Clear,
    /// XOR the rows onto the display with the top-left corner at `(x, y)`.
    Sprite(usize, usize, Seq<u8>),
    Nothing,
}

/// The state of the machine.
#[verifier::ext_equal]
pub struct CpuView {
    pub memory: Seq<u8>,
    pub pc: u16,
    pub i_reg: u16,
    pub regs: Seq<u8>,
    pub delay_timer: u8,
    pub sound_timer: u8,
    /// Return addresses, oldest first.
    pub stack: Seq<u16>,
    pub keypad: Seq<bool>,
    /// The register that the next pressed key is latched into, if any.
    pub waiting_for_key: Option<usize>,
}

impl CpuView {
    /// Memory, registers and keypad have their sizes, the stack is within its
    /// capacity, the font glyphs are in place, and a waiting register exists.
    pub open spec fn wf(self) -> bool {
        &&& self.memory.len() == MEMORY_SIZE
        &&& self.regs.len() == REGISTER_COUNT
        &&& self.stack.len() <= 16
        &&& self.keypad.len() == KEY_COUNT
        &&& self.memory.subrange(FONT_START_ADDRESS as int, FONT_END_ADDRESS as int)
            == font_glyphs()
        &&& self.waiting_for_key matches Some(r) ==> r < REGISTER_COUNT
    }
}

/// The state of a new machine that sees the keypad `keypad`: memory zeroed
/// but for the font glyphs, registers and timers zeroed, an empty stack, and
/// the program counter at the program start address.
pub open spec fn initial_state(keypad: Seq<bool>) -> CpuView {
    CpuView {
        memory: write_block(
            Seq::new(MEMORY_SIZE as nat, |a: int| 0u8),
            FONT_START_ADDRESS as int,
            font_glyphs(),
        ),
        pc: PROGRAM_START_ADDRESS as u16,
        i_reg: 0,
        regs: Seq::new(REGISTER_COUNT as nat, |r: int| 0u8),
        delay_timer: 0,
        sound_timer: 0,
        stack: Seq::empty(),
        keypad,
        waiting_for_key: None,
    }
}

/// `memory` with `bytes` written from address `start` on.
pub open spec fn write_block(memory: Seq<u8>, start: int, bytes: Seq<u8>) -> Seq<u8> {
    Seq::new(
        memory.len(),
        |a: int|
            if start <= a < start + bytes.len() {
                bytes[a - start]
            } else {
                memory[a]
            },
    )
}

/// Whether `len > 0` bytes from address `start` on overlap the font glyphs.
pub open spec fn touches_font(start: int, len: int) -> bool {
    start < FONT_END_ADDRESS && start + len > FONT_START_ADDRESS
}

/// The lowest-numbered pressed key at or after `from`.
pub open spec fn lowest_pressed_from(keys: Seq<bool>, from: int) -> Option<int>
    decreases keys.len() - from,
{
    if from < 0 || from >= keys.len() {
        None
    } else if keys[from] {
        Some(from)
    } else {
        lowest_pressed_from(keys, from + 1)
    }
}

/// The lowest-numbered pressed key, if any key is pressed.
pub open spec fn lowest_pressed(keys: Seq<bool>) -> Option<int> {
    lowest_pressed_from(keys, 0)
}

/// Whether key `k` exists and is pressed.
pub open spec fn key_pressed(keys: Seq<bool>, k: u8) -> bool {
    k < keys.len() && keys[k as int]
}

/// The three decimal digits of `v`, most significant first.
pub open spec fn bcd_digits(v: u8) -> Seq<u8> {
    seq![(v / 100) as u8, ((v / 10) % 10) as u8, (v % 10) as u8]
}

/// Font glyph address of the low nibble of `v`.
pub open spec fn glyph_address(v: u8) -> u16 {
    (FONT_START_ADDRESS + GLYPH_SIZE * (v % 16)) as u16
}

/// The registers after an `8xyN` operation.
pub open spec fn arith_spec(regs: Seq<u8>, op: ArithOp, x: int, y: int) -> Seq<u8> {
    let vx = regs[x];
    let vy = regs[y];
    let f = FLAG_REGISTER as int;
    match op {
        ArithOp::Load => regs.update(x, vy),
        ArithOp::Or => regs.update(x, vx | vy),
        ArithOp::And => regs.update(x, vx & vy),
        ArithOp::Xor => regs.update(x, vx ^ vy),
        ArithOp::Add => regs.update(x, ((vx + vy) % 256) as u8).update(
            f,
            if vx + vy > 255 {
                1u8
            } else {
                0u8
            },
        ),
        ArithOp::Sub => regs.update(x, ((vx - vy + 256) % 256) as u8).update(
            f,
            if vx >= vy {
                1u8
            } else {
                0u8
            },
        ),
        ArithOp::ShiftRight => regs.update(x, (vx / 2) as u8).update(f, (vx % 2) as u8),
        ArithOp::SubReverse => regs.update(x, ((vy - vx + 256) % 256) as u8).update(
            f,
            if vy >= vx {
                1u8
            } else {
                0u8
            },
        ),
        ArithOp::ShiftLeft => regs.update(x, ((vx * 2) % 256) as u8).update(f, (vx / 128) as u8),
    }
}

/// `s` with the program counter moved past one more instruction when `cond` holds.
pub open spec fn skip_if(s: CpuView, cond: bool) -> CpuView {
    if cond {
        CpuView { pc: (s.pc + 2) as u16, ..s }
    } else {
        s
    }
}

/// `s` with register `x` set to `v`.
pub open spec fn set_reg(s: CpuView, x: int, v: u8) -> CpuView {
    CpuView { regs: s.regs.update(x, v), ..s }
}

/// Writes `bytes` at the index register, unless they run past the end of
/// memory or over the font glyphs.
pub open spec fn store_spec(s: CpuView, bytes: Seq<u8>) -> Result<(CpuView, DisplayOp), Chip8Error> {
    if s.i_reg + bytes.len() > MEMORY_SIZE {
        Err(Chip8Error::MemoryOutOfRange)
    } else if touches_font(s.i_reg as int, bytes.len() as int) {
        Err(Chip8Error::FontOverwrite)
    } else {
        Ok((CpuView { memory: write_block(s.memory, s.i_reg as int, bytes), ..s }, DisplayOp::Nothing))
    }
}

/// The effect of `ins` on `s`, whose program counter already points past
/// `ins`; `rnd` is the byte that a random instruction draws. An error leaves
/// the state as it was.
pub open spec fn execute_spec(s: CpuView, ins: Instruction, rnd: u8) -> Result<
    (CpuView, DisplayOp),
    Chip8Error,
> {
    let none = DisplayOp::Nothing;
    match ins {
        Instruction::Clear => Ok((s, DisplayOp::Clear)),
        Instruction::Return => if s.stack.len() == 0 {
            Err(Chip8Error::StackUnderflow)
        } else {
            Ok((CpuView { pc: s.stack.last(), stack: s.stack.drop_last(), ..s }, none))
        },
        Instruction::Jump(a) => Ok((CpuView { pc: a, ..s }, none)),
        Instruction::Call(a) => if s.stack.len() >= 16 {
            Err(Chip8Error::StackOverflow)
        } else {
            Ok((CpuView { pc: a, stack: s.stack.push(s.pc), ..s }, none))
        },
        Instruction::SkipEqByte(x, kk) => Ok((skip_if(s, s.regs[x as int] == kk), none)),
        Instruction::SkipNeByte(x, kk) => Ok((skip_if(s, s.regs[x as int] != kk), none)),
        Instruction::SkipEqReg(x, y) => Ok(
            (skip_if(s, s.regs[x as int] == s.regs[y as int]), none),
        ),
        Instruction::SkipNeReg(x, y) => Ok(
            (skip_if(s, s.regs[x as int] != s.regs[y as int]), none),
        ),
        Instruction::LoadByte(x, kk) => Ok((set_reg(s, x as int, kk), none)),
        Instruction::AddByte(x, kk) => Ok(
            (set_reg(s, x as int, ((s.regs[x as int] + kk) % 256) as u8), none),
        ),
        Instruction::Arith(op, x, y) => Ok(
            (CpuView { regs: arith_spec(s.regs, op, x as int, y as int), ..s }, none),
        ),
        Instruction::LoadIndex(a) => Ok((CpuView { i_reg: a, ..s }, none)),
        Instruction::JumpV0(a) => Ok((CpuView { pc: (s.regs[0] + a) as u16, ..s }, none)),
        Instruction::Random(x, kk) => Ok((set_reg(s, x as int, rnd & kk), none)),
        Instruction::Draw(x, y, n) => if s.i_reg + n > MEMORY_SIZE {
            Err(Chip8Error::MemoryOutOfRange)
        } else {
            Ok(
                (
                    s,
                    DisplayOp::Sprite(
                        s.regs[x as int] as usize,
                        s.regs[y as int] as usize,
                        s.memory.subrange(s.i_reg as int, s.i_reg + n),
                    ),
                ),
            )
        },
        Instruction::SkipKeyPressed(x) => Ok(
            (skip_if(s, key_pressed(s.keypad, s.regs[x as int])), none),
        ),
        Instruction::SkipKeyNotPressed(x) => Ok(
            (skip_if(s, !key_pressed(s.keypad, s.regs[x as int])), none),
        ),
        Instruction::LoadDelay(x) => Ok((set_reg(s, x as int, s.delay_timer), none)),
        Instruction::WaitKey(x) => match lowest_pressed(s.keypad) {
            Some(k) => Ok((set_reg(s, x as int, k as u8), none)),
            None => Ok((CpuView { waiting_for_key: Some(x as usize), ..s }, none)),
        },
        Instruction::SetDelay(x) => Ok((CpuView { delay_timer: s.regs[x as int], ..s }, none)),
        Instruction::SetSound(x) => Ok((CpuView { sound_timer: s.regs[x as int], ..s }, none)),
        Instruction::AddIndex(x) => Ok(
            (CpuView { i_reg: ((s.i_reg + s.regs[x as int]) % 65536) as u16, ..s }, none),
        ),
        Instruction::LoadFont(x) => Ok(
            (CpuView { i_reg: glyph_address(s.regs[x as int]), ..s }, none),
        ),
        Instruction::StoreBcd(x) => store_spec(s, bcd_digits(s.regs[x as int])),
        Instruction::StoreRegs(x) => store_spec(s, s.regs.subrange(0, x + 1)),
        Instruction::LoadRegs(x) => if s.i_reg + x + 1 > MEMORY_SIZE {
            Err(Chip8Error::MemoryOutOfRange)
        } else {
            Ok(
                (
                    CpuView {
                        regs: Seq::new(
                            s.regs.len(),
                            |r: int|
                                if r <= x {
                                    s.memory[s.i_reg + r]
                                } else {
                                    s.regs[r]
                                },
                        ),
                        ..s
                    },
                    none,
                ),
            )
        },
    }
}

/// The key latch at the start of a tick: a pending key wait is satisfied by
/// the lowest-numbered pressed key, if one is pressed.
pub open spec fn latch(s: CpuView) -> CpuView {
    match s.waiting_for_key {
        Some(r) => match lowest_pressed(s.keypad) {
            Some(k) => CpuView { regs: s.regs.update(r as int, k as u8), waiting_for_key: None, ..s },
            None => s,
        },
        None => s,
    }
}

/// The big-endian instruction word at `pc`.
pub open spec fn fetch_spec(memory: Seq<u8>, pc: int) -> u16 {
    (memory[pc] * 256 + memory[pc + 1]) as u16
}

/// One fetch-decode-execute step. On an error the state is left as it was,
/// the program counter still at the faulting instruction.
pub open spec fn run(s: CpuView, rnd: u8) -> (CpuView, Result<DisplayOp, Chip8Error>) {
    if s.pc + 2 > MEMORY_SIZE {
        (s, Err(Chip8Error::MemoryOutOfRange))
    } else {
        let w = fetch_spec(s.memory, s.pc as int);
        match decode_spec(w) {
            None => (s, Err(Chip8Error::InvalidInstruction(w))),
            Some(ins) => match execute_spec(CpuView { pc: (s.pc + 2) as u16, ..s }, ins, rnd) {
                Ok((n, d)) => (n, Ok(d)),
                Err(e) => (s, Err(e)),
            },
        }
    }
}

/// One tick: the key latch, then one fetch-decode-execute step.
pub open spec fn tick(s: CpuView, rnd: u8) -> (CpuView, Result<DisplayOp, Chip8Error>) {
    run(latch(s), rnd)
}

} // verus!
