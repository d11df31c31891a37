//! The executable machine: memory, registers, timers, call stack and the
//! fetch-decode-execute step.
use std::sync::Arc;

use vstd::prelude::*;

use crate::error::Chip8Error;
use crate::instruction::{
    ArithOp, Instruction, decode, decode_spec, is_control_flow, is_register_op,
    lemma_decode_in_range, operands_in_range,
};
use crate::semantics::{
    CpuView, DisplayOp, FLAG_REGISTER, FONT_END_ADDRESS, FONT_START_ADDRESS, GLYPH_SIZE,
    KEY_COUNT, MEMORY_SIZE, PROGRAM_START_ADDRESS, REGISTER_COUNT, arith_spec, bcd_digits,
    execute_spec, font_glyphs, initial_state, key_pressed, latch, lowest_pressed,
    lowest_pressed_from, store_spec, tick, touches_font, write_block,
};
use crate::stack::Stack;

verus! {

/// What an executed instruction asks of the display.
#[derive(PartialEq, Debug)]
pub enum GpuInstruction {
    Clear,
    /// XOR the rows onto the display with the top-left corner at `(x, y)`.
    XorSprite(usize, usize, Vec<u8>),
    Nothing,
}

impl View for GpuInstruction {
    type V = DisplayOp;

    open spec fn view(&self) -> DisplayOp {
        match self {
            GpuInstruction::Clear => DisplayOp::Clear,
            GpuInstruction::XorSprite(x, y, rows) => DisplayOp::Sprite(*x, *y, rows@),
            GpuInstruction::Nothing => DisplayOp::Nothing,
        }
    }
}

/// The outcome of a step as values.
pub open spec fn result_view(r: Result<GpuInstruction, Chip8Error>) -> Result<DisplayOp, Chip8Error> {
    match r {
        Ok(g) => Ok(g@),
        Err(e) => Err(e),
    }
}

/// `new` and `r` are the state and result that `expected` describes; on an
/// error the state is `old`.
pub open spec fn step_outcome(
    old: CpuView,
    new: CpuView,
    r: Result<GpuInstruction, Chip8Error>,
    expected: Result<(CpuView, DisplayOp), Chip8Error>,
) -> bool {
    match expected {
        Ok((n, d)) => new == n && result_view(r) == Ok::<DisplayOp, Chip8Error>(d),
        Err(e) => new == old && r == Err::<GpuInstruction, Chip8Error>(e),
    }
}

/// The machine.
#[derive(Debug)]
pub struct Cpu {
    memory: [u8; 4096],
    pc: u16,
    i_reg: u16,
    reg: [u8; 16],
    delay_timer: u8,
    sound_timer: u8,
    stack: Stack,
    keypad_view: Arc<[bool; 16]>,
    waiting_for_key: Option<usize>,
}

impl View for Cpu {
    type V = CpuView;

    closed spec fn view(&self) -> CpuView {
        CpuView {
            memory: self.memory@,
            pc: self.pc,
            i_reg: self.i_reg,
            regs: self.reg@,
            delay_timer: self.delay_timer,
            sound_timer: self.sound_timer,
            stack: self.stack@,
            keypad: self.keypad_view@,
            waiting_for_key: self.waiting_for_key,
        }
    }
}

/// The bytes of the font glyphs, in order.
fn font_data() -> (font: [u8; 80])
    ensures
        font@ == font_glyphs(),
{
    let font: [u8; 80] = [
        0xF0, 0x90, 0x90, 0x90, 0xF0,  // 0
        0x20, 0x60, 0x20, 0x20, 0x70,  // 1
        0xF0, 0x10, 0xF0, 0x80, 0xF0,  // 2
        0xF0, 0x10, 0xF0, 0x10, 0xF0,  // 3
        0x90, 0x90, 0xF0, 0x10, 0x10,  // 4
        0xF0, 0x80, 0xF0, 0x10, 0xF0,  // 5
        0xF0, 0x80, 0xF0, 0x90, 0xF0,  // 6
        0xF0, 0x10, 0x20, 0x40, 0x40,  // 7
        0xF0, 0x90, 0xF0, 0x90, 0xF0,  // 8
        0xF0, 0x90, 0xF0, 0x10, 0xF0,  // 9
        0xF0, 0x90, 0xF0, 0x90, 0x90,  // A
        0xE0, 0x90, 0xE0, 0x90, 0xE0,  // B
        0xF0, 0x80, 0x80, 0x80, 0xF0,  // C
        0xE0, 0x90, 0x90, 0x90, 0xE0,  // D
        0xF0, 0x80, 0xF0, 0x80, 0xF0,  // E
        0xF0, 0x80, 0xF0, 0x80, 0x80,  // F
    ];
    assert(font@ =~= font_glyphs());
    font
}

/// Relies on `rand::random::<u8>`: a byte drawn from the thread-local
/// generator. Nothing is known of its value.
#[verifier::external_body]
pub(crate) fn random_byte() -> (r: u8) {
    rand::random::<u8>()
}

impl Cpu {
    /// The stack is in bounds and the state is well formed; every public
    /// method keeps this.
    pub closed spec fn wf(&self) -> bool {
        self.stack.wf() && self@.wf()
    }

    /// Writes the font glyphs to their place in `mem`.
    fn write_font(mem: &mut [u8; 4096])
        ensures
            final(mem)@ == write_block(old(mem)@, FONT_START_ADDRESS as int, font_glyphs()),
    {
        let font = font_data();
        let mut k: usize = 0;
        while k < 80
            invariant
                k <= 80,
                font@ == font_glyphs(),
                mem@ == write_block(
                    old(mem)@,
                    FONT_START_ADDRESS as int,
                    font_glyphs().subrange(0, k as int),
                ),
            decreases 80 - k,
        {
            mem[FONT_START_ADDRESS + k] = font[k];
            k = k + 1;
            assert(mem@ =~= write_block(
                old(mem)@,
                FONT_START_ADDRESS as int,
                font_glyphs().subrange(0, k as int),
            ));
        }
        assert(font_glyphs().subrange(0, 80) =~= font_glyphs());
    }

    /// A new machine that sees the keypad state `keypad_view`.
    pub fn new(keypad_view: Arc<[bool; 16]>) -> (cpu: Self)
        ensures
            cpu.wf(),
            cpu@ == initial_state(keypad_view@),
    {
        let mut memory: [u8; 4096] = [0u8; 4096];
        assert(memory@ =~= Seq::new(MEMORY_SIZE as nat, |a: int| 0u8));
        Self::write_font(&mut memory);
        let reg: [u8; 16] = [0u8; 16];
        assert(reg@ =~= Seq::new(REGISTER_COUNT as nat, |r: int| 0u8));
        let cpu = Self {
            memory,
            pc: PROGRAM_START_ADDRESS as u16,
            i_reg: 0,
            reg,
            delay_timer: 0,
            sound_timer: 0,
            stack: Stack::new(),
            keypad_view,
            waiting_for_key: None,
        };
        assert(cpu@.memory.subrange(FONT_START_ADDRESS as int, FONT_END_ADDRESS as int)
            =~= font_glyphs());
        cpu
    }

    /// Places the program `rom` in memory from the program start address on.
    /// Fails with `ProgramTooLarge`, changing nothing, when it does not fit.
    pub fn put_rom(&mut self, rom: &[u8]) -> (r: Result<(), Chip8Error>)
        requires
            old(self).wf(),
        ensures
            final(self).wf(),
            rom@.len() > MEMORY_SIZE - PROGRAM_START_ADDRESS ==> r == Err::<(), Chip8Error>(
                Chip8Error::ProgramTooLarge,
            ) && final(self)@ == old(self)@,
            rom@.len() <= MEMORY_SIZE - PROGRAM_START_ADDRESS ==> r is Ok && final(self)@ == (
            CpuView {
                memory: write_block(old(self)@.memory, PROGRAM_START_ADDRESS as int, rom@),
                ..old(self)@
            }),
    {
        if rom.len() > MEMORY_SIZE - PROGRAM_START_ADDRESS {
            return Err(Chip8Error::ProgramTooLarge);
        }
        let ghost s0 = self@;
        let mut k: usize = 0;
        while k < rom.len()
            invariant
                k <= rom@.len() <= MEMORY_SIZE - PROGRAM_START_ADDRESS,
                s0.wf(),
                self.stack.wf(),
                self@ == (CpuView {
                    memory: write_block(
                        s0.memory,
                        PROGRAM_START_ADDRESS as int,
                        rom@.subrange(0, k as int),
                    ),
                    ..s0
                }),
            decreases rom@.len() - k,
        {
            self.memory[PROGRAM_START_ADDRESS + k] = rom[k];
            k = k + 1;
            assert(self.memory@ =~= write_block(
                s0.memory,
                PROGRAM_START_ADDRESS as int,
                rom@.subrange(0, k as int),
            ));
        }
        assert(rom@.subrange(0, rom@.len() as int) =~= rom@);
        assert(self@.memory.subrange(FONT_START_ADDRESS as int, FONT_END_ADDRESS as int)
            =~= s0.memory.subrange(FONT_START_ADDRESS as int, FONT_END_ADDRESS as int));
        Ok(())
    }
    /// The lowest-numbered key that is pressed, if any key is.
    fn check_if_key_is_pressed(&self) -> (r: Option<usize>)
        requires
            self.wf(),
        ensures
            match r {
                Some(k) => lowest_pressed(self@.keypad) == Some(k as int) && k < KEY_COUNT,
                None => lowest_pressed(self@.keypad) is None,
            },
    {
        let mut i: usize = 0;
        while i < KEY_COUNT
            invariant
                i <= KEY_COUNT,
                self.wf(),
                lowest_pressed(self@.keypad) == lowest_pressed_from(self@.keypad, i as int),
            decreases KEY_COUNT - i,
        {
            if self.keypad_view[i] {
                return Some(i);
            }
            i = i + 1;
        }
        None
    }

    /// Whether key `key` exists and is pressed.
    fn is_key_pressed(&self, key: u8) -> (r: bool)
        requires
            self.wf(),
        ensures
            r == key_pressed(self@.keypad, key),
    {
        (key as usize) < KEY_COUNT && self.keypad_view[key as usize]
    }

    /// Executes the register-to-register operation `op` on Vx and Vy.
    fn arith_operations_execution(&mut self, op: ArithOp, x: u8, y: u8)
        requires
            old(self).wf(),
            x < REGISTER_COUNT,
            y < REGISTER_COUNT,
        ensures
            final(self).wf(),
            final(self)@ == (CpuView {
                regs: arith_spec(old(self)@.regs, op, x as int, y as int),
                ..old(self)@
            }),
    {
        let vx_index = x as usize;
        let vx = self.reg[vx_index];
        let vy = self.reg[y as usize];
        match op {
            ArithOp::Load => {
                self.reg[vx_index] = vy;
            },
            ArithOp::Or => {
                self.reg[vx_index] = vx | vy;
            },
            ArithOp::And => {
                self.reg[vx_index] = vx & vy;
            },
            ArithOp::Xor => {
                self.reg[vx_index] = vx ^ vy;
            },
            ArithOp::Add => {
                let carry = vx as u16 + vy as u16 > 255;
                self.reg[vx_index] = vx.wrapping_add(vy);
                self.reg[FLAG_REGISTER] = if carry {
                    1
                } else {
                    0
                };
            },
            ArithOp::Sub => {
                self.reg[vx_index] = vx.wrapping_sub(vy);
                self.reg[FLAG_REGISTER] = if vx >= vy {
                    1
                } else {
                    0
                };
            },
            ArithOp::ShiftRight => {
                assert(vx >> 1u8 == vx / 2 && vx & 1u8 == vx % 2) by (bit_vector);
                self.reg[vx_index] = vx >> 1;
                self.reg[FLAG_REGISTER] = vx & 1;
            },
            ArithOp::SubReverse => {
                self.reg[vx_index] = vy.wrapping_sub(vx);
                self.reg[FLAG_REGISTER] = if vy >= vx {
                    1
                } else {
                    0
                };
            },
            ArithOp::ShiftLeft => {
                assert(vx << 1u8 == (vx * 2) % 256 && vx >> 7u8 == vx / 128) by (bit_vector);
                self.reg[vx_index] = vx << 1;
                self.reg[FLAG_REGISTER] = vx >> 7;
            },
        }
        assert(self@.regs =~= arith_spec(old(self)@.regs, op, x as int, y as int));
    }

    /// Checks that `len > 0` bytes may be stored at the index register.
    fn check_store(&self, len: usize) -> (r: Result<(), Chip8Error>)
        requires
            self.wf(),
            0 < len <= REGISTER_COUNT,
        ensures
            r is Ok <==> store_spec(self@, Seq::new(len as nat, |k: int| 0u8)) is Ok,
            r matches Err(e) ==> store_spec(self@, Seq::new(len as nat, |k: int| 0u8))
                == Err::<(CpuView, DisplayOp), Chip8Error>(e),
    {
        let start = self.i_reg as usize;
        if start + len > MEMORY_SIZE {
            Err(Chip8Error::MemoryOutOfRange)
        } else if start < FONT_END_ADDRESS && start + len > FONT_START_ADDRESS {
            Err(Chip8Error::FontOverwrite)
        } else {
            Ok(())
        }
    }

    /// `Fx33`: the decimal digits of Vx at I, I+1 and I+2.
    fn store_bcd(&mut self, x: u8) -> (r: Result<(), Chip8Error>)
        requires
            old(self).wf(),
            x < REGISTER_COUNT,
        ensures
            final(self).wf(),
            match store_spec(old(self)@, bcd_digits(old(self)@.regs[x as int])) {
                Ok((n, _)) => r is Ok && final(self)@ == n,
                Err(e) => r == Err::<(), Chip8Error>(e) && final(self)@ == old(self)@,
            },
    {
        let v = self.reg[x as usize];
        let checked = self.check_store(3);
        if let Err(e) = checked {
            return Err(e);
        }
        let start = self.i_reg as usize;
        self.memory[start] = v / 100;
        self.memory[start + 1] = (v / 10) % 10;
        self.memory[start + 2] = v % 10;
        assert(self.memory@ =~= write_block(old(self)@.memory, start as int, bcd_digits(v)));
        assert(self@.memory.subrange(FONT_START_ADDRESS as int, FONT_END_ADDRESS as int)
            =~= old(self)@.memory.subrange(FONT_START_ADDRESS as int, FONT_END_ADDRESS as int));
        Ok(())
    }

    /// `Fx55`: V0 through Vx stored from I on.
    fn store_registers(&mut self, x: u8) -> (r: Result<(), Chip8Error>)
        requires
            old(self).wf(),
            x < REGISTER_COUNT,
        ensures
            final(self).wf(),
            match store_spec(old(self)@, old(self)@.regs.subrange(0, x + 1)) {
                Ok((n, _)) => r is Ok && final(self)@ == n,
                Err(e) => r == Err::<(), Chip8Error>(e) && final(self)@ == old(self)@,
            },
    {
        let count = x as usize + 1;
        let checked = self.check_store(count);
        if let Err(e) = checked {
            return Err(e);
        }
        let ghost s0 = self@;
        let ghost regs = s0.regs.subrange(0, count as int);
        let start = self.i_reg as usize;
        let mut k: usize = 0;
        while k < count
            invariant
                k <= count <= REGISTER_COUNT,
                start == s0.i_reg,
                start + count <= MEMORY_SIZE,
                !touches_font(start as int, count as int),
                s0.wf(),
                self.stack.wf(),
                regs == s0.regs.subrange(0, count as int),
                self@ == (CpuView {
                    memory: write_block(s0.memory, start as int, regs.subrange(0, k as int)),
                    ..s0
                }),
            decreases count - k,
        {
            self.memory[start + k] = self.reg[k];
            k = k + 1;
            assert(self.memory@ =~= write_block(
                s0.memory,
                start as int,
                regs.subrange(0, k as int),
            ));
        }
        assert(regs.subrange(0, count as int) =~= regs);
        assert(self@.memory.subrange(FONT_START_ADDRESS as int, FONT_END_ADDRESS as int)
            =~= s0.memory.subrange(FONT_START_ADDRESS as int, FONT_END_ADDRESS as int));
        Ok(())
    }

    /// `Fx65`: V0 through Vx loaded from I on.
    fn load_registers(&mut self, x: u8) -> (r: Result<(), Chip8Error>)
        requires
            old(self).wf(),
            x < REGISTER_COUNT,
        ensures
            final(self).wf(),
            match execute_spec(old(self)@, Instruction::LoadRegs(x), 0) {
                Ok((n, _)) => r is Ok && final(self)@ == n,
                Err(e) => r == Err::<(), Chip8Error>(e) && final(self)@ == old(self)@,
            },
    {
        let count = x as usize + 1;
        let start = self.i_reg as usize;
        if start + count > MEMORY_SIZE {
            return Err(Chip8Error::MemoryOutOfRange);
        }
        let ghost s0 = self@;
        let mut k: usize = 0;
        while k < count
            invariant
                k <= count <= REGISTER_COUNT,
                start == s0.i_reg,
                start + count <= MEMORY_SIZE,
                s0.wf(),
                self.stack.wf(),
                self@ == (CpuView {
                    regs: Seq::new(
                        REGISTER_COUNT as nat,
                        |r: int|
                            if r < k {
                                s0.memory[start + r]
                            } else {
                                s0.regs[r]
                            },
                    ),
                    ..s0
                }),
            decreases count - k,
        {
            self.reg[k] = self.memory[start + k];
            k = k + 1;
            assert(self.reg@ =~= Seq::new(
                REGISTER_COUNT as nat,
                |r: int|
                    if r < k {
                        s0.memory[start + r]
                    } else {
                        s0.regs[r]
                    },
            ));
        }
        assert(self.reg@ =~= Seq::new(
            REGISTER_COUNT as nat,
            |r: int|
                if r <= x {
                    s0.memory[start + r]
                } else {
                    s0.regs[r]
                },
        ));
        Ok(())
    }

    /// `Dxyn`: the n sprite rows from I on, to be drawn at (Vx, Vy).
    fn sprite_at_index(&self, x: u8, y: u8, n: u8) -> (r: Result<GpuInstruction, Chip8Error>)
        requires
            self.wf(),
            x < REGISTER_COUNT,
            y < REGISTER_COUNT,
            n < 16,
        ensures
            match execute_spec(self@, Instruction::Draw(x, y, n), 0) {
                Ok((_, d)) => result_view(r) == Ok::<DisplayOp, Chip8Error>(d),
                Err(e) => r == Err::<GpuInstruction, Chip8Error>(e),
            },
    {
        let start = self.i_reg as usize;
        let count = n as usize;
        if start + count > MEMORY_SIZE {
            return Err(Chip8Error::MemoryOutOfRange);
        }
        let mut sprite_vec: Vec<u8> = Vec::new();
        let mut k: usize = 0;
        while k < count
            invariant
                k <= count,
                start + count <= MEMORY_SIZE,
                self.wf(),
                sprite_vec@ == self@.memory.subrange(start as int, start + k),
            decreases count - k,
        {
            sprite_vec.push(self.memory[start + k]);
            k = k + 1;
            assert(sprite_vec@ =~= self@.memory.subrange(start as int, start + k));
        }
        Ok(GpuInstruction::XorSprite(self.reg[x as usize] as usize, self.reg[y as usize] as usize, sprite_vec))
    }

    /// Decodes and executes `instr`, with the program counter already past
    /// it; `random` is the byte that a random instruction draws. An error
    /// leaves the machine as it was.
    fn decode_and_execute(&mut self, instr: u16, random: u8) -> (r: Result<
        GpuInstruction,
        Chip8Error,
    >)
        requires
            old(self).wf(),
            old(self).pc <= MEMORY_SIZE,
        ensures
            final(self).wf(),
            match decode_spec(instr) {
                None => final(self)@ == old(self)@ && r == Err::<GpuInstruction, Chip8Error>(
                    Chip8Error::InvalidInstruction(instr),
                ),
                Some(ins) => step_outcome(
                    old(self)@,
                    final(self)@,
                    r,
                    execute_spec(old(self)@, ins, random),
                ),
            },
    {
        proof {
            lemma_decode_in_range(instr);
        }
        match decode(instr) {
            Some(ins) => self.execute(ins, random),
            None => Err(Chip8Error::InvalidInstruction(instr)),
        }
    }

    /// Executes `ins`, with the program counter already past it; `random` is
    /// the byte that a random instruction draws. An error leaves the machine
    /// as it was.
    fn execute(&mut self, ins: Instruction, random: u8) -> (r: Result<GpuInstruction, Chip8Error>)
        requires
            old(self).wf(),
            old(self).pc <= MEMORY_SIZE,
            operands_in_range(ins),
        ensures
            final(self).wf(),
            step_outcome(old(self)@, final(self)@, r, execute_spec(old(self)@, ins, random)),
    {
        match ins {
            Instruction::Return
            | Instruction::Jump(..)
            | Instruction::Call(..)
            | Instruction::JumpV0(..)
            | Instruction::SkipEqByte(..)
            | Instruction::SkipNeByte(..)
            | Instruction::SkipEqReg(..)
            | Instruction::SkipNeReg(..)
            | Instruction::SkipKeyPressed(..)
            | Instruction::SkipKeyNotPressed(..) => self.execute_flow(ins, random),
            Instruction::LoadByte(..)
            | Instruction::AddByte(..)
            | Instruction::Arith(..)
            | Instruction::Random(..)
            | Instruction::LoadDelay(..)
            | Instruction::WaitKey(..)
            | Instruction::SetDelay(..)
            | Instruction::SetSound(..) => self.execute_register(ins, random),
            _ => self.execute_memory(ins, random),
        }
    }

    /// Jumps, calls, returns and skips.
    #[verifier::rlimit(30)]
    fn execute_flow(&mut self, ins: Instruction, random: u8) -> (r: Result<GpuInstruction, Chip8Error>)
        requires
            old(self).wf(),
            old(self).pc <= MEMORY_SIZE,
            operands_in_range(ins),
            is_control_flow(ins),
        ensures
            final(self).wf(),
            step_outcome(old(self)@, final(self)@, r, execute_spec(old(self)@, ins, random)),
    {
        match ins {
            Instruction::Return => match self.stack.pop() {
                Ok(address) => {
                    self.pc = address;
                },
                Err(e) => {
                    return Err(e);
                },
            },
            Instruction::Jump(address) => {
                self.pc = address;
            },
            Instruction::Call(address) => match self.stack.push(self.pc) {
                Ok(()) => {
                    self.pc = address;
                },
                Err(e) => {
                    return Err(e);
                },
            },
            Instruction::JumpV0(address) => {
                self.pc = self.reg[0] as u16 + address;
            },
            Instruction::SkipEqByte(x, kk) => {
                if self.reg[x as usize] == kk {
                    self.pc = self.pc + 2;
                }
            },
            Instruction::SkipNeByte(x, kk) => {
                if self.reg[x as usize] != kk {
                    self.pc = self.pc + 2;
                }
            },
            Instruction::SkipEqReg(x, y) => {
                if self.reg[x as usize] == self.reg[y as usize] {
                    self.pc = self.pc + 2;
                }
            },
            Instruction::SkipNeReg(x, y) => {
                if self.reg[x as usize] != self.reg[y as usize] {
                    self.pc = self.pc + 2;
                }
            },
            Instruction::SkipKeyPressed(x) => {
                if self.is_key_pressed(self.reg[x as usize]) {
                    self.pc = self.pc + 2;
                }
            },
            Instruction::SkipKeyNotPressed(x) => {
                if !self.is_key_pressed(self.reg[x as usize]) {
                    self.pc = self.pc + 2;
                }
            },
            // The other instructions are ruled out by the precondition.
            _ => {},
        }
        Ok(GpuInstruction::Nothing)
    }

    /// Instructions that set a register or a timer.
    #[verifier::rlimit(30)]
    fn execute_register(&mut self, ins: Instruction, random: u8) -> (r: Result<GpuInstruction, Chip8Error>)
        requires
            old(self).wf(),
            old(self).pc <= MEMORY_SIZE,
            operands_in_range(ins),
            is_register_op(ins),
        ensures
            final(self).wf(),
            step_outcome(old(self)@, final(self)@, r, execute_spec(old(self)@, ins, random)),
    {
        match ins {
            Instruction::LoadByte(x, kk) => {
                self.reg[x as usize] = kk;
            },
            Instruction::AddByte(x, kk) => {
                self.reg[x as usize] = self.reg[x as usize].wrapping_add(kk);
            },
            Instruction::Arith(op, x, y) => {
                self.arith_operations_execution(op, x, y);
            },
            Instruction::Random(x, kk) => {
                self.reg[x as usize] = random & kk;
            },
            Instruction::LoadDelay(x) => {
                self.reg[x as usize] = self.delay_timer;
            },
            Instruction::WaitKey(x) => match self.check_if_key_is_pressed() {
                Some(key) => {
                    self.reg[x as usize] = key as u8;
                },
                None => {
                    self.waiting_for_key = Some(x as usize);
                },
            },
            Instruction::SetDelay(x) => {
                self.delay_timer = self.reg[x as usize];
            },
            Instruction::SetSound(x) => {
                self.sound_timer = self.reg[x as usize];
            },
            // The other instructions are ruled out by the precondition.
            _ => {},
        }
        Ok(GpuInstruction::Nothing)
    }

    /// Instructions on memory, the index register and the display.
    #[verifier::rlimit(30)]
    fn execute_memory(&mut self, ins: Instruction, random: u8) -> (r: Result<GpuInstruction, Chip8Error>)
        requires
            old(self).wf(),
            old(self).pc <= MEMORY_SIZE,
            operands_in_range(ins),
            !is_control_flow(ins) && !is_register_op(ins),
        ensures
            final(self).wf(),
            step_outcome(old(self)@, final(self)@, r, execute_spec(old(self)@, ins, random)),
    {
        match ins {
            Instruction::Clear => {
                return Ok(GpuInstruction::Clear);
            },
            Instruction::LoadIndex(address) => {
                self.i_reg = address;
            },
            Instruction::AddIndex(x) => {
                self.i_reg = self.i_reg.wrapping_add(self.reg[x as usize] as u16);
            },
            Instruction::LoadFont(x) => {
                let v = self.reg[x as usize];
                let digit = v & 0xF;
                assert(v & 0xFu8 == v % 16) by (bit_vector);
                self.i_reg = (FONT_START_ADDRESS + GLYPH_SIZE * digit as usize) as u16;
            },
            Instruction::StoreBcd(x) => {
                if let Err(e) = self.store_bcd(x) {
                    return Err(e);
                }
            },
            Instruction::StoreRegs(x) => {
                if let Err(e) = self.store_registers(x) {
                    return Err(e);
                }
            },
            Instruction::LoadRegs(x) => {
                if let Err(e) = self.load_registers(x) {
                    return Err(e);
                }
            },
            Instruction::Draw(x, y, n) => {
                return self.sprite_at_index(x, y, n);
            },
            // The other instructions are ruled out by the precondition.
            _ => {},
        }
        Ok(GpuInstruction::Nothing)
    }
    /// One tick: the pending key wait is satisfied first if a key is pressed,
    /// then the instruction at the program counter is fetched, decoded and
    /// executed; `random` is the byte that a random instruction uses.
    pub fn process_with(&mut self, random: u8) -> (r: Result<GpuInstruction, Chip8Error>)
        requires
            old(self).wf(),
        ensures
            final(self).wf(),
            (final(self)@, result_view(r)) == tick(old(self)@, random),
    {
        if let Some(target) = self.waiting_for_key {
            if let Some(key) = self.check_if_key_is_pressed() {
                self.reg[target] = key as u8;
                self.waiting_for_key = None;
            }
        }
        assert(self@ == latch(old(self)@));
        let pc = self.pc as usize;
        if pc + 2 > MEMORY_SIZE {
            return Err(Chip8Error::MemoryOutOfRange);
        }
        let left = self.memory[pc];
        let right = self.memory[pc + 1];
        let instr: u16 = ((left as u16) << 8) | (right as u16);
        assert(((left as u16) << 8u16) | (right as u16) == left * 256 + right) by (bit_vector);
        let ghost latched = self@;
        self.pc = self.pc + 2;
        let r = self.decode_and_execute(instr, random);
        if r.is_err() {
            self.pc = self.pc - 2;
            assert(self@ == latched);
        }
        r
    }

    /// One tick, with a freshly drawn random byte for a random instruction.
    pub fn process(&mut self) -> (r: Result<GpuInstruction, Chip8Error>)
        requires
            old(self).wf(),
        ensures
            final(self).wf(),
            exists|random: u8| (final(self)@, result_view(r)) == #[trigger] tick(old(self)@, random),
    {
        let random = random_byte();
        self.process_with(random)
    }

    /// Counts each timer down by one, stopping at zero.
    pub fn tick_timers(&mut self)
        requires
            old(self).wf(),
        ensures
            final(self).wf(),
            final(self)@ == (CpuView {
                delay_timer: if old(self)@.delay_timer > 0 {
                    (old(self)@.delay_timer - 1) as u8
                } else {
                    0
                },
                sound_timer: if old(self)@.sound_timer > 0 {
                    (old(self)@.sound_timer - 1) as u8
                } else {
                    0
                },
                ..old(self)@
            }),
    {
        if self.delay_timer > 0 {
            self.delay_timer = self.delay_timer - 1;
        }
        if self.sound_timer > 0 {
            self.sound_timer = self.sound_timer - 1;
        }
    }

    /// Replaces the keypad state that the machine sees.
    pub fn set_keypad_view(&mut self, keypad_view: Arc<[bool; 16]>)
        requires
            old(self).wf(),
        ensures
            final(self).wf(),
            final(self)@ == (CpuView { keypad: keypad_view@, ..old(self)@ }),
    {
        self.keypad_view = keypad_view;
    }

    /// Writes `value` at `address`; fails with `MemoryOutOfRange` past the
    /// end of memory and with `FontOverwrite` on a font glyph byte, changing
    /// nothing.
    pub fn set_memory(&mut self, address: usize, value: u8) -> (r: Result<(), Chip8Error>)
        requires
            old(self).wf(),
        ensures
            final(self).wf(),
            address >= MEMORY_SIZE ==> r == Err::<(), Chip8Error>(Chip8Error::MemoryOutOfRange)
                && final(self)@ == old(self)@,
            address < MEMORY_SIZE && touches_font(address as int, 1) ==> r == Err::<
                (),
                Chip8Error,
            >(Chip8Error::FontOverwrite) && final(self)@ == old(self)@,
            address < MEMORY_SIZE && !touches_font(address as int, 1) ==> r is Ok
                && final(self)@ == (CpuView {
                memory: old(self)@.memory.update(address as int, value),
                ..old(self)@
            }),
    {
        if address >= MEMORY_SIZE {
            return Err(Chip8Error::MemoryOutOfRange);
        }
        if address >= FONT_START_ADDRESS && address < FONT_END_ADDRESS {
            return Err(Chip8Error::FontOverwrite);
        }
        self.memory[address] = value;
        assert(self@.memory.subrange(FONT_START_ADDRESS as int, FONT_END_ADDRESS as int)
            =~= old(self)@.memory.subrange(FONT_START_ADDRESS as int, FONT_END_ADDRESS as int));
        Ok(())
    }

    /// Sets register `x` to `value`.
    pub fn set_register(&mut self, x: usize, value: u8)
        requires
            old(self).wf(),
            x < REGISTER_COUNT,
        ensures
            final(self).wf(),
            final(self)@ == (CpuView { regs: old(self)@.regs.update(x as int, value), ..old(self)@ }),
    {
        self.reg[x] = value;
    }

    /// The byte at `address`.
    pub fn memory_at(&self, address: usize) -> (v: u8)
        requires
            self.wf(),
            address < MEMORY_SIZE,
        ensures
            v == self@.memory[address as int],
    {
        self.memory[address]
    }

    /// Register `x`.
    pub fn register(&self, x: usize) -> (v: u8)
        requires
            self.wf(),
            x < REGISTER_COUNT,
        ensures
            v == self@.regs[x as int],
    {
        self.reg[x]
    }

    pub fn pc(&self) -> (v: u16)
        ensures
            v == self@.pc,
    {
        self.pc
    }

    pub fn index_register(&self) -> (v: u16)
        ensures
            v == self@.i_reg,
    {
        self.i_reg
    }

    pub fn delay_timer(&self) -> (v: u8)
        ensures
            v == self@.delay_timer,
    {
        self.delay_timer
    }

    pub fn sound_timer(&self) -> (v: u8)
        ensures
            v == self@.sound_timer,
    {
        self.sound_timer
    }

    /// The call stack.
    pub fn stack(&self) -> (st: &Stack)
        requires
            self.wf(),
        ensures
            st.wf(),
            st@ == self@.stack,
    {
        &self.stack
    }

    /// The register awaiting a key press, if a key wait is pending.
    pub fn waiting_for_key(&self) -> (w: Option<usize>)
        ensures
            w == self@.waiting_for_key,
    {
        self.waiting_for_key
    }
}

} // verus!
