//! Laws of the machine that relate several instructions or ticks.
use vstd::prelude::*;

use crate::arch::{ArchView, emulate_spec};
use crate::error::Chip8Error;
use crate::framebuffer::{PIXEL_COUNT, blank, collides, column_of, covers, row_of, xor_sprite_spec};
use crate::instruction::{Instruction, decode_spec, lemma_decode_in_range, operands_in_range};
use crate::semantics::{
    CpuView, DisplayOp, FONT_END_ADDRESS, FONT_START_ADDRESS, MEMORY_SIZE, REGISTER_COUNT,
    bcd_digits, execute_spec, fetch_spec, font_glyphs, initial_state, latch, lowest_pressed, run,
    store_spec, tick,
};

verus! {

/// A new machine holds the font glyphs at their addresses and is well formed.
pub proof fn theorem_font_after_construction(keypad: Seq<bool>)
    requires
        keypad.len() == 16,
    ensures
        initial_state(keypad).wf(),
        initial_state(keypad).memory.subrange(FONT_START_ADDRESS as int, FONT_END_ADDRESS as int)
            == font_glyphs(),
{
    assert(initial_state(keypad).memory.subrange(
        FONT_START_ADDRESS as int,
        FONT_END_ADDRESS as int,
    ) =~= font_glyphs());
}

/// Executing any instruction keeps the state well formed; in particular the
/// font glyphs are never overwritten.
pub proof fn theorem_execute_preserves_wf(s: CpuView, ins: Instruction, rnd: u8)
    requires
        s.wf(),
        operands_in_range(ins),
    ensures
        execute_spec(s, ins, rnd) matches Ok((n, _)) ==> n.wf(),
{
    match ins {
        Instruction::StoreBcd(x) => {
            lemma_store_keeps_font(s, bcd_digits(s.regs[x as int]));
        },
        Instruction::StoreRegs(x) => {
            lemma_store_keeps_font(s, s.regs.subrange(0, x + 1));
        },
        _ => {},
    }
}

proof fn lemma_store_keeps_font(s: CpuView, bytes: Seq<u8>)
    requires
        s.wf(),
    ensures
        store_spec(s, bytes) matches Ok((n, _)) ==> n.wf(),
{
    if store_spec(s, bytes) is Ok {
        let n = store_spec(s, bytes)->Ok_0.0;
        assert(n.memory.subrange(FONT_START_ADDRESS as int, FONT_END_ADDRESS as int)
            =~= s.memory.subrange(FONT_START_ADDRESS as int, FONT_END_ADDRESS as int));
    }
}

/// A tick keeps the machine well formed: the font glyphs, the register
/// count, the stack bound and the waiting register all survive it.
pub proof fn theorem_tick_preserves_wf(s: CpuView, rnd: u8)
    requires
        s.wf(),
    ensures
        tick(s, rnd).0.wf(),
{
    let l = latch(s);
    if l.pc + 2 <= MEMORY_SIZE {
        let w = fetch_spec(l.memory, l.pc as int);
        lemma_decode_in_range(w);
        if let Some(ins) = decode_spec(w) {
            theorem_execute_preserves_wf(CpuView { pc: (l.pc + 2) as u16, ..l }, ins, rnd);
        }
    }
}

/// The word `00E0` makes a tick emit a clear, and applying it leaves every
/// pixel off.
pub proof fn theorem_clear_blanks_screen(a: ArchView, rnd: u8)
    requires
        a.cpu.wf(),
        a.keypad.len() == 16,
        a.cpu.pc + 2 <= MEMORY_SIZE,
        a.cpu.memory[a.cpu.pc as int] == 0x00,
        a.cpu.memory[a.cpu.pc + 1] == 0xE0,
    ensures
        emulate_spec(a, rnd).1 == Ok::<DisplayOp, Chip8Error>(DisplayOp::Clear),
        emulate_spec(a, rnd).0.screen.len() == PIXEL_COUNT,
        forall|i: int| 0 <= i < PIXEL_COUNT ==> !#[trigger] emulate_spec(a, rnd).0.screen[i],
{
}

/// A call followed, wherever it went, by a return gives back the program
/// counter after the call and the stack from before it.
pub proof fn theorem_call_then_return(s: CpuView, target: u16, t: CpuView, rnd1: u8, rnd2: u8)
    requires
        s.wf(),
        s.stack.len() < 16,
        t.stack == s.stack.push(s.pc),
    ensures
        execute_spec(s, Instruction::Call(target), rnd1) == Ok::<(CpuView, DisplayOp), Chip8Error>(
            (CpuView { pc: target, stack: s.stack.push(s.pc), ..s }, DisplayOp::Nothing),
        ),
        execute_spec(t, Instruction::Return, rnd2) == Ok::<(CpuView, DisplayOp), Chip8Error>(
            (CpuView { pc: s.pc, stack: s.stack, ..t }, DisplayOp::Nothing),
        ),
{
    assert(s.stack.push(s.pc).drop_last() =~= s.stack);
}

/// `6xkk` followed by `3xkk` skips the instruction after them: the `3xkk`
/// tick moves the program counter on by four bytes rather than two.
pub proof fn theorem_load_then_skip_equal(s: CpuView, x: u8, kk: u8, rnd1: u8, rnd2: u8)
    requires
        s.wf(),
        x < 16,
        s.pc + 4 <= MEMORY_SIZE,
        s.memory[s.pc as int] == 0x60 + x,
        s.memory[s.pc + 1] == kk,
        s.memory[s.pc + 2] == 0x30 + x,
        s.memory[s.pc + 3] == kk,
    ensures
        tick(s, rnd1).1 is Ok,
        tick(tick(s, rnd1).0, rnd2).1 is Ok,
        tick(s, rnd1).0.pc == s.pc + 2,
        tick(tick(s, rnd1).0, rnd2).0.pc == tick(s, rnd1).0.pc + 4,
{
}

/// Storing V0..Vx and later loading them from the same index register and
/// unchanged memory gives V0..Vx back, the other registers untouched.
pub proof fn theorem_store_then_load(s: CpuView, x: u8, t: CpuView, rnd1: u8, rnd2: u8)
    requires
        s.wf(),
        x < 16,
        execute_spec(s, Instruction::StoreRegs(x), rnd1) is Ok,
        t.regs.len() == REGISTER_COUNT,
        t.memory == execute_spec(s, Instruction::StoreRegs(x), rnd1)->Ok_0.0.memory,
        t.i_reg == s.i_reg,
    ensures
        execute_spec(t, Instruction::LoadRegs(x), rnd2) is Ok,
        forall|r: int|
            0 <= r < REGISTER_COUNT ==> #[trigger] execute_spec(
                t,
                Instruction::LoadRegs(x),
                rnd2,
            )->Ok_0.0.regs[r] == if r <= x {
                s.regs[r]
            } else {
                t.regs[r]
            },
{
}

/// `Fx0A` with no key pressed does not block: the program counter moves on
/// and register x is marked to receive the next pressed key.
pub proof fn theorem_key_wait_does_not_block(s: CpuView, x: u8, rnd: u8)
    requires
        s.wf(),
        x < 16,
        lowest_pressed(s.keypad) is None,
        s.pc + 2 <= MEMORY_SIZE,
        s.memory[s.pc as int] == 0xF0 + x,
        s.memory[s.pc + 1] == 0x0A,
    ensures
        tick(s, rnd).1 == Ok::<DisplayOp, Chip8Error>(DisplayOp::Nothing),
        tick(s, rnd).0 == (CpuView {
            pc: (s.pc + 2) as u16,
            waiting_for_key: Some(x as usize),
            ..latch(s)
        }),
{
}

/// While a key wait is pending and no key is pressed, a tick runs the next
/// instruction as it would without the wait.
pub proof fn theorem_waiting_tick_runs_normally(s: CpuView, rnd: u8)
    requires
        lowest_pressed(s.keypad) is None,
    ensures
        tick(s, rnd) == run(s, rnd),
{
}

/// On the first tick at which a key is pressed during a pending wait, the
/// lowest pressed key goes to the waiting register before that tick's
/// instruction runs, and the wait ends.
pub proof fn theorem_key_latched_before_instruction(s: CpuView, rnd: u8)
    requires
        s.waiting_for_key is Some,
        lowest_pressed(s.keypad) is Some,
    ensures
        tick(s, rnd) == run(
            CpuView {
                regs: s.regs.update(
                    s.waiting_for_key->0 as int,
                    lowest_pressed(s.keypad)->0 as u8,
                ),
                waiting_for_key: None,
                ..s
            },
            rnd,
        ),
{
}

/// Drawing a sprite twice at the same place leaves the display as it was.
pub proof fn theorem_redraw_restores(pixels: Seq<bool>, x: int, y: int, rows: Seq<u8>)
    ensures
        xor_sprite_spec(xor_sprite_spec(pixels, x, y, rows), x, y, rows) == pixels,
{
    assert(xor_sprite_spec(xor_sprite_spec(pixels, x, y, rows), x, y, rows) =~= pixels);
}

/// Nothing collides on a blank display; drawing the same sprite again
/// collides exactly when the first drawing lit a pixel.
pub proof fn theorem_redraw_collides(x: int, y: int, rows: Seq<u8>)
    ensures
        !collides(blank(), x, y, rows),
        collides(xor_sprite_spec(blank(), x, y, rows), x, y, rows) <==> exists|i: int|
            0 <= i < PIXEL_COUNT && #[trigger] covers(x, y, rows, column_of(i), row_of(i)),
{
}

} // verus!
