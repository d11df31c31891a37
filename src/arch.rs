//! The machine together with its display and keypad.
use std::sync::Arc;

use vstd::prelude::*;

use crate::cpu::{Cpu, GpuInstruction, result_view};
use crate::error::Chip8Error;
use crate::framebuffer::{Framebuffer, blank, collides, xor_sprite_spec};
use crate::semantics::{CpuView, DisplayOp, FLAG_REGISTER, initial_state, tick};

verus! {

/// The state of the machine, its display and its keypad.
pub struct ArchView {
    pub cpu: CpuView,
    pub screen: Seq<bool>,
    pub keypad: Seq<bool>,
}

/// One step of the whole system: the machine sees `a.keypad`, ticks once,
/// and its display instruction is applied to the screen, a sprite's
/// collision result going to the flag register.
pub open spec fn emulate_spec(a: ArchView, rnd: u8) -> (ArchView, Result<DisplayOp, Chip8Error>) {
    let (n, r) = tick(CpuView { keypad: a.keypad, ..a.cpu }, rnd);
    match r {
        Ok(DisplayOp::Clear) => (ArchView { cpu: n, screen: blank(), keypad: a.keypad }, r),
        Ok(DisplayOp::Sprite(x, y, rows)) => (
            ArchView {
                cpu: CpuView {
                    regs: n.regs.update(
                        FLAG_REGISTER as int,
                        if collides(a.screen, x as int, y as int, rows) {
                            1u8
                        } else {
                            0u8
                        },
                    ),
                    ..n
                },
                screen: xor_sprite_spec(a.screen, x as int, y as int, rows),
                keypad: a.keypad,
            },
            r,
        ),
        _ => (ArchView { cpu: n, screen: a.screen, keypad: a.keypad }, r),
    }
}

/// The machine, the display it draws on, and the keypad state it reads.
pub struct Arch {
    pub cpu: Cpu,
    pub framebuffer: Framebuffer,
    pub keypad: [bool; 16],
}

impl View for Arch {
    type V = ArchView;

    open spec fn view(&self) -> ArchView {
        ArchView { cpu: self.cpu@, screen: self.framebuffer@, keypad: self.keypad@ }
    }
}

impl Arch {
    /// The machine and the display are well formed.
    pub open spec fn wf(&self) -> bool {
        self.cpu.wf() && self.framebuffer.wf()
    }

    /// A fresh machine, a blank display and no key pressed.
    pub fn new() -> (a: Self)
        ensures
            a.wf(),
            a@.screen == blank(),
            a@.keypad == Seq::new(16, |k: int| false),
            a@.cpu == initial_state(Seq::new(16, |k: int| false)),
    {
        let keypad = [false; 16];
        let cpu = Cpu::new(Arc::new(keypad));
        let framebuffer = Framebuffer::new();
        let a = Self { cpu, framebuffer, keypad };
        assert(a@.keypad =~= Seq::new(16, |k: int| false));
        assert(a@.cpu.keypad =~= Seq::new(16, |k: int| false));
        a
    }

    /// One step with `random` as the byte that a random instruction uses;
    /// returns the display instruction that was applied.
    pub fn emulate_with(&mut self, random: u8) -> (r: Result<GpuInstruction, Chip8Error>)
        requires
            old(self).wf(),
        ensures
            final(self).wf(),
            (final(self)@, result_view(r)) == emulate_spec(old(self)@, random),
    {
        self.cpu.set_keypad_view(Arc::new(self.keypad));
        let r = self.cpu.process_with(random);
        match &r {
            Ok(GpuInstruction::Clear) => {
                self.framebuffer.clear_screen();
            },
            Ok(GpuInstruction::XorSprite(pos_x, pos_y, sprite_data)) => {
                let collision = self.framebuffer.xor_sprite(*pos_x, *pos_y, sprite_data);
                self.cpu.set_register(FLAG_REGISTER, if collision { 1 } else { 0 });
            },
            _ => {},
        }
        r
    }

    /// One step with a freshly drawn random byte.
    pub fn emulate(&mut self) -> (r: Result<GpuInstruction, Chip8Error>)
        requires
            old(self).wf(),
        ensures
            final(self).wf(),
            exists|random: u8|
                (final(self)@, result_view(r)) == #[trigger] emulate_spec(old(self)@, random),
    {
        let random = crate::cpu::random_byte();
        self.emulate_with(random)
    }
}

} // verus!
