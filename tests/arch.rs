use chip8::arch::Arch;
use chip8::cpu::GpuInstruction;
use chip8::instruction::{ArithOp, Instruction, decode};
use chip8::stack::Stack;
use chip8::error::Chip8Error;

#[test]
fn drawing_twice_sets_then_clears_collision_flag() {
    let mut arch = Arch::new();
    arch.cpu.put_rom(&[0xA3, 0x00, 0xD0, 0x11, 0xD0, 0x11]).unwrap();
    arch.cpu.set_memory(0x300, 0xFF).unwrap();
    arch.emulate().unwrap();
    assert_eq!(arch.emulate(), Ok(GpuInstruction::XorSprite(0, 0, vec![0xFF])));
    for x in 0..8 {
        assert!(arch.framebuffer.pixel(x, 0));
    }
    assert_eq!(arch.cpu.register(15), 0);
    arch.emulate().unwrap();
    for x in 0..8 {
        assert!(!arch.framebuffer.pixel(x, 0));
    }
    assert_eq!(arch.cpu.register(15), 1);
}

#[test]
fn clear_instruction_blanks_the_display() {
    let mut arch = Arch::new();
    arch.cpu.put_rom(&[0xA0, 0x50, 0xD0, 0x05, 0x00, 0xE0]).unwrap();
    arch.emulate().unwrap();
    arch.emulate().unwrap();
    assert!(arch.framebuffer.pixel(0, 0));
    assert_eq!(arch.emulate(), Ok(GpuInstruction::Clear));
    for y in 0..32 {
        for x in 0..64 {
            assert!(!arch.framebuffer.pixel(x, y));
        }
    }
}

#[test]
fn keypad_is_seen_on_each_step() {
    let mut arch = Arch::new();
    arch.cpu.put_rom(&[0xF4, 0x0A, 0x12, 0x02]).unwrap();
    arch.emulate().unwrap();
    assert_eq!(arch.cpu.waiting_for_key(), Some(4));
    arch.emulate_with(0).unwrap();
    arch.keypad[0xB] = true;
    arch.emulate_with(0).unwrap();
    assert_eq!(arch.cpu.register(4), 0xB);
    assert_eq!(arch.cpu.waiting_for_key(), None);
}

#[test]
fn errors_pass_through_and_leave_display_alone() {
    let mut arch = Arch::new();
    arch.cpu.put_rom(&[0x00, 0xEE]).unwrap();
    assert_eq!(arch.emulate(), Err(Chip8Error::StackUnderflow));
    assert!(!arch.framebuffer.pixel(0, 0));
}

#[test]
fn decode_maps_words_to_instructions() {
    assert_eq!(decode(0x00E0), Some(Instruction::Clear));
    assert_eq!(decode(0x00EE), Some(Instruction::Return));
    assert_eq!(decode(0x1ABC), Some(Instruction::Jump(0xABC)));
    assert_eq!(decode(0x8124), Some(Instruction::Arith(ArithOp::Add, 1, 2)));
    assert_eq!(decode(0x8ABE), Some(Instruction::Arith(ArithOp::ShiftLeft, 0xA, 0xB)));
    assert_eq!(decode(0xD12F), Some(Instruction::Draw(1, 2, 0xF)));
    assert_eq!(decode(0xF765), Some(Instruction::LoadRegs(7)));
    assert_eq!(decode(0x5121), None);
    assert_eq!(decode(0x0240), None);
}

#[test]
fn stack_push_pop_and_bounds() {
    let mut st = Stack::new();
    assert_eq!(st.pop(), Err(Chip8Error::StackUnderflow));
    for i in 0..16u16 {
        assert_eq!(st.push(i * 2), Ok(()));
    }
    assert_eq!(st.len(), 16);
    assert_eq!(st.push(99), Err(Chip8Error::StackOverflow));
    assert_eq!(st.get(15), 30);
    assert_eq!(st.pop(), Ok(30));
    assert_eq!(st.pop(), Ok(28));
    assert_eq!(st.len(), 14);
}
