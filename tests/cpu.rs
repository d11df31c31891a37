use std::sync::Arc;

use chip8::cpu::{Cpu, GpuInstruction};
use chip8::error::Chip8Error;

const START_ADDRES: usize = 0x200;
const FONT_START_ADDRES: usize = 0x50;

fn cpu_with_program(program: &[u8]) -> Cpu {
    let mut cpu = Cpu::new(Arc::new([false; 16]));
    cpu.put_rom(program).unwrap();
    cpu
}

#[test]
fn test_create_new_cpu() {
    let font_data: [u8; 80] = [
        0xF0, 0x90, 0x90, 0x90, 0xF0, // 0
        0x20, 0x60, 0x20, 0x20, 0x70, // 1
        0xF0, 0x10, 0xF0, 0x80, 0xF0, // 2
        0xF0, 0x10, 0xF0, 0x10, 0xF0, // 3
        0x90, 0x90, 0xF0, 0x10, 0x10, // 4
        0xF0, 0x80, 0xF0, 0x10, 0xF0, // 5
        0xF0, 0x80, 0xF0, 0x90, 0xF0, // 6
        0xF0, 0x10, 0x20, 0x40, 0x40, // 7
        0xF0, 0x90, 0xF0, 0x90, 0xF0, // 8
        0xF0, 0x90, 0xF0, 0x10, 0xF0, // 9
        0xF0, 0x90, 0xF0, 0x90, 0x90, // A
        0xE0, 0x90, 0xE0, 0x90, 0xE0, // B
        0xF0, 0x80, 0x80, 0x80, 0xF0, // C
        0xE0, 0x90, 0x90, 0x90, 0xE0, // D
        0xF0, 0x80, 0xF0, 0x80, 0xF0, // E
        0xF0, 0x80, 0xF0, 0x80, 0x80, // F
    ];
    let keypad_array = [false; 16];
    let cpu = Cpu::new(Arc::new(keypad_array));
    assert_eq!(cpu.pc(), START_ADDRES as u16);

    let mut indexer: usize = 0;
    for _ in 0..80 {
        assert_eq!(cpu.memory_at(FONT_START_ADDRES + indexer), font_data[indexer]);
        indexer += 1;
    }
}

#[test]
fn test_clear_instruction() {
    let keypad_array = [false; 16];
    let mut cpu = Cpu::new(Arc::new(keypad_array));
    cpu.set_memory(START_ADDRES, 0x00).unwrap();
    cpu.set_memory(START_ADDRES + 1, 0xE0).unwrap();

    let ret = cpu.process();
    assert_eq!(ret, Ok(GpuInstruction::Clear));
    assert_eq!(cpu.pc(), (START_ADDRES + 2) as u16);
}

#[test]
fn test_call() {
    let keypad_array = [false; 16];
    let mut cpu = Cpu::new(Arc::new(keypad_array));
    cpu.set_memory(START_ADDRES, 0x20).unwrap();
    cpu.set_memory(START_ADDRES + 1, 0x04).unwrap();

    cpu.process().unwrap();
    assert_eq!(cpu.pc(), 4);
    assert_eq!(cpu.stack().get(0), 0x202);
    assert_eq!(cpu.stack().len(), 1);
}

#[test]
fn test_ret() {
    let keypad_array = [false; 16];
    let mut cpu = Cpu::new(Arc::new(keypad_array));
    cpu.set_memory(START_ADDRES, 0x20).unwrap();
    cpu.set_memory(START_ADDRES + 1, 0x04).unwrap();

    cpu.set_memory(4, 0x00).unwrap();
    cpu.set_memory(4 + 1, 0xEE).unwrap();

    cpu.process().unwrap();
    cpu.process().unwrap();
    assert_eq!(cpu.pc(), (START_ADDRES + 2) as u16);
    assert_eq!(cpu.stack().len(), 0);
}

#[test]
fn zero_nnn_word_is_invalid() {
    let mut cpu = cpu_with_program(&[0x02, 0x40]);
    assert_eq!(cpu.process(), Err(Chip8Error::InvalidInstruction(0x0240)));
    assert_eq!(cpu.pc(), 0x200);
}

#[test]
fn call_to_0x204_pushes_return_address() {
    let mut cpu = cpu_with_program(&[0x22, 0x04]);
    assert_eq!(cpu.process(), Ok(GpuInstruction::Nothing));
    assert_eq!(cpu.pc(), 0x204);
    assert_eq!(cpu.stack().len(), 1);
    assert_eq!(cpu.stack().get(0), 0x202);
}

#[test]
fn call_then_return_restores_pc_and_depth() {
    let mut cpu = cpu_with_program(&[0x22, 0x04, 0x00, 0x00, 0x00, 0xEE]);
    cpu.process().unwrap();
    cpu.process().unwrap();
    assert_eq!(cpu.pc(), 0x202);
    assert_eq!(cpu.stack().len(), 0);
}

#[test]
fn add_registers_sets_carry() {
    let mut cpu = cpu_with_program(&[0x81, 0x24, 0x83, 0x44]);
    cpu.set_register(1, 250);
    cpu.set_register(2, 10);
    cpu.set_register(3, 10);
    cpu.set_register(4, 10);
    cpu.process().unwrap();
    assert_eq!(cpu.register(1), 4);
    assert_eq!(cpu.register(15), 1);
    cpu.process().unwrap();
    assert_eq!(cpu.register(3), 20);
    assert_eq!(cpu.register(15), 0);
}

#[test]
fn subtract_registers_sets_no_borrow_flag() {
    let mut cpu = cpu_with_program(&[0x81, 0x25, 0x83, 0x45, 0x85, 0x65]);
    cpu.set_register(1, 10);
    cpu.set_register(2, 20);
    cpu.set_register(3, 20);
    cpu.set_register(4, 10);
    cpu.set_register(5, 7);
    cpu.set_register(6, 7);
    cpu.process().unwrap();
    assert_eq!(cpu.register(1), 246);
    assert_eq!(cpu.register(15), 0);
    cpu.process().unwrap();
    assert_eq!(cpu.register(3), 10);
    assert_eq!(cpu.register(15), 1);
    cpu.process().unwrap();
    assert_eq!(cpu.register(5), 0);
    assert_eq!(cpu.register(15), 1);
}

#[test]
fn reverse_subtract_sets_no_borrow_flag() {
    let mut cpu = cpu_with_program(&[0x81, 0x27]);
    cpu.set_register(1, 20);
    cpu.set_register(2, 10);
    cpu.process().unwrap();
    assert_eq!(cpu.register(1), 246);
    assert_eq!(cpu.register(15), 0);
}

#[test]
fn shifts_put_the_shifted_out_bit_in_vf() {
    let mut cpu = cpu_with_program(&[0x81, 0x06, 0x82, 0x0E, 0x83, 0x0E, 0x84, 0x06]);
    cpu.set_register(1, 0x05);
    cpu.set_register(2, 0x81);
    cpu.set_register(3, 0x40);
    cpu.set_register(4, 0x04);
    cpu.process().unwrap();
    assert_eq!(cpu.register(1), 0x02);
    assert_eq!(cpu.register(15), 1);
    cpu.process().unwrap();
    assert_eq!(cpu.register(2), 0x02);
    assert_eq!(cpu.register(15), 1);
    cpu.process().unwrap();
    assert_eq!(cpu.register(3), 0x80);
    assert_eq!(cpu.register(15), 0);
    cpu.process().unwrap();
    assert_eq!(cpu.register(4), 0x02);
    assert_eq!(cpu.register(15), 0);
}

#[test]
fn bitwise_operations_and_loads() {
    let mut cpu = cpu_with_program(&[0x81, 0x21, 0x83, 0x22, 0x85, 0x23, 0x87, 0x20, 0x79, 0xFF]);
    cpu.set_register(1, 0b1100);
    cpu.set_register(2, 0b1010);
    cpu.set_register(3, 0b1100);
    cpu.set_register(5, 0b1100);
    cpu.set_register(9, 2);
    for _ in 0..5 {
        cpu.process().unwrap();
    }
    assert_eq!(cpu.register(1), 0b1110);
    assert_eq!(cpu.register(3), 0b1000);
    assert_eq!(cpu.register(5), 0b0110);
    assert_eq!(cpu.register(7), 0b1010);
    assert_eq!(cpu.register(9), 1);
}

#[test]
fn load_then_skip_equal_skips_one_instruction() {
    let mut cpu = cpu_with_program(&[0x6A, 0x42, 0x3A, 0x42]);
    cpu.process().unwrap();
    assert_eq!(cpu.pc(), 0x202);
    cpu.process().unwrap();
    assert_eq!(cpu.pc(), 0x206);
}

#[test]
fn skip_variants() {
    // SNE Vx, kk (not taken), SE Vx, Vy (taken), SNE Vx, Vy (not taken)
    let mut cpu = cpu_with_program(&[0x41, 0x05, 0x51, 0x20, 0x00, 0x00, 0x91, 0x20]);
    cpu.set_register(1, 5);
    cpu.set_register(2, 5);
    cpu.process().unwrap();
    assert_eq!(cpu.pc(), 0x202);
    cpu.process().unwrap();
    assert_eq!(cpu.pc(), 0x206);
    cpu.process().unwrap();
    assert_eq!(cpu.pc(), 0x208);
}

#[test]
fn jumps() {
    let mut cpu = cpu_with_program(&[0x13, 0x00]);
    cpu.process().unwrap();
    assert_eq!(cpu.pc(), 0x300);
    cpu.set_memory(0x300, 0xB2).unwrap();
    cpu.set_memory(0x301, 0x10).unwrap();
    cpu.set_register(0, 0x20);
    cpu.process().unwrap();
    assert_eq!(cpu.pc(), 0x230);
}

#[test]
fn store_then_load_restores_registers() {
    let mut cpu = cpu_with_program(&[0xA3, 0x00, 0xF3, 0x55, 0x60, 0x00, 0x63, 0x00, 0xF3, 0x65]);
    for (x, v) in [(0, 11u8), (1, 22), (2, 33), (3, 44), (4, 55)] {
        cpu.set_register(x, v);
    }
    cpu.process().unwrap();
    cpu.process().unwrap();
    assert_eq!(cpu.memory_at(0x300), 11);
    assert_eq!(cpu.memory_at(0x303), 44);
    assert_eq!(cpu.memory_at(0x304), 0);
    cpu.process().unwrap();
    cpu.process().unwrap();
    assert_eq!(cpu.register(0), 0);
    assert_eq!(cpu.register(3), 0);
    cpu.process().unwrap();
    assert_eq!(cpu.register(0), 11);
    assert_eq!(cpu.register(1), 22);
    assert_eq!(cpu.register(2), 33);
    assert_eq!(cpu.register(3), 44);
    assert_eq!(cpu.register(4), 55);
}

#[test]
fn bcd_writes_three_digits() {
    let mut cpu = cpu_with_program(&[0xA3, 0x00, 0xF7, 0x33]);
    cpu.set_register(7, 254);
    cpu.process().unwrap();
    cpu.process().unwrap();
    assert_eq!(cpu.memory_at(0x300), 2);
    assert_eq!(cpu.memory_at(0x301), 5);
    assert_eq!(cpu.memory_at(0x302), 4);
}

#[test]
fn font_address_of_digit() {
    let mut cpu = cpu_with_program(&[0xF3, 0x29, 0xF4, 0x29]);
    cpu.set_register(3, 0xA);
    cpu.set_register(4, 0x1F);
    cpu.process().unwrap();
    assert_eq!(cpu.index_register(), 0x82);
    cpu.process().unwrap();
    assert_eq!(cpu.index_register(), 0x9B);
}

#[test]
fn index_and_timer_instructions() {
    let mut cpu = cpu_with_program(&[0xAF, 0xF0, 0xF1, 0x1E, 0xF2, 0x15, 0xF3, 0x18, 0xF4, 0x07]);
    cpu.set_register(1, 0x20);
    cpu.set_register(2, 9);
    cpu.set_register(3, 4);
    cpu.process().unwrap();
    assert_eq!(cpu.index_register(), 0xFF0);
    cpu.process().unwrap();
    assert_eq!(cpu.index_register(), 0x1010);
    cpu.process().unwrap();
    assert_eq!(cpu.delay_timer(), 9);
    cpu.process().unwrap();
    assert_eq!(cpu.sound_timer(), 4);
    cpu.tick_timers();
    assert_eq!(cpu.delay_timer(), 8);
    assert_eq!(cpu.sound_timer(), 3);
    cpu.process().unwrap();
    assert_eq!(cpu.register(4), 8);
}

#[test]
fn timers_stop_at_zero() {
    let mut cpu = Cpu::new(Arc::new([false; 16]));
    cpu.tick_timers();
    assert_eq!(cpu.delay_timer(), 0);
    assert_eq!(cpu.sound_timer(), 0);
}

#[test]
fn random_with_zero_mask_is_zero() {
    let mut cpu = cpu_with_program(&[0xC3, 0x00, 0xC4, 0x0F]);
    cpu.set_register(3, 99);
    cpu.process().unwrap();
    assert_eq!(cpu.register(3), 0);
    cpu.process().unwrap();
    assert!(cpu.register(4) <= 0x0F);
}

#[test]
fn random_uses_the_given_byte() {
    let mut cpu = cpu_with_program(&[0xC3, 0x3C]);
    cpu.process_with(0xA5).unwrap();
    assert_eq!(cpu.register(3), 0x24);
}

#[test]
fn draw_emits_sprite_rows_at_register_position() {
    let mut cpu = cpu_with_program(&[0xA0, 0x50, 0xD1, 0x25]);
    cpu.set_register(1, 3);
    cpu.set_register(2, 7);
    cpu.process().unwrap();
    assert_eq!(
        cpu.process(),
        Ok(GpuInstruction::XorSprite(3, 7, vec![0xF0, 0x90, 0x90, 0x90, 0xF0]))
    );
}

#[test]
fn key_skips() {
    let mut keys = [false; 16];
    keys[6] = true;
    let mut cpu = Cpu::new(Arc::new(keys));
    cpu.put_rom(&[0xE1, 0x9E, 0x00, 0x00, 0xE1, 0xA1, 0xE2, 0xA1]).unwrap();
    cpu.set_register(1, 6);
    cpu.set_register(2, 0x20);
    cpu.process().unwrap();
    assert_eq!(cpu.pc(), 0x204);
    cpu.process().unwrap();
    assert_eq!(cpu.pc(), 0x206);
    cpu.process().unwrap();
    assert_eq!(cpu.pc(), 0x20A);
}

#[test]
fn key_wait_latches_on_a_later_tick() {
    let mut cpu = cpu_with_program(&[0xF5, 0x0A, 0x61, 0x01, 0x81, 0x50]);
    cpu.process().unwrap();
    assert_eq!(cpu.pc(), 0x202);
    assert_eq!(cpu.waiting_for_key(), Some(5));
    cpu.process().unwrap();
    assert_eq!(cpu.pc(), 0x204);
    assert_eq!(cpu.register(1), 1);
    let mut keys = [false; 16];
    keys[9] = true;
    keys[7] = true;
    cpu.set_keypad_view(Arc::new(keys));
    cpu.process().unwrap();
    assert_eq!(cpu.register(5), 7);
    assert_eq!(cpu.register(1), 7);
    assert_eq!(cpu.waiting_for_key(), None);
}

#[test]
fn key_wait_with_key_already_pressed() {
    let mut keys = [false; 16];
    keys[0xC] = true;
    let mut cpu = Cpu::new(Arc::new(keys));
    cpu.put_rom(&[0xF2, 0x0A]).unwrap();
    cpu.process().unwrap();
    assert_eq!(cpu.register(2), 0xC);
    assert_eq!(cpu.waiting_for_key(), None);
}

#[test]
fn return_on_empty_stack_underflows() {
    let mut cpu = cpu_with_program(&[0x00, 0xEE]);
    cpu.set_register(3, 1);
    assert_eq!(cpu.process(), Err(Chip8Error::StackUnderflow));
    assert_eq!(cpu.pc(), 0x200);
    assert_eq!(cpu.register(3), 1);
}

#[test]
fn seventeenth_call_overflows() {
    let mut cpu = cpu_with_program(&[0x22, 0x00]);
    for _ in 0..16 {
        cpu.process().unwrap();
    }
    assert_eq!(cpu.stack().len(), 16);
    assert_eq!(cpu.process(), Err(Chip8Error::StackOverflow));
    assert_eq!(cpu.stack().len(), 16);
    assert_eq!(cpu.pc(), 0x200);
}

#[test]
fn unknown_words_are_invalid() {
    for word in [0x5121u16, 0x9123, 0x8128, 0xE1FF, 0xF1FF, 0x0123] {
        let mut cpu = cpu_with_program(&[(word >> 8) as u8, word as u8]);
        assert_eq!(cpu.process(), Err(Chip8Error::InvalidInstruction(word)));
        assert_eq!(cpu.pc(), 0x200);
    }
}

#[test]
fn fetch_past_memory_end_is_out_of_range() {
    let mut cpu = cpu_with_program(&[0x1F, 0xFF]);
    cpu.process().unwrap();
    assert_eq!(cpu.pc(), 0xFFF);
    assert_eq!(cpu.process(), Err(Chip8Error::MemoryOutOfRange));
}

#[test]
fn store_past_memory_end_is_out_of_range() {
    let mut cpu = cpu_with_program(&[0xAF, 0xFE, 0xF2, 0x55]);
    cpu.process().unwrap();
    assert_eq!(cpu.process(), Err(Chip8Error::MemoryOutOfRange));
    assert_eq!(cpu.pc(), 0x202);
}

#[test]
fn load_and_draw_past_memory_end_are_out_of_range() {
    let mut cpu = cpu_with_program(&[0xAF, 0xFE, 0xF2, 0x65, 0xD0, 0x03]);
    cpu.process().unwrap();
    assert_eq!(cpu.process(), Err(Chip8Error::MemoryOutOfRange));
    let mut cpu2 = cpu_with_program(&[0xAF, 0xFE, 0xD0, 0x03]);
    cpu2.process().unwrap();
    assert_eq!(cpu2.process(), Err(Chip8Error::MemoryOutOfRange));
}

#[test]
fn store_over_font_is_refused() {
    let mut cpu = cpu_with_program(&[0xA0, 0x9E, 0xF3, 0x33]);
    cpu.process().unwrap();
    assert_eq!(cpu.process(), Err(Chip8Error::FontOverwrite));
    assert_eq!(cpu.memory_at(0x9E), 0x80);
    assert_eq!(cpu.set_memory(0x50, 0), Err(Chip8Error::FontOverwrite));
    assert_eq!(cpu.set_memory(4096, 0), Err(Chip8Error::MemoryOutOfRange));
}

#[test]
fn oversized_program_is_refused() {
    let mut cpu = Cpu::new(Arc::new([false; 16]));
    let rom = vec![0xAAu8; 4096 - 0x200 + 1];
    assert_eq!(cpu.put_rom(&rom), Err(Chip8Error::ProgramTooLarge));
    assert_eq!(cpu.memory_at(0x200), 0);
    let rom = vec![0xAAu8; 4096 - 0x200];
    assert_eq!(cpu.put_rom(&rom), Ok(()));
    assert_eq!(cpu.memory_at(0x200), 0xAA);
    assert_eq!(cpu.memory_at(0xFFF), 0xAA);
}
