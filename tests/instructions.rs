use chip8::cpu::{Chip8Error, Cpu};
use chip8::emulator::Emulator;
use chip8::gpu::Gpu;
use chip8::memory::{Memory, FONTS, ROM_MAX_SIZE};
use chip8::opcode::{Nibbles, OpCode};

fn cpu_with(op: u16) -> Cpu {
    let mut cpu = Cpu::new(Memory::default());
    cpu.current_opcode = OpCode(op);
    cpu
}

fn emulator_with_program(program: &[u8]) -> Emulator {
    let mut emu = Emulator::new();
    emu.cpu.memory.rom = program.to_vec();
    emu.load_rom().unwrap();
    emu
}

#[test]
fn nibbles_and_immediates() {
    let op = OpCode(0xD4A7);
    assert_eq!(op.into_tuple(), (0xD, 0x4, 0xA, 0x7));
    assert_eq!(op.nn(), 0xA7);
    assert_eq!(op.nnn(), 0x4A7);
    let cpu = cpu_with(0x8AB4);
    assert_eq!(OpCode::get_x(&cpu), 0xA);
    assert_eq!(OpCode::get_y(&cpu), 0xB);
}

#[test]
fn scenario_load_add_bcd() {
    let mut emu = emulator_with_program(&[0x61, 0x05, 0x71, 0x03, 0xF1, 0x33]);
    emu.cpu.step().unwrap();
    assert_eq!(emu.cpu.registers[1], 5);
    emu.cpu.step().unwrap();
    assert_eq!(emu.cpu.registers[1], 8);
    emu.cpu.index_register = 0x300;
    emu.cpu.step().unwrap();
    assert_eq!(emu.cpu.memory.ram[0x300..0x303], [0, 0, 8]);
    assert_eq!(emu.cpu.program_counter, 0x206);
}

#[test]
fn scenario_register_dump() {
    let mut cpu = cpu_with(0xF555);
    cpu.index_register = 0x200;
    cpu.registers[0..6].copy_from_slice(&[105, 5, 14, 0, 0, 0]);
    OpCode::fx55(&mut cpu).unwrap();
    assert_eq!(cpu.memory.ram[0x200..0x206], [105, 5, 14, 0, 0, 0]);
    assert_eq!(cpu.index_register, 0x206);
}

#[test]
fn load_immediate_reads_back() {
    for x in 0..16u16 {
        let mut cpu = cpu_with(0x6000 | (x << 8) | 0x9C);
        cpu.execute(0).unwrap();
        assert_eq!(cpu.registers[x as usize], 0x9C);
    }
}

#[test]
fn add_sets_carry() {
    let mut cpu = cpu_with(0x8124);
    cpu.registers[1] = 200;
    cpu.registers[2] = 100;
    OpCode::_8xy4(&mut cpu);
    assert_eq!(cpu.registers[1], 44);
    assert_eq!(cpu.registers[0xF], 1);

    let mut cpu = cpu_with(0x8124);
    cpu.registers[1] = 200;
    cpu.registers[2] = 55;
    cpu.registers[0xF] = 7;
    OpCode::_8xy4(&mut cpu);
    assert_eq!(cpu.registers[1], 255);
    assert_eq!(cpu.registers[0xF], 0);
}

#[test]
fn sub_flag_means_no_borrow() {
    let mut cpu = cpu_with(0x8125);
    cpu.registers[1] = 10;
    cpu.registers[2] = 10;
    OpCode::_8xy5(&mut cpu);
    assert_eq!(cpu.registers[1], 0);
    assert_eq!(cpu.registers[0xF], 1);

    let mut cpu = cpu_with(0x8125);
    cpu.registers[1] = 5;
    cpu.registers[2] = 10;
    OpCode::_8xy5(&mut cpu);
    assert_eq!(cpu.registers[1], 251);
    assert_eq!(cpu.registers[0xF], 0);

    let mut cpu = cpu_with(0x8127);
    cpu.registers[1] = 5;
    cpu.registers[2] = 10;
    OpCode::_8xy7(&mut cpu);
    assert_eq!(cpu.registers[1], 5);
    assert_eq!(cpu.registers[0xF], 1);
}

#[test]
fn shifts_keep_the_bit_shifted_out() {
    let mut cpu = cpu_with(0x8126);
    cpu.registers[2] = 0b1000_0011;
    OpCode::_8xy6(&mut cpu);
    assert_eq!(cpu.registers[1], 0b0100_0001);
    assert_eq!(cpu.registers[0xF], 1);
    assert_eq!(cpu.registers[2], 0b1000_0011);

    let mut cpu = cpu_with(0x812E);
    cpu.registers[2] = 0b1000_0011;
    OpCode::_8xye(&mut cpu);
    assert_eq!(cpu.registers[1], 0b0000_0110);
    assert_eq!(cpu.registers[0xF], 1);
}

#[test]
fn bitwise_and_copy() {
    let mut cpu = cpu_with(0x8121);
    cpu.registers[1] = 0b1100;
    cpu.registers[2] = 0b1010;
    OpCode::_8xy1(&mut cpu);
    assert_eq!(cpu.registers[1], 0b1110);
    cpu.registers[1] = 0b1100;
    OpCode::_8xy2(&mut cpu);
    assert_eq!(cpu.registers[1], 0b1000);
    cpu.registers[1] = 0b1100;
    OpCode::_8xy3(&mut cpu);
    assert_eq!(cpu.registers[1], 0b0110);
    OpCode::_8xy0(&mut cpu);
    assert_eq!(cpu.registers[1], 0b1010);
}

#[test]
fn add_immediate_wraps_without_flag() {
    let mut cpu = cpu_with(0x730A);
    cpu.registers[3] = 250;
    cpu.registers[0xF] = 9;
    OpCode::_7xnn(&mut cpu);
    assert_eq!(cpu.registers[3], 4);
    assert_eq!(cpu.registers[0xF], 9);
}

#[test]
fn bcd_of_edges() {
    for (v, digits) in [(0u8, [0u8, 0, 0]), (255, [2, 5, 5]), (105, [1, 0, 5]), (9, [0, 0, 9])] {
        let mut cpu = cpu_with(0xF233);
        cpu.registers[2] = v;
        cpu.index_register = 0x400;
        OpCode::fx33(&mut cpu).unwrap();
        assert_eq!(cpu.memory.ram[0x400..0x403], digits);
        assert_eq!(cpu.index_register, 0x400);
    }
}

#[test]
fn bcd_out_of_bounds() {
    let mut cpu = cpu_with(0xF233);
    cpu.index_register = 0xFFE;
    assert_eq!(OpCode::fx33(&mut cpu), Err(Chip8Error::OutOfBounds));
    assert_eq!(cpu.memory.ram[0xFFE], 0);
}

#[test]
fn dump_then_load_restores_registers() {
    let mut cpu = cpu_with(0xF355);
    cpu.registers[0..5].copy_from_slice(&[9, 8, 7, 6, 5]);
    cpu.index_register = 0x500;
    OpCode::fx55(&mut cpu).unwrap();
    assert_eq!(cpu.index_register, 0x504);
    cpu.registers = [0; 16];
    cpu.registers[4] = 5;
    cpu.index_register = 0x500;
    cpu.current_opcode = OpCode(0xF365);
    OpCode::fx65(&mut cpu).unwrap();
    assert_eq!(cpu.registers[0..5], [9, 8, 7, 6, 5]);
    assert_eq!(cpu.index_register, 0x504);
}

#[test]
fn dump_out_of_bounds_changes_nothing() {
    let mut cpu = cpu_with(0xF555);
    cpu.registers[0] = 1;
    cpu.index_register = 0xFFC;
    assert_eq!(OpCode::fx55(&mut cpu), Err(Chip8Error::OutOfBounds));
    assert_eq!(cpu.memory.ram[0xFFC], 0);
    assert_eq!(cpu.index_register, 0xFFC);
    cpu.current_opcode = OpCode(0xF565);
    assert_eq!(OpCode::fx65(&mut cpu), Err(Chip8Error::OutOfBounds));
}

#[test]
fn draw_twice_restores_screen() {
    let mut cpu = cpu_with(0xD125);
    cpu.index_register = 0; // glyph 0 of the font
    cpu.registers[1] = 10;
    cpu.registers[2] = 3;
    cpu.memory.gpu.screen[3 * 64 + 10] = true; // under a set bit of the glyph
    cpu.memory.gpu.screen[4 * 64 + 11] = true; // under an unset bit
    let before = cpu.memory.gpu.screen;
    OpCode::dxyn(&mut cpu).unwrap();
    assert_eq!(cpu.registers[0xF], 1);
    assert!(!cpu.memory.gpu.pixel(10, 3));
    assert!(cpu.memory.gpu.pixel(13, 3));
    OpCode::dxyn(&mut cpu).unwrap();
    assert_eq!(cpu.memory.gpu.screen, before);
    assert_eq!(cpu.registers[0xF], 1);
}

#[test]
fn draw_clips_at_edges() {
    let mut cpu = cpu_with(0xD121);
    cpu.index_register = 0x300;
    cpu.memory.ram[0x300] = 0xFF;
    cpu.registers[1] = 60;
    cpu.registers[2] = 31;
    OpCode::dxyn(&mut cpu).unwrap();
    let set: usize = cpu.memory.gpu.screen.iter().filter(|p| **p).count();
    assert_eq!(set, 4);
    assert!(cpu.memory.gpu.pixel(63, 31));
    assert!(!cpu.memory.gpu.pixel(0, 31));
    assert!(!cpu.memory.gpu.pixel(0, 0));

    let mut cpu = cpu_with(0xD121);
    cpu.index_register = 0x300;
    cpu.memory.ram[0x300] = 0xFF;
    cpu.registers[1] = 200;
    OpCode::dxyn(&mut cpu).unwrap();
    assert_eq!(cpu.memory.gpu.screen, [false; 2048]);
    assert_eq!(cpu.registers[0xF], 0);
}

#[test]
fn draw_out_of_bounds() {
    let mut cpu = cpu_with(0xD125);
    cpu.index_register = 0xFFC;
    assert_eq!(OpCode::dxyn(&mut cpu), Err(Chip8Error::OutOfBounds));
}

#[test]
fn clear_screen() {
    let mut gpu = Gpu::new();
    gpu.screen[100] = true;
    OpCode::_00e0(&mut gpu);
    assert_eq!(gpu.screen, [false; 2048]);
}

#[test]
fn call_and_return() {
    let mut cpu = cpu_with(0x2ABC);
    cpu.program_counter = 0x202;
    OpCode::_2nnn(&mut cpu).unwrap();
    assert_eq!(cpu.program_counter, 0xABC);
    assert_eq!(cpu.stack_pointer, 1);
    assert_eq!(cpu.stack[0], 0x202);
    cpu.current_opcode = OpCode(0x00EE);
    OpCode::_00ee(&mut cpu).unwrap();
    assert_eq!(cpu.program_counter, 0x202);
    assert_eq!(cpu.stack_pointer, 0);
}

#[test]
fn return_with_empty_stack() {
    let mut cpu = cpu_with(0x00EE);
    assert_eq!(OpCode::_00ee(&mut cpu), Err(Chip8Error::StackUnderflow));
    assert_eq!(cpu.program_counter, 0x200);
}

#[test]
fn call_past_sixteen_levels() {
    let mut cpu = cpu_with(0x2300);
    for _ in 0..16 {
        OpCode::_2nnn(&mut cpu).unwrap();
    }
    assert_eq!(OpCode::_2nnn(&mut cpu), Err(Chip8Error::StackOverflow));
    assert_eq!(cpu.stack_pointer, 16);
}

#[test]
fn skips_move_the_program_counter() {
    let mut cpu = cpu_with(0x3142);
    cpu.registers[1] = 0x42;
    OpCode::_3xnn(&mut cpu);
    assert_eq!(cpu.program_counter, 0x202);
    assert_eq!(cpu.index_register, 0);
    OpCode::_4xnn(&mut cpu);
    assert_eq!(cpu.program_counter, 0x202);
    cpu.current_opcode = OpCode(0x5120);
    OpCode::_5xy0(&mut cpu);
    assert_eq!(cpu.program_counter, 0x202);
    OpCode::_9xy0(&mut cpu);
    assert_eq!(cpu.program_counter, 0x204);
}

#[test]
fn jumps_and_index() {
    let mut cpu = cpu_with(0x1234);
    OpCode::_1nnn(&mut cpu);
    assert_eq!(cpu.program_counter, 0x234);
    cpu.current_opcode = OpCode(0xB300);
    cpu.registers[0] = 0x10;
    OpCode::bnnn(&mut cpu);
    assert_eq!(cpu.program_counter, 0x310);
    cpu.current_opcode = OpCode(0xA456);
    OpCode::annn(&mut cpu);
    assert_eq!(cpu.index_register, 0x456);
}

#[test]
fn random_is_masked() {
    let mut cpu = cpu_with(0xC30F);
    OpCode::cxnn_with(&mut cpu, 0xAB);
    assert_eq!(cpu.registers[3], 0x0B);
    let mut cpu = cpu_with(0xC300);
    cpu.registers[3] = 0x77;
    OpCode::cxnn(&mut cpu);
    assert_eq!(cpu.registers[3], 0);
}

#[test]
fn keys_skip() {
    let mut cpu = cpu_with(0xE59E);
    cpu.registers[5] = 0xA;
    OpCode::ex9e(&mut cpu);
    assert_eq!(cpu.program_counter, 0x200);
    OpCode::exa1(&mut cpu);
    assert_eq!(cpu.program_counter, 0x202);
    cpu.keypad[0xA] = true;
    OpCode::ex9e(&mut cpu);
    assert_eq!(cpu.program_counter, 0x204);
    OpCode::exa1(&mut cpu);
    assert_eq!(cpu.program_counter, 0x204);
    assert!(cpu.is_key_pressed(0xA));
    assert!(!cpu.is_key_pressed(0x1A));
}

#[test]
fn wait_for_key() {
    let mut emu = emulator_with_program(&[0xF7, 0x0A]);
    emu.cpu.step().unwrap();
    assert_eq!(emu.cpu.program_counter, 0x200);
    assert_eq!(emu.cpu.any_pressed(), None);
    emu.cpu.keypad[9] = true;
    emu.cpu.keypad[3] = true;
    emu.cpu.step().unwrap();
    assert_eq!(emu.cpu.registers[7], 3);
    assert_eq!(emu.cpu.program_counter, 0x202);
}

#[test]
fn timers() {
    let mut cpu = cpu_with(0xF415);
    cpu.registers[4] = 2;
    OpCode::fx15(&mut cpu);
    cpu.current_opcode = OpCode(0xF418);
    OpCode::fx18(&mut cpu);
    assert_eq!((cpu.delay_timer, cpu.sound_timer), (2, 2));
    cpu.tick_timers();
    cpu.sound_timer = 0;
    cpu.tick_timers();
    assert_eq!((cpu.delay_timer, cpu.sound_timer), (0, 0));
    cpu.delay_timer = 40;
    cpu.current_opcode = OpCode(0xF607);
    OpCode::fx07(&mut cpu);
    assert_eq!(cpu.registers[6], 40);
}

#[test]
fn index_add_wraps_at_sixteen_bits() {
    let mut cpu = cpu_with(0xF21E);
    cpu.index_register = 0xFFFF;
    cpu.registers[2] = 2;
    cpu.registers[0xF] = 0;
    OpCode::fx1e(&mut cpu);
    assert_eq!(cpu.index_register, 1);
    assert_eq!(cpu.registers[0xF], 0);
}

#[test]
fn font_address() {
    let mut cpu = cpu_with(0xF229);
    cpu.registers[2] = 0x1A;
    OpCode::fx29(&mut cpu);
    assert_eq!(cpu.index_register, 50);
    assert_eq!(cpu.memory.ram[50..55], FONTS[50..55]);
}

#[test]
fn decode_miss_is_skipped() {
    let mut emu = emulator_with_program(&[0x51, 0x21, 0x61, 0x01]);
    assert_eq!(emu.cpu.step(), Err(Chip8Error::DecodeMiss(0x5121)));
    assert_eq!(emu.cpu.program_counter, 0x202);
    emu.cpu.step().unwrap();
    assert_eq!(emu.cpu.registers[1], 1);
}

#[test]
fn fetch_past_memory_end() {
    let mut emu = Emulator::new();
    emu.cpu.program_counter = 0xFFF;
    assert_eq!(emu.fetch_opcode(), Err(Chip8Error::OutOfBounds));
    assert_eq!(emu.cpu.program_counter, 0xFFF);
    emu.cpu.program_counter = 0xFFE;
    emu.cpu.memory.ram[0xFFE] = 0x12;
    emu.cpu.memory.ram[0xFFF] = 0x34;
    emu.fetch_opcode().unwrap();
    assert_eq!(emu.cpu.current_opcode, OpCode(0x1234));
    assert_eq!(emu.cpu.program_counter, 0x1000);
}

#[test]
fn power_on_state() {
    let emu = Emulator::new();
    assert_eq!(emu.cpu.memory.ram[0..80], FONTS);
    assert_eq!(emu.cpu.memory.ram[0..5], [0xF0, 0x90, 0x90, 0x90, 0xF0]);
    assert!(emu.cpu.memory.ram[80..].iter().all(|b| *b == 0));
    assert_eq!(emu.cpu.program_counter, 0x200);
    assert_eq!(emu.cpu.stack_pointer, 0);
}

#[test]
fn load_font_restores_glyphs() {
    let mut emu = Emulator::new();
    emu.cpu.memory.ram[0..80].fill(0);
    emu.cpu.memory.ram[80] = 7;
    emu.load_font();
    assert_eq!(emu.cpu.memory.ram[0..80], FONTS);
    assert_eq!(emu.cpu.memory.ram[80], 7);
}

#[test]
fn load_rom_copies_and_empties() {
    let mut emu = Emulator::new();
    emu.cpu.memory.rom = vec![1, 2, 3];
    emu.load_rom().unwrap();
    assert_eq!(emu.cpu.memory.ram[0x200..0x204], [1, 2, 3, 0]);
    assert!(emu.cpu.memory.rom.is_empty());

    let mut emu = Emulator::new();
    emu.cpu.memory.rom = vec![0xAA; ROM_MAX_SIZE];
    emu.load_rom().unwrap();
    assert_eq!(emu.cpu.memory.ram[0xFFF], 0xAA);
}

#[test]
fn load_rom_too_large() {
    let mut emu = Emulator::new();
    emu.cpu.memory.rom = vec![0xAA; ROM_MAX_SIZE + 1];
    assert_eq!(emu.load_rom(), Err(Chip8Error::LoadTooLarge));
    assert_eq!(emu.cpu.memory.ram[0x200], 0);
    assert_eq!(emu.cpu.memory.rom.len(), ROM_MAX_SIZE + 1);
}
