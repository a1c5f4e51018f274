use chip8::cpu::CPU;
use chip8::instruction::decode;
use chip8::keypad::scancode_to_hex;
use chip8::state::{Chip8Error, CpuType};
use chip8::timer::{TimerClock, TICK_NANOS};

fn run(cpu: &mut CPU, word: u16) -> Result<bool, Chip8Error> {
    cpu.execute_with(decode(word), 0)
}

fn machine_with(cpu_type: CpuType, program: &[u8]) -> CPU {
    let mut cpu = CPU::initialize(cpu_type);
    cpu.load_program(&program.to_vec()).unwrap();
    cpu
}

#[test]
fn initialize_loads_font_and_start_address() {
    let cpu = CPU::initialize(CpuType::Chip8);
    assert_eq!(cpu.pc, 0x200);
    assert_eq!(cpu.memory.len(), 4096);
    assert_eq!(&cpu.memory[0..5], &[0xF0, 0x90, 0x90, 0x90, 0xF0]);
    assert_eq!(&cpu.memory[75..80], &[0xF0, 0x80, 0xF0, 0x80, 0x80]);
    assert!(cpu.memory[80..].iter().all(|&b| b == 0));
    assert!(cpu.gfx.iter().all(|&p| p == 0));
    assert_eq!(cpu.v, vec![0u8; 16]);
    assert!(cpu.stack.is_empty());
}

#[test]
fn decode_splits_all_fields() {
    let ins = decode(0xD1A5);
    assert_eq!((ins.op, ins.x, ins.y, ins.n, ins.nn, ins.nnn), (0xD, 0x1, 0xA, 0x5, 0xA5, 0x1A5));
}

#[test]
fn load_program_places_bytes_at_load_address() {
    let cpu = machine_with(CpuType::Chip8, &[0xAB, 0xCD]);
    assert_eq!(cpu.memory[0x200], 0xAB);
    assert_eq!(cpu.memory[0x201], 0xCD);
    assert_eq!(cpu.memory[0x202], 0);
}

#[test]
fn load_program_refuses_oversized_image() {
    let mut cpu = CPU::initialize(CpuType::Chip8);
    assert_eq!(cpu.load_program(&vec![1u8; 4096 - 0x200 + 1]), Err(Chip8Error::ProgramTooLarge));
    assert_eq!(cpu.memory[0x200], 0);
    assert_eq!(cpu.load_program(&vec![1u8; 4096 - 0x200]), Ok(()));
    assert_eq!(cpu.memory[4095], 1);
}

#[test]
fn skip_scenario_reaches_0x206() {
    let mut cpu = machine_with(CpuType::Chip8, &[0x60, 0x14, 0x30, 0x14, 0x12, 0x04]);
    assert_eq!(cpu.step(), Ok(true));
    assert_eq!(cpu.v[0], 0x14);
    assert_eq!(cpu.pc, 0x202);
    assert_eq!(cpu.step(), Ok(true));
    assert_eq!(cpu.pc, 0x206);
    assert_eq!(cpu.step(), Ok(false));
    assert_eq!(cpu.pc, 0x208);
}

#[test]
fn jump_loop_stays_in_place() {
    let mut cpu = machine_with(CpuType::Chip8, &[0x12, 0x00]);
    for _ in 0..5 {
        assert_eq!(cpu.step(), Ok(true));
        assert_eq!(cpu.pc, 0x200);
    }
}

#[test]
fn clear_then_draw_font_zero_at_origin() {
    let mut cpu = CPU::initialize(CpuType::Chip8);
    cpu.gfx[100] = 1;
    assert_eq!(run(&mut cpu, 0x00E0), Ok(true));
    assert!(cpu.gfx.iter().all(|&p| p == 0));
    assert!(cpu.draw_flag);
    cpu.draw_flag = false;
    // I = 0 points at the glyph of digit 0; V0 = V1 = 0.
    assert_eq!(run(&mut cpu, 0xA000), Ok(true));
    assert_eq!(run(&mut cpu, 0xD015), Ok(true));
    assert_eq!(cpu.v[0xF], 0);
    assert!(cpu.draw_flag);
    let glyph = [0xF0u8, 0x90, 0x90, 0x90, 0xF0];
    for y in 0..32 {
        for x in 0..64 {
            let expected = if y < 5 && x < 8 && glyph[y] & (0x80 >> x) != 0 { 1 } else { 0 };
            assert_eq!(cpu.gfx[x + 64 * y], expected, "pixel ({}, {})", x, y);
        }
    }
}

#[test]
fn draw_twice_restores_screen_and_reports_collision() {
    let mut cpu = CPU::initialize(CpuType::Chip8);
    cpu.v[2] = 10;
    cpu.v[3] = 7;
    cpu.gfx[10 + 64 * 7] = 1;
    let before = cpu.gfx.clone();
    cpu.i = 5; // glyph of digit 1
    assert_eq!(run(&mut cpu, 0xD235), Ok(true));
    // Row 0 of glyph 1 is 0x20: bit 2 lands on x = 12, not on the lit pixel.
    assert_eq!(cpu.v[0xF], 0);
    assert_ne!(cpu.gfx, before);
    assert_eq!(run(&mut cpu, 0xD235), Ok(true));
    assert_eq!(cpu.v[0xF], 1);
    assert_eq!(cpu.gfx, before);
}

#[test]
fn draw_collision_sets_flag_on_lit_pixel() {
    let mut cpu = CPU::initialize(CpuType::Chip8);
    cpu.gfx[0] = 1;
    assert_eq!(run(&mut cpu, 0xD011), Ok(true));
    assert_eq!(cpu.v[0xF], 1);
    assert_eq!(cpu.gfx[0], 0);
}

#[test]
fn draw_clips_on_legacy_and_wraps_on_xo() {
    for (cpu_type, wraps) in [(CpuType::Chip8, false), (CpuType::Schip, false), (CpuType::XoChip, true)] {
        let mut cpu = CPU::initialize(cpu_type);
        cpu.v[0] = 60;
        cpu.v[1] = 30;
        cpu.i = 0; // glyph 0: 0xF0, 0x90, ...
        assert_eq!(run(&mut cpu, 0xD013), Ok(true));
        assert_eq!(cpu.gfx[60 + 64 * 30], 1);
        assert_eq!(cpu.gfx[63 + 64 * 31], 1);
        // Row 2 would land on y = 32, which wraps to y = 0.
        assert_eq!(cpu.gfx[60], if wraps { 1 } else { 0 });
        assert_eq!(cpu.gfx[63], if wraps { 1 } else { 0 });
        assert_eq!(cpu.gfx.iter().filter(|&&p| p == 1).count(), if wraps { 8 } else { 6 });
    }
}

#[test]
fn draw_reads_coordinates_modulo_screen() {
    let mut cpu = CPU::initialize(CpuType::Chip8);
    cpu.v[0] = 64 + 3;
    cpu.v[1] = 32 + 2;
    cpu.i = 0;
    assert_eq!(run(&mut cpu, 0xD011), Ok(true));
    assert_eq!(cpu.gfx[3 + 64 * 2], 1);
}

#[test]
fn draw_past_memory_end_is_an_error() {
    let mut cpu = CPU::initialize(CpuType::Chip8);
    cpu.i = 4094;
    let before = cpu.gfx.clone();
    assert_eq!(run(&mut cpu, 0xD003), Err(Chip8Error::MemoryOutOfBounds));
    assert_eq!(cpu.gfx, before);
    assert!(!cpu.draw_flag);
    assert_eq!(run(&mut cpu, 0xD002), Ok(true));
}

#[test]
fn add_sets_carry_flag() {
    let mut cpu = CPU::initialize(CpuType::Chip8);
    cpu.v[1] = 200;
    cpu.v[2] = 100;
    assert_eq!(run(&mut cpu, 0x8124), Ok(true));
    assert_eq!(cpu.v[1], 44);
    assert_eq!(cpu.v[0xF], 1);
    cpu.v[1] = 155;
    cpu.v[2] = 100;
    assert_eq!(run(&mut cpu, 0x8124), Ok(true));
    assert_eq!(cpu.v[1], 255);
    assert_eq!(cpu.v[0xF], 0);
}

#[test]
fn add_with_vf_as_target_keeps_flag() {
    let mut cpu = CPU::initialize(CpuType::Chip8);
    cpu.v[0xF] = 250;
    cpu.v[1] = 10;
    assert_eq!(run(&mut cpu, 0x8F14), Ok(true));
    assert_eq!(cpu.v[0xF], 1);
}

#[test]
fn sub_sets_no_borrow_flag() {
    let mut cpu = CPU::initialize(CpuType::Chip8);
    cpu.v[1] = 5;
    cpu.v[2] = 5;
    assert_eq!(run(&mut cpu, 0x8125), Ok(true));
    assert_eq!(cpu.v[1], 0);
    assert_eq!(cpu.v[0xF], 1);
    cpu.v[1] = 3;
    cpu.v[2] = 5;
    assert_eq!(run(&mut cpu, 0x8125), Ok(true));
    assert_eq!(cpu.v[1], 254);
    assert_eq!(cpu.v[0xF], 0);
}

#[test]
fn subn_sets_no_borrow_flag() {
    let mut cpu = CPU::initialize(CpuType::Chip8);
    cpu.v[1] = 3;
    cpu.v[2] = 5;
    assert_eq!(run(&mut cpu, 0x8127), Ok(true));
    assert_eq!(cpu.v[1], 2);
    assert_eq!(cpu.v[0xF], 1);
    cpu.v[1] = 6;
    assert_eq!(run(&mut cpu, 0x8127), Ok(true));
    assert_eq!(cpu.v[1], 255);
    assert_eq!(cpu.v[0xF], 0);
}

#[test]
fn bitwise_ops_clear_vf() {
    let mut cpu = CPU::initialize(CpuType::Chip8);
    cpu.v[1] = 0b1100;
    cpu.v[2] = 0b1010;
    cpu.v[0xF] = 9;
    assert_eq!(run(&mut cpu, 0x8121), Ok(true));
    assert_eq!(cpu.v[1], 0b1110);
    assert_eq!(cpu.v[0xF], 0);
    cpu.v[1] = 0b1100;
    cpu.v[0xF] = 9;
    assert_eq!(run(&mut cpu, 0x8122), Ok(true));
    assert_eq!(cpu.v[1], 0b1000);
    assert_eq!(cpu.v[0xF], 0);
    cpu.v[1] = 0b1100;
    cpu.v[0xF] = 9;
    assert_eq!(run(&mut cpu, 0x8123), Ok(true));
    assert_eq!(cpu.v[1], 0b0110);
    assert_eq!(cpu.v[0xF], 0);
    assert_eq!(run(&mut cpu, 0x8120), Ok(true));
    assert_eq!(cpu.v[1], 0b1010);
}

#[test]
fn shifts_read_vy_except_on_super_chip() {
    let mut legacy = CPU::initialize(CpuType::Chip8);
    legacy.v[1] = 0x80;
    legacy.v[2] = 0x03;
    assert_eq!(run(&mut legacy, 0x8126), Ok(true));
    assert_eq!(legacy.v[1], 0x01);
    assert_eq!(legacy.v[0xF], 1);
    let mut schip = CPU::initialize(CpuType::Schip);
    schip.v[1] = 0x80;
    schip.v[2] = 0x03;
    assert_eq!(run(&mut schip, 0x8126), Ok(true));
    assert_eq!(schip.v[1], 0x40);
    assert_eq!(schip.v[0xF], 0);
    let mut xo = CPU::initialize(CpuType::XoChip);
    xo.v[1] = 0x01;
    xo.v[2] = 0x81;
    assert_eq!(run(&mut xo, 0x812E), Ok(true));
    assert_eq!(xo.v[1], 0x02);
    assert_eq!(xo.v[0xF], 1);
    let mut schip = CPU::initialize(CpuType::Schip);
    schip.v[1] = 0x41;
    schip.v[2] = 0xFF;
    assert_eq!(run(&mut schip, 0x812E), Ok(true));
    assert_eq!(schip.v[1], 0x82);
    assert_eq!(schip.v[0xF], 0);
}

#[test]
fn jump_with_offset_depends_on_dialect() {
    let mut legacy = CPU::initialize(CpuType::Chip8);
    legacy.v[0] = 4;
    legacy.v[3] = 100;
    assert_eq!(run(&mut legacy, 0xB300), Ok(true));
    assert_eq!(legacy.pc, 0x304);
    for cpu_type in [CpuType::Schip, CpuType::XoChip] {
        let mut cpu = CPU::initialize(cpu_type);
        cpu.v[0] = 4;
        cpu.v[3] = 100;
        assert_eq!(run(&mut cpu, 0xB300), Ok(true));
        assert_eq!(cpu.pc, 0x300 + 100);
    }
}

#[test]
fn store_then_load_restores_registers() {
    for cpu_type in [CpuType::Chip8, CpuType::Schip, CpuType::XoChip] {
        let mut cpu = CPU::initialize(cpu_type);
        for r in 0..16 {
            cpu.v[r] = (r as u8) * 7 + 1;
        }
        let saved = cpu.v.clone();
        cpu.i = 0x300;
        assert_eq!(run(&mut cpu, 0xF555), Ok(true));
        assert_eq!(&cpu.memory[0x300..0x306], &saved[0..6]);
        assert_eq!(cpu.memory[0x306], 0);
        assert_eq!(cpu.i, if cpu_type == CpuType::XoChip { 0x301 } else { 0x300 });
        for r in 0..=5 {
            cpu.v[r] = 0;
        }
        cpu.i = 0x300;
        assert_eq!(run(&mut cpu, 0xF565), Ok(true));
        assert_eq!(cpu.v, saved);
    }
}

#[test]
fn bulk_transfer_past_memory_end_is_an_error() {
    let mut cpu = CPU::initialize(CpuType::Chip8);
    cpu.i = 4090;
    assert_eq!(run(&mut cpu, 0xF655), Err(Chip8Error::MemoryOutOfBounds));
    assert_eq!(run(&mut cpu, 0xF665), Err(Chip8Error::MemoryOutOfBounds));
    assert_eq!(run(&mut cpu, 0xF555), Ok(true));
}

#[test]
fn bcd_stores_three_digits() {
    let mut cpu = CPU::initialize(CpuType::Chip8);
    cpu.v[4] = 254;
    cpu.i = 0x400;
    assert_eq!(run(&mut cpu, 0xF433), Ok(true));
    assert_eq!(&cpu.memory[0x400..0x403], &[2, 5, 4]);
    cpu.i = 4094;
    assert_eq!(run(&mut cpu, 0xF433), Err(Chip8Error::MemoryOutOfBounds));
}

#[test]
fn font_address_is_five_times_digit() {
    let mut cpu = CPU::initialize(CpuType::Chip8);
    cpu.v[2] = 0xA;
    assert_eq!(run(&mut cpu, 0xF229), Ok(true));
    assert_eq!(cpu.i, 50);
    assert_eq!(&cpu.memory[50..55], &[0xF0, 0x90, 0xF0, 0x90, 0x90]);
}

#[test]
fn call_and_return() {
    let mut cpu = machine_with(CpuType::Chip8, &[0x23, 0x00]);
    cpu.memory[0x300] = 0x00;
    cpu.memory[0x301] = 0xEE;
    assert_eq!(cpu.step(), Ok(true));
    assert_eq!(cpu.pc, 0x300);
    assert_eq!(cpu.stack, vec![0x202]);
    assert_eq!(cpu.step(), Ok(true));
    assert_eq!(cpu.pc, 0x202);
    assert!(cpu.stack.is_empty());
}

#[test]
fn return_on_empty_stack_is_an_error() {
    let mut cpu = CPU::initialize(CpuType::Chip8);
    assert_eq!(run(&mut cpu, 0x00EE), Err(Chip8Error::StackUnderflow));
}

#[test]
fn fetch_past_memory_end_is_an_error() {
    let mut cpu = CPU::initialize(CpuType::Chip8);
    cpu.pc = 4095;
    assert_eq!(cpu.fetch(), Err(Chip8Error::MemoryOutOfBounds));
    assert_eq!(cpu.step(), Err(Chip8Error::MemoryOutOfBounds));
    cpu.pc = 4094;
    assert_eq!(cpu.fetch(), Ok(0));
    assert_eq!(cpu.pc, 4096);
}

#[test]
fn skips_on_register_comparisons() {
    let mut cpu = CPU::initialize(CpuType::Chip8);
    cpu.v[1] = 7;
    cpu.v[2] = 7;
    assert_eq!(run(&mut cpu, 0x3107), Ok(true));
    assert_eq!(cpu.pc, 0x202);
    assert_eq!(run(&mut cpu, 0x4107), Ok(true));
    assert_eq!(cpu.pc, 0x202);
    assert_eq!(run(&mut cpu, 0x5120), Ok(true));
    assert_eq!(cpu.pc, 0x204);
    assert_eq!(run(&mut cpu, 0x9120), Ok(true));
    assert_eq!(cpu.pc, 0x204);
    assert_eq!(run(&mut cpu, 0x4108), Ok(true));
    assert_eq!(cpu.pc, 0x206);
}

#[test]
fn key_skips_follow_held_keys() {
    let mut cpu = CPU::initialize(CpuType::Chip8);
    cpu.v[1] = 0xA;
    assert_eq!(run(&mut cpu, 0xE19E), Ok(true));
    assert_eq!(cpu.pc, 0x200);
    assert_eq!(run(&mut cpu, 0xE1A1), Ok(true));
    assert_eq!(cpu.pc, 0x202);
    cpu.keys_held[0xA] = true;
    assert_eq!(run(&mut cpu, 0xE19E), Ok(true));
    assert_eq!(cpu.pc, 0x204);
    assert_eq!(run(&mut cpu, 0xE1A1), Ok(true));
    assert_eq!(cpu.pc, 0x204);
}

#[test]
fn key_wait_rewinds_until_a_key_arrives() {
    let mut cpu = machine_with(CpuType::Chip8, &[0xF3, 0x0A]);
    assert_eq!(cpu.step(), Ok(true));
    assert_eq!(cpu.pc, 0x200);
    cpu.key_pressed = Some(0xB);
    assert_eq!(cpu.step(), Ok(true));
    assert_eq!(cpu.pc, 0x202);
    assert_eq!(cpu.v[3], 0xB);
}

#[test]
fn timer_registers_and_index_arithmetic() {
    let mut cpu = CPU::initialize(CpuType::Chip8);
    cpu.v[1] = 42;
    assert_eq!(run(&mut cpu, 0xF115), Ok(true));
    assert_eq!(cpu.delay_timer, 42);
    assert_eq!(run(&mut cpu, 0xF118), Ok(true));
    assert_eq!(cpu.sound_timer, 42);
    assert_eq!(run(&mut cpu, 0xF207), Ok(true));
    assert_eq!(cpu.v[2], 42);
    assert_eq!(run(&mut cpu, 0xA123), Ok(true));
    assert_eq!(run(&mut cpu, 0xF11E), Ok(true));
    assert_eq!(cpu.i, 0x123 + 42);
    assert_eq!(run(&mut cpu, 0x71FF), Ok(true));
    assert_eq!(cpu.v[1], 41);
    assert_eq!(cpu.v[0xF], 0);
}

#[test]
fn random_byte_is_masked() {
    let mut cpu = CPU::initialize(CpuType::Chip8);
    cpu.v[5] = 0xFF;
    assert_eq!(cpu.execute(decode(0xC500)), Ok(true));
    assert_eq!(cpu.v[5], 0);
    for _ in 0..20 {
        assert_eq!(cpu.execute(decode(0xC50F)), Ok(true));
        assert!(cpu.v[5] <= 0x0F);
    }
    assert_eq!(cpu.execute_with(decode(0xC53C), 0xFF), Ok(true));
    assert_eq!(cpu.v[5], 0x3C);
}

#[test]
fn unknown_instructions_change_nothing() {
    for word in [0x0123u16, 0x5121, 0x8128, 0x912F, 0xE1FF, 0xF1FF] {
        let mut cpu = CPU::initialize(CpuType::Chip8);
        cpu.v[1] = 3;
        assert_eq!(run(&mut cpu, word), Ok(false));
        assert_eq!(cpu.v[1], 3);
        assert_eq!(cpu.pc, 0x200);
    }
}

#[test]
fn delay_timer_counts_down_to_zero_and_stays() {
    let mut cpu = CPU::initialize(CpuType::Chip8);
    cpu.delay_timer = 5;
    for expected in [4u8, 3, 2, 1, 0] {
        cpu.tick_timers();
        assert_eq!(cpu.delay_timer, expected);
    }
    for _ in 0..3 {
        cpu.tick_timers();
        assert_eq!(cpu.delay_timer, 0);
    }
    assert!(!cpu.sound_flag);
}

#[test]
fn sound_timer_raises_sound_request() {
    let mut cpu = CPU::initialize(CpuType::Chip8);
    cpu.sound_timer = 1;
    cpu.tick_timers();
    assert!(cpu.sound_flag);
    assert_eq!(cpu.sound_timer, 0);
    cpu.sound_flag = false;
    cpu.tick_timers();
    assert!(!cpu.sound_flag);
}

#[test]
fn timer_clock_counts_whole_periods() {
    let mut clock = TimerClock::new();
    assert_eq!(clock.advance(TICK_NANOS - 1), 0);
    assert_eq!(clock.advance(1), 1);
    assert_eq!(clock.pending_nanos, 0);
    assert_eq!(clock.advance(5 * TICK_NANOS + 7), 5);
    assert_eq!(clock.pending_nanos, 7);
    assert_eq!(clock.advance(u64::MAX), (u64::MAX - (TICK_NANOS - 7)) / TICK_NANOS + 1);
}

#[test]
fn scancodes_map_to_keypad() {
    assert_eq!(scancode_to_hex(30), Some(0x1));
    assert_eq!(scancode_to_hex(33), Some(0xC));
    assert_eq!(scancode_to_hex(27), Some(0x0));
    assert_eq!(scancode_to_hex(25), Some(0xF));
    assert_eq!(scancode_to_hex(5), None);
}
