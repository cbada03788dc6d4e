use pitch1002::cpu::{decode, Cpu, Instruction, LoadError, DISPLAY_DATA_LEN, MAX_PROGRAM_LEN, START_PC};
use pitch1002::font::chip_font;

fn loaded(program: &[u8]) -> Cpu {
    let mut cpu = Cpu::default();
    assert_eq!(cpu.load(program), Ok(()));
    cpu
}

fn lit_cells(cpu: &Cpu) -> usize {
    cpu.display.iter().filter(|p| **p).count()
}

#[test]
fn default_has_font_and_zeroed_state() {
    let cpu = Cpu::default();
    let font = chip_font();
    for (k, b) in font.iter().enumerate() {
        assert_eq!(cpu.memory_at(k as u16), *b);
    }
    assert_eq!(cpu.memory_at(0x50), 0);
    assert_eq!(cpu.pc(), 0x200);
    assert_eq!(cpu.index(), 0);
    assert_eq!(cpu.stack_pointer(), 0);
    assert!(!cpu.is_ready());
    for x in 0..16 {
        assert_eq!(cpu.get(x), 0);
    }
    assert_eq!(lit_cells(&cpu), 0);
}

#[test]
fn load_copies_program_at_start() {
    let cpu = loaded(&[0x12, 0x34, 0x56]);
    assert!(cpu.is_ready());
    assert_eq!(cpu.memory_at(START_PC), 0x12);
    assert_eq!(cpu.memory_at(START_PC + 1), 0x34);
    assert_eq!(cpu.memory_at(START_PC + 2), 0x56);
    assert_eq!(cpu.memory_at(START_PC + 3), 0);
}

#[test]
fn load_accepts_largest_program() {
    let program = vec![0xAB; MAX_PROGRAM_LEN];
    let cpu = loaded(&program);
    assert_eq!(cpu.memory_at(0xFFF), 0xAB);
}

#[test]
fn load_rejects_oversized_program_without_writing() {
    let mut cpu = Cpu::default();
    let program = vec![0xAB; MAX_PROGRAM_LEN + 1];
    assert_eq!(cpu.load(&program), Err(LoadError::OversizedProgram));
    assert_eq!(cpu.memory_at(START_PC), 0);
    assert!(!cpu.is_ready());
}

#[test]
fn restart_keeps_memory_and_unload_clears_it() {
    let mut cpu = loaded(&[0x60, 0x2A, 0x12, 0x00]);
    cpu.step();
    assert_eq!(cpu.get(0), 0x2A);
    cpu.restart();
    assert_eq!(cpu.get(0), 0);
    assert_eq!(cpu.pc(), 0x200);
    assert_eq!(cpu.memory_at(0x200), 0x60);
    cpu.unload();
    assert_eq!(cpu.memory_at(0x200), 0);
    assert!(!cpu.is_ready());
    assert_eq!(cpu.memory_at(0), chip_font()[0]);
}

#[test]
fn decode_splits_words() {
    assert_eq!(decode(0x00E0), Instruction::Clear);
    assert_eq!(decode(0x00EE), Instruction::Return);
    assert_eq!(decode(0x0123), Instruction::Sys { nnn: 0x123 });
    assert_eq!(decode(0x1ABC), Instruction::Jump { nnn: 0xABC });
    assert_eq!(decode(0xD125), Instruction::Draw { x: 1, y: 2, n: 5 });
    assert_eq!(decode(0x8AB7), Instruction::SubRev { x: 0xA, y: 0xB });
    assert_eq!(decode(0x8ABE), Instruction::ShiftLeft { x: 0xA });
    assert_eq!(decode(0x9AB1), Instruction::Unknown { word: 0x9AB1 });
    assert_eq!(decode(0xF50A), Instruction::WaitKey { x: 5 });
    assert_eq!(decode(0xE39E), Instruction::SkipPressed { x: 3 });
    assert_eq!(decode(0xFF65), Instruction::LoadRegs { x: 0xF });
    assert_eq!(decode(0xC3F0), Instruction::Random { x: 3, kk: 0xF0 });
    assert_eq!(decode(0xF999), Instruction::Unknown { word: 0xF999 });
}

#[test]
fn step_advances_or_jumps() {
    // 0x200: V1 = 0x10; 0x202: unknown; 0x204: jump 0x300
    let mut cpu = loaded(&[0x61, 0x10, 0xF1, 0xFF, 0x13, 0x00]);
    cpu.step();
    assert_eq!(cpu.get(1), 0x10);
    assert_eq!(cpu.pc(), 0x202);
    cpu.step();
    assert_eq!(cpu.pc(), 0x204);
    cpu.step();
    assert_eq!(cpu.pc(), 0x300);
}

#[test]
fn skip_adds_two_more() {
    // 0x200: V0 = 7; 0x202: skip if V0 == 7
    let mut cpu = loaded(&[0x60, 0x07, 0x30, 0x07]);
    cpu.step();
    cpu.step();
    assert_eq!(cpu.pc(), 0x206);
    let mut cpu = loaded(&[0x60, 0x07, 0x40, 0x07]);
    cpu.step();
    cpu.step();
    assert_eq!(cpu.pc(), 0x204);
}

#[test]
fn clear_turns_every_cell_off_and_flags_change() {
    let mut cpu = Cpu::default();
    cpu.execute(0xA000);
    cpu.draw(0, 0, 5);
    assert!(lit_cells(&cpu) > 0);
    cpu.display_changed = false;
    cpu.clear();
    assert_eq!(lit_cells(&cpu), 0);
    assert!(cpu.display_changed);
}

#[test]
fn draw_font_glyph_zero() {
    let mut cpu = Cpu::default();
    cpu.set(0, 0);
    cpu.set_i_sprite(0);
    cpu.draw(0, 0, 5);
    // top row 0xF0: four pixels on, then off
    assert!(cpu.display[0] && cpu.display[1] && cpu.display[2] && cpu.display[3]);
    assert!(!cpu.display[4]);
    // second row 0x90
    assert!(cpu.display[64] && !cpu.display[65] && !cpu.display[66] && cpu.display[67]);
    assert_eq!(lit_cells(&cpu), 14);
    assert_eq!(cpu.get(0xF), 0);
    assert!(cpu.display_changed);
}

#[test]
fn draw_wraps_around_edges() {
    let mut cpu = Cpu::default();
    cpu.set(1, 62);
    cpu.set(2, 31);
    cpu.set_i_sprite(0);
    cpu.draw(1, 2, 2);
    // row 31: columns 62, 63, 0, 1
    let row31 = 31 * 64;
    assert!(cpu.display[row31 + 62] && cpu.display[row31 + 63]);
    assert!(cpu.display[row31] && cpu.display[row31 + 1]);
    // row 0 (wrapped): 0x90 -> columns 62 and 1
    assert!(cpu.display[62] && cpu.display[1] && !cpu.display[63] && !cpu.display[0]);
}

#[test]
fn draw_twice_restores_display_and_reports_collision() {
    let mut cpu = Cpu::default();
    cpu.set(1, 10);
    cpu.set(2, 5);
    cpu.set(3, 8);
    cpu.set_i_sprite(3);
    cpu.draw(1, 2, 5);
    let after_first = cpu.display;
    assert_eq!(cpu.get(0xF), 0);
    cpu.draw(1, 2, 5);
    assert_eq!(cpu.get(0xF), 1);
    assert!(cpu.display.iter().all(|p| !*p));
    assert_ne!(after_first, cpu.display);
}

#[test]
fn draw_twice_on_covered_pixels_keeps_earlier_display() {
    let mut cpu = Cpu::default();
    cpu.set_i_sprite(0);
    cpu.draw(0, 0, 5);
    let before = cpu.display;
    cpu.set(1, 2);
    cpu.set(2, 1);
    cpu.draw(1, 2, 5);
    assert_eq!(cpu.get(0xF), 1);
    cpu.draw(1, 2, 5);
    assert_eq!(cpu.display, before);
    assert_eq!(cpu.get(0xF), 1);
}

#[test]
fn add_vx_byte_wraps_and_leaves_vf() {
    let mut cpu = Cpu::default();
    cpu.set(2, 0xFF);
    cpu.set(0xF, 0x33);
    cpu.add_vx_byte(2, 0x02);
    assert_eq!(cpu.get(2), 0x01);
    assert_eq!(cpu.get(0xF), 0x33);
}

#[test]
fn add_vx_vy_sets_carry() {
    let mut cpu = Cpu::default();
    cpu.set(1, 200);
    cpu.set(2, 100);
    cpu.add_vx_vy(1, 2);
    assert_eq!(cpu.get(1), 44);
    assert_eq!(cpu.get(0xF), 1);
    cpu.add_vx_vy(1, 2);
    assert_eq!(cpu.get(1), 144);
    assert_eq!(cpu.get(0xF), 0);
}

#[test]
fn sub_vx_vy_borrow_flag() {
    let mut cpu = Cpu::default();
    cpu.set(1, 3);
    cpu.set(2, 5);
    cpu.sub_vx_vy(1, 2);
    assert_eq!(cpu.get(1), 0xFE);
    assert_eq!(cpu.get(0xF), 0);
    cpu.set(1, 5);
    cpu.sub_vx_vy(1, 2);
    assert_eq!(cpu.get(1), 0);
    assert_eq!(cpu.get(0xF), 1);
    cpu.set(1, 9);
    cpu.sub_vx_vy(1, 2);
    assert_eq!(cpu.get(1), 4);
    assert_eq!(cpu.get(0xF), 1);
}

#[test]
fn sub_vy_vx_borrow_flag() {
    let mut cpu = Cpu::default();
    cpu.set(1, 5);
    cpu.set(2, 3);
    cpu.sub_vy_vx(2, 1);
    assert_eq!(cpu.get(1), 0xFE);
    assert_eq!(cpu.get(0xF), 0);
}

#[test]
fn flag_register_as_operand_ends_with_flag() {
    let mut cpu = Cpu::default();
    cpu.set(0xF, 200);
    cpu.set(1, 100);
    cpu.add_vx_vy(0xF, 1);
    assert_eq!(cpu.get(0xF), 1);
}

#[test]
fn shifts_store_raw_bit() {
    let mut cpu = Cpu::default();
    cpu.set(4, 0x81);
    cpu.shift_left(4);
    assert_eq!(cpu.get(4), 0x02);
    assert_eq!(cpu.get(0xF), 0x80);
    cpu.set(4, 0x81);
    cpu.shift_right(4);
    assert_eq!(cpu.get(4), 0x40);
    assert_eq!(cpu.get(0xF), 0x01);
    cpu.set(4, 0x02);
    cpu.shift_right(4);
    assert_eq!(cpu.get(0xF), 0x00);
}

#[test]
fn bitwise_ops() {
    let mut cpu = Cpu::default();
    cpu.set(1, 0b1100);
    cpu.set(2, 0b1010);
    cpu.or(1, 2);
    assert_eq!(cpu.get(1), 0b1110);
    cpu.set(1, 0b1100);
    cpu.and(1, 2);
    assert_eq!(cpu.get(1), 0b1000);
    cpu.set(1, 0b1100);
    cpu.xor(1, 2);
    assert_eq!(cpu.get(1), 0b0110);
    cpu.set_vx_vy(3, 2);
    assert_eq!(cpu.get(3), 0b1010);
}

#[test]
fn rand_is_masked() {
    let mut cpu = Cpu::default();
    cpu.rand(1, 0x00);
    assert_eq!(cpu.get(1), 0);
    for _ in 0..50 {
        cpu.step();
        cpu.rand(1, 0x0F);
        assert!(cpu.get(1) <= 0x0F);
    }
}

#[test]
fn index_ops() {
    let mut cpu = Cpu::default();
    cpu.execute(0xAFFF);
    assert_eq!(cpu.index(), 0xFFF);
    cpu.set(1, 0x10);
    cpu.add_i_vx(1);
    assert_eq!(cpu.index(), 0x100F);
    cpu.set(1, 0xF);
    cpu.set_i_sprite(1);
    assert_eq!(cpu.index(), 75);
}

#[test]
fn timer_registers() {
    let mut cpu = Cpu::default();
    cpu.set(1, 9);
    cpu.execute(0xF115);
    cpu.execute(0xF118);
    assert_eq!(cpu.delay_timer(), 9);
    assert_eq!(cpu.st, 9);
    cpu.step_timers();
    cpu.execute(0xF207);
    assert_eq!(cpu.get(2), 8);
}

#[test]
fn delay_timer_counts_down_to_zero_and_stays() {
    let mut cpu = Cpu::default();
    cpu.set(0, 5);
    cpu.execute(0xF015);
    assert_eq!(cpu.delay_timer(), 5);
    assert_eq!(cpu.st, 0);
    for expected in [4, 3, 2, 1, 0] {
        cpu.step_timers();
        assert_eq!(cpu.delay_timer(), expected);
        assert_eq!(cpu.st, 0);
    }
    for _ in 0..3 {
        cpu.step_timers();
        assert_eq!(cpu.delay_timer(), 0);
        assert_eq!(cpu.st, 0);
    }
}

#[test]
fn store_bcd_of_230() {
    let mut cpu = Cpu::default();
    cpu.set(3, 230);
    cpu.execute(0xA300);
    cpu.store_bcd(3);
    assert_eq!(cpu.memory_at(0x300), 2);
    assert_eq!(cpu.memory_at(0x301), 3);
    assert_eq!(cpu.memory_at(0x302), 0);
    assert_eq!(cpu.index(), 0x300);
}

#[test]
fn store_bcd_wraps_at_end_of_memory() {
    let mut cpu = Cpu::default();
    cpu.set(3, 147);
    cpu.execute(0xAFFF);
    cpu.store_bcd(3);
    assert_eq!(cpu.memory_at(0xFFF), 1);
    assert_eq!(cpu.memory_at(0x000), 4);
    assert_eq!(cpu.memory_at(0x001), 7);
}

#[test]
fn store_then_read_through_round_trip() {
    let mut cpu = Cpu::default();
    let values = [9u8, 8, 7, 6, 5, 250];
    for (k, v) in values.iter().enumerate() {
        cpu.set(k as u8, *v);
    }
    cpu.set(6, 0x77);
    cpu.execute(0xA400);
    cpu.store_through(5);
    assert_eq!(cpu.index(), 0x400);
    assert_eq!(cpu.memory_at(0x406), 0);
    for x in 0..16 {
        cpu.set(x, 0);
    }
    cpu.read_through(5);
    for (k, v) in values.iter().enumerate() {
        assert_eq!(cpu.get(k as u8), *v);
    }
    assert_eq!(cpu.get(6), 0);
}

#[test]
fn seventeen_calls_then_seventeen_returns() {
    let mut cpu = Cpu::default();
    let mut pushed = vec![];
    for k in 0..17u16 {
        pushed.push(cpu.pc());
        cpu.call(0x300 + 2 * k);
        assert!(cpu.stack_pointer() <= 15);
    }
    assert_eq!(cpu.stack_pointer(), 15);
    assert_eq!(cpu.pc(), 0x320);
    // slot 15 was written twice; the returns walk down slots 14..0
    for k in (0..15).rev() {
        cpu.ret();
        assert_eq!(cpu.pc(), pushed[k]);
        assert_eq!(cpu.stack_pointer() as usize, k);
    }
    cpu.ret();
    assert_eq!(cpu.pc(), pushed[0]);
    cpu.ret();
    assert_eq!(cpu.pc(), pushed[0]);
    assert_eq!(cpu.stack_pointer(), 0);
}

#[test]
fn call_and_return_through_program() {
    // 0x200: call 0x206; 0x202: V1 = 1; 0x204: jump 0x204; 0x206: V2 = 2; 0x208: return
    let mut cpu = loaded(&[0x22, 0x06, 0x61, 0x01, 0x12, 0x04, 0x62, 0x02, 0x00, 0xEE]);
    cpu.step();
    assert_eq!(cpu.pc(), 0x206);
    cpu.step();
    cpu.step();
    assert_eq!(cpu.pc(), 0x202);
    cpu.step();
    assert_eq!(cpu.get(1), 1);
    assert_eq!(cpu.get(2), 2);
}

#[test]
fn key_wait_blocks_until_press() {
    // 0x200: wait key into V5; 0x202: V6 = 0x42
    let mut cpu = loaded(&[0xF5, 0x0A, 0x66, 0x42]);
    cpu.step();
    assert_eq!(cpu.waiting_for_key(), Some(5));
    let pc = cpu.pc();
    for _ in 0..10 {
        cpu.step();
        assert_eq!(cpu.pc(), pc);
    }
    assert_eq!(cpu.get(6), 0);
    cpu.button_pressed(0xB);
    assert_eq!(cpu.get(5), 0xB);
    assert_eq!(cpu.waiting_for_key(), None);
    cpu.step();
    assert_eq!(cpu.get(6), 0x42);
    assert_eq!(cpu.pc(), pc + 2);
}

#[test]
fn key_skips_read_latch() {
    let mut cpu = Cpu::default();
    cpu.set(1, 0xA);
    cpu.skip_pressed(1);
    assert_eq!(cpu.pc(), 0x200);
    cpu.skip_not_pressed(1);
    assert_eq!(cpu.pc(), 0x202);
    cpu.button_pressed(0xA);
    cpu.skip_pressed(1);
    assert_eq!(cpu.pc(), 0x204);
    cpu.button_released(0xA);
    cpu.skip_pressed(1);
    assert_eq!(cpu.pc(), 0x204);
}

#[test]
fn key_codes_above_f_are_clamped() {
    let mut cpu = Cpu::default();
    cpu.button_pressed(0x20);
    cpu.set(1, 0xF);
    cpu.skip_pressed(1);
    assert_eq!(cpu.pc(), 0x202);
    cpu.set(1, 0x99);
    cpu.skip_pressed(1);
    assert_eq!(cpu.pc(), 0x204);
}

#[test]
fn jump_with_v0_offset() {
    let mut cpu = loaded(&[0x60, 0x05, 0xB3, 0x00]);
    cpu.step();
    cpu.step();
    assert_eq!(cpu.pc(), 0x305);
}

#[test]
fn display_buffer_size() {
    let cpu = Cpu::default();
    assert_eq!(cpu.display.len(), DISPLAY_DATA_LEN);
    assert_eq!(DISPLAY_DATA_LEN, 64 * 32);
}
