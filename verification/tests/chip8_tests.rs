use libchip8::chip8::Chip8;
use libchip8::chip8::Chip8Error;

fn machine(rom: Vec<u8>) -> Chip8 {
    Chip8::new(&rom).expect("rom fits")
}

#[test]
fn construction_loads_font_program_and_zeroes() {
    let c = machine(vec![0x12, 0x34]);
    assert_eq!(c.ram.len(), 4096);
    assert_eq!(c.ram[0], 0xF0);
    assert_eq!(c.ram[4], 0xF0);
    assert_eq!(c.ram[79], 0x80);
    for i in 80..0x200 {
        assert_eq!(c.ram[i], 0);
    }
    assert_eq!(c.ram[0x200], 0x12);
    assert_eq!(c.ram[0x201], 0x34);
    for i in 0x202..4096 {
        assert_eq!(c.ram[i], 0);
    }
    assert_eq!(c.PC, 0x200);
    assert_eq!(c.SP, 0);
    assert_eq!(c.I, 0);
    assert!(c.screen.iter().all(|&p| p == 0));
    assert!(c.V.iter().all(|&v| v == 0));
    assert!(!c.draw_flag);
}

#[test]
fn construction_rejects_oversized_rom() {
    assert_eq!(Chip8::new(&vec![0u8; 3585]).err(), Some(Chip8Error::RomTooBig));
    assert!(Chip8::new(&vec![0u8; 3584]).is_ok());
    assert!(Chip8::new(&vec![]).is_ok());
}

#[test]
fn set_vx_loads_value_and_advances_pc() {
    let mut c = machine(vec![0x60, 0x42]);
    let r = c.emulate_cycle();
    assert!(r.is_ok());
    assert_eq!(c.V[0], 0x42);
    assert_eq!(c.PC, 0x202);
}

#[test]
fn fetch_composes_big_endian_word() {
    let mut c = machine(vec![0x12, 0x34]);
    c.emulate_cycle().expect("jump executes");
    assert_eq!(c.PC, 0x234);
}

#[test]
fn add_vy_to_vx_with_carry() {
    let mut c = machine(vec![]);
    c.V[3] = 200;
    c.V[4] = 100;
    c.execute_add_Vy_to_Vx(3, 4);
    assert_eq!(c.V[3], 44); // (200 + 100) mod 256
    assert_eq!(c.V[15], 1);
    assert_eq!(c.PC, 0x202);
}

#[test]
fn add_vy_to_vx_without_carry() {
    let mut c = machine(vec![]);
    c.V[3] = 20;
    c.V[4] = 100;
    c.execute_add_Vy_to_Vx(3, 4);
    assert_eq!(c.V[3], 120);
    assert_eq!(c.V[15], 0);
}

#[test]
fn add_flag_write_is_last_when_vx_is_vf() {
    let mut c = machine(vec![]);
    c.V[15] = 200;
    c.V[3] = 100;
    c.execute_add_Vy_to_Vx(15, 3);
    // the carry flag overwrites the wrapped sum
    assert_eq!(c.V[15], 1);
}

#[test]
fn subtract_without_borrow() {
    let mut c = machine(vec![]);
    c.V[5] = 150;
    c.V[6] = 100;
    c.execute_subtract_Vy_from_Vx(5, 6);
    assert_eq!(c.V[5], 50);
    assert_eq!(c.V[15], 1); // no borrow
}

#[test]
fn subtract_with_borrow_wraps() {
    let mut c = machine(vec![]);
    c.V[5] = 100;
    c.V[6] = 150;
    c.execute_subtract_Vy_from_Vx(5, 6);
    assert_eq!(c.V[5], 206); // (100 - 150) mod 256
    assert_eq!(c.V[15], 0);
}

#[test]
fn reverse_subtract_sets_no_borrow_flag() {
    let mut c = machine(vec![]);
    c.V[5] = 100;
    c.V[6] = 150;
    c.execute_set_Vx_to_Vy_minus_Vx(5, 6);
    assert_eq!(c.V[5], 50);
    assert_eq!(c.V[15], 1);
    c.V[5] = 200;
    c.V[6] = 150;
    c.execute_set_Vx_to_Vy_minus_Vx(5, 6);
    assert_eq!(c.V[5], 206); // (150 - 200) mod 256
    assert_eq!(c.V[15], 0);
}

#[test]
fn shift_right_reports_pre_shift_low_bit() {
    let mut c = machine(vec![]);
    c.V[2] = 0b1010_0101;
    c.execute_shift_right_Vx(2);
    assert_eq!(c.V[2], 0b0101_0010);
    assert_eq!(c.V[15], 1);
    c.execute_shift_right_Vx(2);
    assert_eq!(c.V[2], 0b0010_1001);
    assert_eq!(c.V[15], 0);
}

#[test]
fn shift_left_reports_pre_shift_high_bit() {
    let mut c = machine(vec![]);
    c.V[2] = 0b1010_0101;
    c.execute_shift_left_Vx(2);
    assert_eq!(c.V[2], 0b0100_1010);
    assert_eq!(c.V[15], 1);
    c.execute_shift_left_Vx(2);
    assert_eq!(c.V[2], 0b1001_0100);
    assert_eq!(c.V[15], 0);
}

#[test]
fn shift_flag_write_is_last_when_vx_is_vf() {
    let mut c = machine(vec![]);
    c.V[15] = 5;
    c.execute_shift_right_Vx(15);
    // the pre-shift low bit (5 % 2 == 1) overwrites the shifted value
    assert_eq!(c.V[15], 1);
    let mut d = machine(vec![]);
    d.V[15] = 0x80;
    d.execute_shift_left_Vx(15);
    // the pre-shift high bit overwrites the doubled value
    assert_eq!(d.V[15], 1);
}

#[test]
fn bitwise_operations() {
    let mut c = machine(vec![]);
    c.V[1] = 0b1100;
    c.V[2] = 0b1010;
    c.execute_set_Vx_to_Vx_or_Vy(1, 2);
    assert_eq!(c.V[1], 0b1110);
    c.V[1] = 0b1100;
    c.execute_set_Vx_to_Vx_and_Vy(1, 2);
    assert_eq!(c.V[1], 0b1000);
    c.V[1] = 0b1100;
    c.execute_set_Vx_to_Vx_xor_Vy(1, 2);
    assert_eq!(c.V[1], 0b0110);
}

#[test]
fn add_n_wraps_without_flag() {
    let mut c = machine(vec![]);
    c.V[7] = 250;
    c.V[15] = 9;
    c.execute_add_n_to_Vx(7, 10);
    assert_eq!(c.V[7], 4); // (250 + 10) mod 256
    assert_eq!(c.V[15], 9); // untouched
}

#[test]
fn copy_and_literal_loads() {
    let mut c = machine(vec![]);
    c.execute_set_Vx_to_n(9, 77);
    assert_eq!(c.V[9], 77);
    c.execute_set_Vx_to_Vy(8, 9);
    assert_eq!(c.V[8], 77);
}

#[test]
fn skips_compare_as_specified() {
    let mut c = machine(vec![]);
    c.V[0] = 5;
    c.execute_skip_next_instruction_if_Vx_equals_n(0, 5);
    assert_eq!(c.PC, 0x204);
    c.execute_skip_next_instruction_if_Vx_equals_n(0, 6);
    assert_eq!(c.PC, 0x206);
    c.execute_skip_next_instruction_if_Vx_not_equals_n(0, 6);
    assert_eq!(c.PC, 0x20A);
    c.V[1] = 5;
    c.execute_skip_next_instruction_if_Vx_equals_Vy(0, 1);
    assert_eq!(c.PC, 0x20E);
    c.V[1] = 7;
    c.execute_skip_next_instruction_if_Vx_not_equals_Vy(0, 1);
    assert_eq!(c.PC, 0x212);
}

#[test]
fn call_then_return_round_trip() {
    let mut c = machine(vec![]);
    c.PC = 0x300;
    assert_eq!(c.execute_call_subroutine(0x400), Ok(()));
    assert_eq!(c.PC, 0x400);
    assert_eq!(c.SP, 1);
    assert_eq!(c.stack[0], 0x302);
    assert_eq!(c.execute_return_from_subroutine(), Ok(()));
    assert_eq!(c.PC, 0x302);
    assert_eq!(c.SP, 0);
}

#[test]
fn return_on_empty_stack_is_fatal() {
    let mut c = machine(vec![0x00, 0xEE]);
    let r = c.emulate_cycle();
    assert_eq!(r, Err(Chip8Error::StackUnderflow));
    assert_eq!(c.PC, 0x200);
}

#[test]
fn seventeenth_nested_call_overflows_stack() {
    // the only instruction calls itself, so every cycle pushes a frame
    let mut c = machine(vec![0x22, 0x00]);
    for depth in 1..=16 {
        assert_eq!(c.emulate_cycle(), Ok(false));
        assert_eq!(c.SP, depth);
    }
    assert_eq!(c.emulate_cycle(), Err(Chip8Error::StackOverflow));
    assert_eq!(c.SP, 16);
}

#[test]
fn goto_plus_v0_offsets_jump() {
    let mut c = machine(vec![]);
    c.V[0] = 0x15;
    c.execute_goto_plus_V0(0x300);
    assert_eq!(c.PC, 0x315);
}

#[test]
fn set_i_loads_address() {
    let mut c = machine(vec![]);
    c.execute_set_I(0xABC);
    assert_eq!(c.I, 0xABC);
    assert_eq!(c.PC, 0x202);
}

#[test]
fn masked_random_respects_mask() {
    let mut c = machine(vec![0xC0, 0x00, 0xC1, 0x0F]);
    c.V[0] = 0xAA;
    c.emulate_cycle().expect("random executes");
    // a zero mask forces a zero result whatever byte was drawn
    assert_eq!(c.V[0], 0);
    c.emulate_cycle().expect("random executes");
    assert!(c.V[1] <= 0x0F);
}

#[test]
fn bcd_store_decomposes_234() {
    let mut c = machine(vec![]);
    c.V[6] = 234;
    c.execute_set_I(0x300);
    assert_eq!(c.execute_store_Vx_bcd_representation(6), Ok(()));
    assert_eq!(c.ram[0x300], 2);
    assert_eq!(c.ram[0x301], 3);
    assert_eq!(c.ram[0x302], 4);
    assert_eq!(c.PC, 0x204);
}

#[test]
fn bcd_store_works_at_last_legal_address() {
    let mut c = machine(vec![]);
    c.V[0] = 9;
    c.I = 4093;
    assert_eq!(c.execute_store_Vx_bcd_representation(0), Ok(()));
    assert_eq!(c.ram[4093], 0);
    assert_eq!(c.ram[4094], 0);
    assert_eq!(c.ram[4095], 9);
    c.I = 4094;
    assert_eq!(
        c.execute_store_Vx_bcd_representation(0),
        Err(Chip8Error::BcdOutOfBounds)
    );
}

#[test]
fn clear_screen_zeroes_framebuffer() {
    let mut c = machine(vec![]);
    c.screen[100] = 1;
    c.draw_flag = false;
    c.execute_clear_screen();
    assert!(c.screen.iter().all(|&p| p == 0));
    assert!(c.draw_flag);
    assert_eq!(c.PC, 0x202);
}

#[test]
fn clear_then_zero_sprite_leaves_screen_blank() {
    let mut c = machine(vec![]);
    c.screen[5] = 1;
    c.execute_clear_screen();
    c.I = 0x300; // memory there is zero
    assert_eq!(c.execute_draw_sprite(0, 1, 5), Ok(()));
    assert!(c.screen.iter().all(|&p| p == 0));
    assert_eq!(c.V[15], 0);
}

#[test]
fn drawing_font_glyph_lights_its_pixels() {
    let mut c = machine(vec![]);
    // glyph 0 sits at memory 0: rows F0 90 90 90 F0
    c.execute_draw_sprite(0, 1, 5).expect("in bounds");
    assert_eq!(c.V[15], 0); // nothing was lit before
    assert!(c.draw_flag);
    // top row 0xF0: four lit cells then four dark
    assert_eq!(&c.screen[0..8], &[1, 1, 1, 1, 0, 0, 0, 0]);
    // second row 0x90
    assert_eq!(&c.screen[64..72], &[1, 0, 0, 1, 0, 0, 0, 0]);
}

#[test]
fn drawing_same_sprite_twice_restores_blank_screen() {
    let mut c = machine(vec![]);
    c.V[2] = 10;
    c.V[3] = 4;
    assert_eq!(c.execute_draw_sprite(2, 3, 5), Ok(()));
    assert_eq!(c.V[15], 0);
    assert!(c.screen.iter().any(|&p| p == 1));
    assert_eq!(c.execute_draw_sprite(2, 3, 5), Ok(()));
    assert_eq!(c.V[15], 1); // every lit cell collided
    assert!(c.screen.iter().all(|&p| p == 0));
}

#[test]
fn sprite_rows_bleed_into_next_row_without_wrapping() {
    let mut c = machine(vec![]);
    c.V[0] = 60; // four cells from the right edge
    c.V[1] = 0;
    c.I = 0; // row 0xF0: all four lit bits stay on row zero
    assert_eq!(c.execute_draw_sprite(0, 1, 1), Ok(()));
    assert_eq!(&c.screen[60..64], &[1, 1, 1, 1]);
    assert!(c.screen[64..72].iter().all(|&p| p == 0));
    // at the bottom-right corner the row overhangs the framebuffer, but
    // every lit bit of 0xF0 still lands inside: the draw goes through
    let mut d = machine(vec![]);
    d.V[0] = 60;
    d.V[1] = 31; // base 2044; lit cells 2044..2047, zero bits overhang
    assert_eq!(d.execute_draw_sprite(0, 1, 1), Ok(()));
    assert_eq!(&d.screen[2044..2048], &[1, 1, 1, 1]);
    assert_eq!(d.V[15], 0);
    assert_eq!(d.PC, 0x202);
}

#[test]
fn draw_with_a_lit_bit_past_the_framebuffer_is_fatal() {
    // base 2045: the fourth lit bit of 0xF0 would land on cell 2048
    let mut c = machine(vec![]);
    c.V[0] = 61;
    c.V[1] = 31;
    c.I = 0;
    assert_eq!(c.execute_draw_sprite(0, 1, 1), Err(Chip8Error::DrawOutOfBounds));
    assert!(c.screen.iter().all(|&p| p == 0));
    assert_eq!(c.V[15], 0);
    assert_eq!(c.PC, 0x200);
}

#[test]
fn zero_sprite_may_overhang_the_framebuffer() {
    // after clear-screen, an all-zero sprite drawn far off the bottom
    // edge touches nothing: screen stays blank and VF reports nothing
    let mut c = machine(vec![]);
    c.execute_clear_screen();
    c.V[0] = 60;
    c.V[1] = 31;
    c.I = 0x300; // memory there is zero
    assert_eq!(c.execute_draw_sprite(0, 1, 5), Ok(()));
    assert!(c.screen.iter().all(|&p| p == 0));
    assert_eq!(c.V[15], 0);
}

#[test]
fn double_draw_at_bottom_edge_restores_and_collides() {
    let mut c = machine(vec![]);
    c.V[0] = 60;
    c.V[1] = 31;
    c.I = 0; // row 0xF0, lit bits inside the framebuffer
    assert_eq!(c.execute_draw_sprite(0, 1, 1), Ok(()));
    assert_eq!(c.V[15], 0);
    assert_eq!(c.execute_draw_sprite(0, 1, 1), Ok(()));
    assert_eq!(c.V[15], 1);
    assert!(c.screen.iter().all(|&p| p == 0));
}

#[test]
fn draw_reading_past_memory_end_is_fatal() {
    let mut c = machine(vec![]);
    c.I = 4095;
    assert_eq!(c.execute_draw_sprite(0, 1, 2), Err(Chip8Error::DrawOutOfBounds));
}

#[test]
fn timers_step_down_and_signal_tone_stop() {
    let mut c = machine(vec![0x60, 0x01, 0x60, 0x02]);
    c.delay_timer = 2;
    c.sound_timer = 1;
    assert_eq!(c.emulate_cycle(), Ok(true)); // sound went 1 -> 0
    assert_eq!(c.delay_timer, 1);
    assert_eq!(c.sound_timer, 0);
    assert_eq!(c.emulate_cycle(), Ok(false));
    assert_eq!(c.delay_timer, 0);
    assert_eq!(c.sound_timer, 0);
}

#[test]
fn set_keys_overwrites_latch_wholesale() {
    let mut c = machine(vec![]);
    let snapshot: Vec<u8> = vec![1, 0, 1, 0, 1, 0, 1, 0, 1, 0, 1, 0, 1, 0, 1, 0];
    c.set_keys(&snapshot);
    assert_eq!(c.key, snapshot);
}

#[test]
fn three_cycle_program_skips_on_equal_registers() {
    let mut c = machine(vec![0x60, 0x05, 0x61, 0x05, 0x50, 0x10]);
    for _ in 0..3 {
        c.emulate_cycle().expect("program runs");
    }
    assert_eq!(c.PC, 0x208); // 0x200 + 2 + 2 + 4
    assert_eq!(c.V[0], 5);
    assert_eq!(c.V[1], 5);
}

#[test]
fn invalid_instruction_halts_driver_loop_without_mutation() {
    let mut c = machine(vec![0xFF, 0xFF]);
    let halt = loop {
        match c.emulate_cycle() {
            Ok(_) => continue,
            Err(e) => break e,
        }
    };
    assert_eq!(halt, Chip8Error::InvalidInstruction);
    assert!(c.V.iter().all(|&v| v == 0));
    assert_eq!(c.PC, 0x200);
    assert_eq!(c.SP, 0);
    assert_eq!(c.I, 0);
    assert_eq!(c.delay_timer, 0);
    assert_eq!(c.sound_timer, 0);
}

#[test]
fn fetch_past_memory_end_is_fatal() {
    let mut c = machine(vec![]);
    c.PC = 4095;
    assert_eq!(c.emulate_cycle(), Err(Chip8Error::OutOfBoundsFetch));
    c.PC = 4096;
    assert_eq!(c.emulate_cycle(), Err(Chip8Error::OutOfBoundsFetch));
}

#[test]
fn draw_instruction_end_to_end() {
    // 0xD015: draw 5 rows at (V0, V1); I is 0, the glyph for zero
    let mut c = machine(vec![0xD0, 0x15]);
    assert_eq!(c.emulate_cycle(), Ok(false));
    assert_eq!(c.V[15], 0);
    assert!(c.draw_flag);
    assert_eq!(&c.screen[0..8], &[1, 1, 1, 1, 0, 0, 0, 0]);
    assert_eq!(c.PC, 0x202);
}

#[test]
fn bcd_instruction_end_to_end() {
    // V6 := 234; I := 0x300; store the digits of V6
    let mut c = machine(vec![0x66, 0xEA, 0xA3, 0x00, 0xF6, 0x33]);
    for _ in 0..3 {
        c.emulate_cycle().expect("program runs");
    }
    assert_eq!(c.ram[0x300], 2);
    assert_eq!(c.ram[0x301], 3);
    assert_eq!(c.ram[0x302], 4);
}

#[test]
fn malformed_class_words_are_decode_errors() {
    // skip-if-equal with a nonzero low nibble matches no instruction
    let mut c = machine(vec![0x50, 0x11]);
    assert_eq!(c.emulate_cycle(), Err(Chip8Error::InvalidInstruction));
    // an arithmetic-class word with an unknown low nibble
    let mut d = machine(vec![0x80, 0x18]);
    assert_eq!(d.emulate_cycle(), Err(Chip8Error::InvalidInstruction));
    // an 0xF-class word whose low byte is not the decimal store
    let mut e = machine(vec![0xF0, 0x34]);
    assert_eq!(e.emulate_cycle(), Err(Chip8Error::InvalidInstruction));
}

#[test]
fn second_processor_powers_on_zeroed() {
    let cpu = libchip8::cpu::Cpu::new();
    assert_eq!(cpu.A, 0);
    assert_eq!(cpu.SP, 0);
    assert_eq!(cpu.PC, 0);
    assert!(!cpu.zf && !cpu.nf && !cpu.hf && !cpu.cf);
    assert_eq!(cpu.internal_ram.len(), 0x2000);
}
