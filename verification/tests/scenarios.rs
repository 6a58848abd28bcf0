use chip8::chip8_core::init_fonts;
use chip8::chip8_core::InputState;
use chip8::chip8_core::State;
use chip8::draw::draw_dxyn;
use chip8::operations::operate;
use chip8::operations::Fault;

fn load(s: &mut State, addr: usize, bytes: &[u8]) {
    for (i, b) in bytes.iter().enumerate() {
        s.ram[addr + i] = *b;
    }
}

#[test]
fn three_instruction_program_adds_registers() {
    let mut s = State::new();
    load(&mut s, 512, &[0x60, 0x05, 0x61, 0x03, 0x80, 0x14]);
    let inp = InputState::idle();
    for _ in 0..3 {
        let r = operate(&mut s, &inp);
        assert!(r.fault.is_none());
        assert!(!r.draw);
    }
    assert_eq!(s.v_buffer[0], 8);
    assert_eq!(s.v_buffer[0xF], 0);
    assert_eq!(s.program_counter, 518);
}

#[test]
fn draw_instruction_renders_the_glyph_at_the_index() {
    let mut s = State::new();
    init_fonts(&mut s.ram);
    // The five bytes of the glyph for 0, staged in program space.
    load(&mut s, 0x22A, &[0xF0, 0x90, 0x90, 0x90, 0xF0]);
    load(&mut s, 512, &[0xA2, 0x2A, 0xD0, 0x05]);
    let inp = InputState::idle();
    let r1 = operate(&mut s, &inp);
    assert!(r1.fault.is_none());
    assert!(!r1.draw);
    assert_eq!(s.index, 0x22A);
    let r2 = operate(&mut s, &inp);
    assert!(r2.fault.is_none());
    assert!(r2.draw);
    let glyph = [0xF0u8, 0x90, 0x90, 0x90, 0xF0];
    for row in 0..5usize {
        for col in 0..8usize {
            let expected = (glyph[row] >> (7 - col)) & 1 == 1;
            assert_eq!(s.screen[row * 64 + col], expected, "row {row} col {col}");
        }
    }
    // No collision on a dark screen, and nothing else lit.
    assert_eq!(s.v_buffer[0xF], 0);
    for row in 5..32usize {
        for col in 0..64usize {
            assert!(!s.screen[row * 64 + col]);
        }
    }
    for row in 0..5usize {
        for col in 8..64usize {
            assert!(!s.screen[row * 64 + col]);
        }
    }
}

#[test]
fn drawing_twice_restores_the_frame_buffer() {
    let mut s = State::new();
    load(&mut s, 0x300, &[0b1010_1010, 0b0101_0101, 0xFF]);
    s.index = 0x300;
    s.v_buffer[0] = 10;
    s.v_buffer[1] = 20;
    let before = s.screen.clone();
    draw_dxyn(&mut s, 0, 1, 3);
    assert_eq!(s.v_buffer[0xF], 0);
    assert_ne!(s.screen, before);
    draw_dxyn(&mut s, 0, 1, 3);
    // Every pixel the first draw lit collided on the second.
    assert_eq!(s.v_buffer[0xF], 1);
    assert_eq!(s.screen, before);
}

#[test]
fn sprite_origin_wraps_and_edges_clip() {
    let mut s = State::new();
    load(&mut s, 0x300, &[0xFF; 15]);
    s.index = 0x300;
    // 200 mod 64 = 8 columns in, 250 mod 32 = row 26: only rows 26..=31
    // can be drawn, the rest of the 15-row sprite is clipped.
    s.v_buffer[0] = 200;
    s.v_buffer[1] = 250;
    draw_dxyn(&mut s, 0, 1, 15);
    for row in 26..32usize {
        for col in 8..16usize {
            assert!(s.screen[row * 64 + col]);
        }
    }
    for row in 0..26usize {
        for col in 0..64usize {
            assert!(!s.screen[row * 64 + col], "row {row} col {col} must be clipped");
        }
    }
    // A start column near the right edge clips the row's last bits.
    let mut s2 = State::new();
    load(&mut s2, 0x300, &[0xFF]);
    s2.index = 0x300;
    s2.v_buffer[0] = 60;
    s2.v_buffer[1] = 0;
    draw_dxyn(&mut s2, 0, 1, 1);
    for col in 60..64usize {
        assert!(s2.screen[col]);
    }
    assert!(!s2.screen[64], "the row must not wrap around");
    let lit = s2.screen.iter().filter(|p| **p).count();
    assert_eq!(lit, 4);
}

#[test]
fn invalid_opcode_reports_and_advances() {
    let mut s = State::new();
    load(&mut s, 512, &[0xF0, 0xFF]);
    let regs = s.v_buffer.clone();
    let inp = InputState::idle();
    let r = operate(&mut s, &inp);
    assert_eq!(r.fault, Some(Fault::InvalidOpcode { word: 0xF0FF }));
    assert!(!r.draw);
    assert_eq!(s.program_counter, 514);
    assert_eq!(s.v_buffer, regs);
}

#[test]
fn stack_faults_are_reported() {
    let mut s = State::new();
    load(&mut s, 512, &[0x00, 0xEE]);
    let inp = InputState::idle();
    let r = operate(&mut s, &inp);
    assert_eq!(r.fault, Some(Fault::StackUnderflow));
    assert_eq!(s.program_counter, 514);

    let mut s2 = State::new();
    load(&mut s2, 512, &[0x23, 0x00]);
    s2.stack_pointer = 63;
    let r2 = operate(&mut s2, &inp);
    assert_eq!(r2.fault, Some(Fault::StackOverflow));
    assert_eq!(s2.program_counter, 514);
    assert_eq!(s2.stack_pointer, 63);
}

#[test]
fn jump_with_offset_reads_register_f() {
    // This machine offsets by register 0xF, and the counter lands two past
    // the sum, as the fetch-advance sequence leaves it.
    let mut s = State::new();
    load(&mut s, 512, &[0xB2, 0x00]);
    s.v_buffer[0xF] = 3;
    s.v_buffer[2] = 77;
    let inp = InputState::idle();
    let r = operate(&mut s, &inp);
    assert!(r.fault.is_none());
    assert_eq!(s.program_counter, 0x200 + 3 + 2);
}

#[test]
fn random_through_the_engine_respects_the_mask() {
    let mut s = State::new();
    load(&mut s, 512, &[0xC0, 0x00, 0xC1, 0x0F]);
    let inp = InputState::idle();
    let r = operate(&mut s, &inp);
    assert!(r.fault.is_none());
    assert_eq!(s.v_buffer[0], 0);
    operate(&mut s, &inp);
    assert!(s.v_buffer[1] <= 0x0F);
    assert_eq!(s.program_counter, 516);
}

#[test]
fn fonts_occupy_the_first_eighty_bytes() {
    let mut s = State::new();
    s.ram[80] = 0xAB;
    init_fonts(&mut s.ram);
    assert_eq!(s.ram[0], 0xF0);
    assert_eq!(s.ram[4], 0xF0);
    assert_eq!(&s.ram[5..10], &[0x20, 0x60, 0x20, 0x20, 0x70]);
    assert_eq!(s.ram[79], 0x80);
    assert_eq!(s.ram[80], 0xAB);
}

#[test]
fn wait_key_through_the_engine_repeats_the_instruction() {
    let mut s = State::new();
    load(&mut s, 512, &[0xF3, 0x0A]);
    let idle = InputState::idle();
    let r = operate(&mut s, &idle);
    assert!(r.fault.is_none());
    assert_eq!(s.program_counter, 512);
    let mut inp = InputState::idle();
    inp.keys[0xC] = true;
    inp.key_event = Some(0xC);
    operate(&mut s, &inp);
    assert_eq!(s.v_buffer[3], 0xC);
    assert_eq!(s.program_counter, 514);
}

#[test]
fn fetch_wraps_at_the_end_of_memory() {
    // With the counter at the last byte, the instruction word is formed
    // from memory[4095] and memory[0].
    let mut s = State::new();
    s.ram[4095] = 0x6A;
    s.ram[0] = 0x21;
    s.program_counter = 4095;
    let inp = InputState::idle();
    let r = operate(&mut s, &inp);
    assert!(r.fault.is_none());
    assert_eq!(s.v_buffer[0xA], 0x21);
    assert_eq!(s.program_counter, 4097);
}

#[test]
fn clear_screen_through_the_engine() {
    let mut s = State::new();
    s.screen[100] = true;
    load(&mut s, 512, &[0x00, 0xE0]);
    let inp = InputState::idle();
    let r = operate(&mut s, &inp);
    assert!(r.fault.is_none());
    assert!(!r.draw);
    assert!(s.screen.iter().all(|p| !p));
    assert_eq!(s.program_counter, 514);
}
