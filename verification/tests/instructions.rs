use chip8::chip8_core::InputState;
use chip8::chip8_core::State;
use chip8::operations::add_7xnn;
use chip8::operations::add_8xy4;
use chip8::operations::add_ind_fx1e;
use chip8::operations::bcd_fx33;
use chip8::operations::clear_screen;
use chip8::operations::decode;
use chip8::operations::get_char_fx29;
use chip8::operations::get_key_fx0a;
use chip8::operations::jump;
use chip8::operations::rand_cxnn;
use chip8::operations::rand_cxnn_with;
use chip8::operations::ret;
use chip8::operations::set_6xnn;
use chip8::operations::set_8xy0;
use chip8::operations::set_index_annn;
use chip8::operations::shift_8xy6;
use chip8::operations::shift_8xye;
use chip8::operations::skip_3xnn;
use chip8::operations::skip_4xnn;
use chip8::operations::skip_5xy0;
use chip8::operations::skip_9xy0;
use chip8::operations::skip_key_ex9e;
use chip8::operations::skip_key_exa1;
use chip8::operations::store_load_fx55;
use chip8::operations::store_load_fx65;
use chip8::operations::sub_8xy5;
use chip8::operations::sub_8xy7;
use chip8::operations::subroutine;
use chip8::operations::timer_fx07;
use chip8::operations::timer_fx15;
use chip8::operations::timer_fx18;
use chip8::operations::xor_8xy3;
use chip8::operations::and_8xy2;
use chip8::operations::or_8xy1;
use chip8::operations::Instr;

#[test]
fn set_then_add_wraps_modulo_256() {
    let mut s = State::new();
    set_6xnn(&mut s, 2, 200);
    add_7xnn(&mut s, 2, 100);
    assert_eq!(s.v_buffer[2], 44);
    // No carry flag for the immediate add.
    assert_eq!(s.v_buffer[15], 0);
    assert_eq!(s.program_counter, 516);
}

#[test]
fn add_carry_flag_boundary_pairs() {
    for &(a, b, sum, flag) in &[
        (0u8, 0u8, 0u8, 0u8),
        (255, 255, 254, 1),
        (255, 0, 255, 0),
        (0, 255, 255, 0),
        (200, 100, 44, 1),
    ] {
        let mut s = State::new();
        s.v_buffer[0] = a;
        s.v_buffer[1] = b;
        add_8xy4(&mut s, 0, 1);
        assert_eq!(s.v_buffer[0], sum, "sum for {a} + {b}");
        assert_eq!(s.v_buffer[15], flag, "carry for {a} + {b}");
        assert_eq!(s.v_buffer[1], b);
    }
}

#[test]
fn sub_borrow_flag_boundary_pairs() {
    for &(a, b, diff, flag) in &[
        (0u8, 0u8, 0u8, 0u8),
        (255, 255, 0, 0),
        (255, 0, 255, 1),
        (0, 255, 1, 0),
        (10, 3, 7, 1),
    ] {
        let mut s = State::new();
        s.v_buffer[0] = a;
        s.v_buffer[1] = b;
        sub_8xy5(&mut s, 0, 1);
        assert_eq!(s.v_buffer[0], diff, "difference for {a} - {b}");
        assert_eq!(s.v_buffer[15], flag, "borrow flag for {a} - {b}");
    }
}

#[test]
fn sub_reversed_borrow_flag_boundary_pairs() {
    for &(a, b, diff, flag) in &[
        (0u8, 0u8, 0u8, 0u8),
        (255, 255, 0, 0),
        (255, 0, 1, 0),
        (0, 255, 255, 1),
        (3, 10, 7, 1),
    ] {
        let mut s = State::new();
        s.v_buffer[0] = a;
        s.v_buffer[1] = b;
        sub_8xy7(&mut s, 0, 1);
        assert_eq!(s.v_buffer[0], diff, "difference for {b} - {a}");
        assert_eq!(s.v_buffer[15], flag, "borrow flag for {b} - {a}");
    }
}

#[test]
fn shift_right_captures_low_bit_and_keeps_source() {
    let mut s = State::new();
    s.v_buffer[3] = 0b0000_0101;
    shift_8xy6(&mut s, 1, 3);
    assert_eq!(s.v_buffer[1], 0b0000_0010);
    assert_eq!(s.v_buffer[15], 1);
    assert_eq!(s.v_buffer[3], 0b0000_0101);
}

#[test]
fn shift_left_captures_high_bit_and_keeps_source() {
    let mut s = State::new();
    s.v_buffer[3] = 0b1000_0001;
    shift_8xye(&mut s, 1, 3);
    assert_eq!(s.v_buffer[1], 0b0000_0010);
    assert_eq!(s.v_buffer[15], 1);
    assert_eq!(s.v_buffer[3], 0b1000_0001);
}

#[test]
fn bitwise_ops_store_into_x() {
    let mut s = State::new();
    s.v_buffer[0] = 0b1100;
    s.v_buffer[1] = 0b1010;
    or_8xy1(&mut s, 0, 1);
    assert_eq!(s.v_buffer[0], 0b1110);
    s.v_buffer[0] = 0b1100;
    and_8xy2(&mut s, 0, 1);
    assert_eq!(s.v_buffer[0], 0b1000);
    s.v_buffer[0] = 0b1100;
    xor_8xy3(&mut s, 0, 1);
    assert_eq!(s.v_buffer[0], 0b0110);
    s.v_buffer[0] = 7;
    set_8xy0(&mut s, 2, 0);
    assert_eq!(s.v_buffer[2], 7);
}

#[test]
fn skips_advance_by_four_or_two() {
    let mut s = State::new();
    s.v_buffer[0] = 9;
    skip_3xnn(&mut s, 0, 9);
    assert_eq!(s.program_counter, 516);
    skip_3xnn(&mut s, 0, 8);
    assert_eq!(s.program_counter, 518);
    skip_4xnn(&mut s, 0, 8);
    assert_eq!(s.program_counter, 522);
    skip_4xnn(&mut s, 0, 9);
    assert_eq!(s.program_counter, 524);
    s.v_buffer[1] = 9;
    skip_5xy0(&mut s, 0, 1);
    assert_eq!(s.program_counter, 528);
    s.v_buffer[1] = 8;
    skip_5xy0(&mut s, 0, 1);
    assert_eq!(s.program_counter, 530);
    skip_9xy0(&mut s, 0, 1);
    assert_eq!(s.program_counter, 534);
    s.v_buffer[1] = 9;
    skip_9xy0(&mut s, 0, 1);
    assert_eq!(s.program_counter, 536);
}

#[test]
fn call_then_return_lands_after_the_call() {
    let mut s = State::new();
    assert_eq!(s.program_counter, 512);
    let pushed = subroutine(&mut s, 0x300);
    assert!(pushed);
    assert_eq!(s.program_counter, 0x300);
    assert_eq!(s.stack_pointer, 1);
    assert_eq!(s.stack[1], 512);
    let popped = ret(&mut s);
    assert!(popped);
    assert_eq!(s.program_counter, 514);
    assert_eq!(s.stack_pointer, 0);
}

#[test]
fn return_on_empty_stack_only_advances() {
    let mut s = State::new();
    let popped = ret(&mut s);
    assert!(!popped);
    assert_eq!(s.program_counter, 514);
    assert_eq!(s.stack_pointer, 0);
}

#[test]
fn call_on_full_stack_only_advances() {
    let mut s = State::new();
    s.stack_pointer = 63;
    let pushed = subroutine(&mut s, 0x300);
    assert!(!pushed);
    assert_eq!(s.program_counter, 514);
    assert_eq!(s.stack_pointer, 63);
}

#[test]
fn jump_sets_the_counter_exactly() {
    let mut s = State::new();
    jump(&mut s, 0x400);
    assert_eq!(s.program_counter, 0x400);
}

#[test]
fn decimal_digits_go_hundreds_first() {
    let mut s = State::new();
    s.v_buffer[3] = 234;
    s.index = 1000;
    bcd_fx33(&mut s, 3);
    assert_eq!(s.ram[1000], 2);
    assert_eq!(s.ram[1001], 3);
    assert_eq!(s.ram[1002], 4);
    s.v_buffer[3] = 7;
    s.index = 2000;
    bcd_fx33(&mut s, 3);
    assert_eq!(s.ram[2000], 0);
    assert_eq!(s.ram[2001], 0);
    assert_eq!(s.ram[2002], 7);
}

#[test]
fn decimal_digits_wrap_at_end_of_memory() {
    let mut s = State::new();
    s.v_buffer[0] = 159;
    s.index = 4095;
    bcd_fx33(&mut s, 0);
    assert_eq!(s.ram[4095], 1);
    assert_eq!(s.ram[0], 5);
    assert_eq!(s.ram[1], 9);
}

#[test]
fn store_then_load_round_trips_registers() {
    let mut s = State::new();
    for i in 0..5u8 {
        s.v_buffer[i as usize] = 10 + i;
    }
    s.index = 900;
    store_load_fx55(&mut s, 4);
    assert_eq!(s.index, 905);
    for i in 0..5usize {
        assert_eq!(s.ram[900 + i], 10 + i as u8);
    }
    for i in 0..5usize {
        s.v_buffer[i] = 0;
    }
    s.index = 900;
    store_load_fx65(&mut s, 4);
    assert_eq!(s.index, 905);
    for i in 0..5usize {
        assert_eq!(s.v_buffer[i], 10 + i as u8);
    }
    // A register above X is untouched by the load.
    assert_eq!(s.v_buffer[5], 0);
}

#[test]
fn index_register_ops() {
    let mut s = State::new();
    set_index_annn(&mut s, 0x22A);
    assert_eq!(s.index, 0x22A);
    s.index = 0xFFFF;
    s.v_buffer[0] = 2;
    add_ind_fx1e(&mut s, 0);
    assert_eq!(s.index, 1);
    s.v_buffer[4] = 0xA;
    get_char_fx29(&mut s, 4);
    assert_eq!(s.index, 50);
}

#[test]
fn timers_move_through_register_x() {
    let mut s = State::new();
    s.delay_timer = 42;
    timer_fx07(&mut s, 6);
    assert_eq!(s.v_buffer[6], 42);
    s.v_buffer[7] = 99;
    timer_fx15(&mut s, 7);
    assert_eq!(s.delay_timer, 99);
    s.v_buffer[8] = 17;
    timer_fx18(&mut s, 8);
    assert_eq!(s.sound_timer, 17);
}

#[test]
fn random_byte_is_masked() {
    let mut s = State::new();
    rand_cxnn_with(&mut s, 0, 0x0F, 0b1010_1010);
    assert_eq!(s.v_buffer[0], 0x0A);
    // A zero mask forces zero whatever the drawn byte was.
    rand_cxnn(&mut s, 1, 0);
    assert_eq!(s.v_buffer[1], 0);
    // The mask bounds every draw.
    rand_cxnn(&mut s, 2, 0x3F);
    assert!(s.v_buffer[2] <= 0x3F);
}

#[test]
fn clear_screen_darkens_every_pixel() {
    let mut s = State::new();
    s.screen[0] = true;
    s.screen[2047] = true;
    clear_screen(&mut s);
    assert!(s.screen.iter().all(|p| !p));
    assert_eq!(s.program_counter, 514);
}

#[test]
fn key_skips_consult_the_held_keys() {
    let mut s = State::new();
    let mut inp = InputState::idle();
    inp.keys[5] = true;
    s.v_buffer[0] = 5;
    skip_key_ex9e(&mut s, &inp, 0);
    assert_eq!(s.program_counter, 516);
    skip_key_exa1(&mut s, &inp, 0);
    assert_eq!(s.program_counter, 518);
    s.v_buffer[0] = 6;
    skip_key_ex9e(&mut s, &inp, 0);
    assert_eq!(s.program_counter, 520);
    skip_key_exa1(&mut s, &inp, 0);
    assert_eq!(s.program_counter, 524);
    // A register value beyond the 16 logical keys names no key.
    s.v_buffer[0] = 200;
    skip_key_ex9e(&mut s, &inp, 0);
    assert_eq!(s.program_counter, 526);
}

#[test]
fn wait_key_stands_still_until_a_key_is_down() {
    let mut s = State::new();
    let idle = InputState::idle();
    get_key_fx0a(&mut s, 0, &idle);
    assert_eq!(s.program_counter, 512);
    assert_eq!(s.v_buffer[0], 0);
    let mut inp = InputState::idle();
    inp.keys[7] = true;
    inp.key_event = Some(7);
    get_key_fx0a(&mut s, 0, &inp);
    assert_eq!(s.program_counter, 514);
    assert_eq!(s.v_buffer[0], 7);
    // A key held but no fresh event: the machine moves on, the register
    // keeps its value.
    let mut held_only = InputState::idle();
    held_only.keys[7] = true;
    get_key_fx0a(&mut s, 0, &held_only);
    assert_eq!(s.program_counter, 516);
    assert_eq!(s.v_buffer[0], 7);
}

#[test]
fn decode_picks_the_documented_fields() {
    assert_eq!(decode(0x00E0), Instr::ClearScreen);
    assert_eq!(decode(0x00EE), Instr::Ret);
    assert_eq!(decode(0x1ABC), Instr::Jump { nnn: 0xABC });
    assert_eq!(decode(0x2123), Instr::Call { nnn: 0x123 });
    assert_eq!(decode(0x6A42), Instr::StoreNn { x: 0xA, nn: 0x42 });
    assert_eq!(decode(0x8AB4), Instr::AddReg { x: 0xA, y: 0xB });
    assert_eq!(decode(0x8AB6), Instr::ShiftRight { x: 0xA, y: 0xB });
    assert_eq!(decode(0xD125), Instr::Draw { x: 1, y: 2, n: 5 });
    assert_eq!(decode(0xE19E), Instr::SkipKeyDown { x: 1 });
    assert_eq!(decode(0xF165), Instr::LoadRegs { x: 1 });
    assert_eq!(decode(0xF1FF), Instr::Invalid { word: 0xF1FF });
    assert_eq!(decode(0x8AB8), Instr::Invalid { word: 0x8AB8 });
}
