use chip8_core::exec::NextPc;
use chip8_core::machine::{Fault, Machine, FB_WIDTH, MEM_SIZE, PROGRAM_START};

#[test]
fn new_machine_initial_state() {
    let m = Machine::new();
    assert_eq!(m.pc, 0x200);
    assert_eq!(m.index, 0);
    assert_eq!(m.memory.len(), MEM_SIZE);
    assert_eq!(m.memory[0], 0xF0);
    assert_eq!(m.memory[79], 0x80);
    assert_eq!(m.memory[80], 0);
    assert_eq!(m.memory[0x200], 0);
    assert!(m.regs.iter().all(|&r| r == 0));
    assert!(m.fb.iter().all(|&p| !p));
    assert!(m.keys.iter().all(|&k| !k));
    assert!(m.stack.is_empty());
    assert_eq!(m.delay, 0);
    assert_eq!(m.sound, 0);
    assert!(m.waiting.is_none());
}

#[test]
fn load_program_places_bytes() {
    let mut m = Machine::new();
    let rom = vec![0xAA, 0xBB, 0xCC];
    assert_eq!(m.load_program(&rom), Ok(()));
    assert_eq!(m.memory[0x200], 0xAA);
    assert_eq!(m.memory[0x201], 0xBB);
    assert_eq!(m.memory[0x202], 0xCC);
    assert_eq!(m.memory[0x1FF], 0);
    assert_eq!(m.memory[0x203], 0);
}

#[test]
fn load_program_too_large() {
    let mut m = Machine::new();
    let fits = vec![0x11; MEM_SIZE - PROGRAM_START];
    assert_eq!(m.load_program(&fits), Ok(()));
    assert_eq!(m.memory[MEM_SIZE - 1], 0x11);
    let over = vec![0x22; MEM_SIZE - PROGRAM_START + 1];
    assert_eq!(m.load_program(&over), Err(Fault::ProgramTooLarge));
    assert_eq!(m.memory[MEM_SIZE - 1], 0x11);
}

#[test]
fn add_wraps_with_carry() {
    let mut m = Machine::new();
    m.regs[1] = 0xFF;
    m.regs[2] = 0x01;
    assert_eq!(m.execute(0x8124, 0), Ok(NextPc::Advance));
    assert_eq!(m.regs[1], 0x00);
    assert_eq!(m.regs[0xF], 1);
}

#[test]
fn add_without_carry() {
    let mut m = Machine::new();
    m.regs[1] = 0x01;
    m.regs[2] = 0x01;
    assert_eq!(m.execute(0x8124, 0), Ok(NextPc::Advance));
    assert_eq!(m.regs[1], 0x02);
    assert_eq!(m.regs[0xF], 0);
}

#[test]
fn sub_wraps_and_signals_borrow() {
    let mut m = Machine::new();
    m.regs[1] = 0x01;
    m.regs[2] = 0x02;
    assert_eq!(m.execute(0x8125, 0), Ok(NextPc::Advance));
    assert_eq!(m.regs[1], 0xFF);
    assert_eq!(m.regs[0xF], 0);
}

#[test]
fn sub_without_borrow() {
    let mut m = Machine::new();
    m.regs[1] = 0x07;
    m.regs[2] = 0x02;
    assert_eq!(m.execute(0x8125, 0), Ok(NextPc::Advance));
    assert_eq!(m.regs[1], 0x05);
    assert_eq!(m.regs[0xF], 1);
}

#[test]
fn sub_from_reversed_operands() {
    let mut m = Machine::new();
    m.regs[1] = 0x02;
    m.regs[2] = 0x09;
    assert_eq!(m.execute(0x8127, 0), Ok(NextPc::Advance));
    assert_eq!(m.regs[1], 0x07);
    assert_eq!(m.regs[0xF], 1);
}

#[test]
fn shifts_capture_edge_bits() {
    let mut m = Machine::new();
    m.regs[3] = 0b1000_0101;
    assert_eq!(m.execute(0x8346, 0), Ok(NextPc::Advance));
    assert_eq!(m.regs[3], 0b0100_0010);
    assert_eq!(m.regs[0xF], 1);
    let mut m = Machine::new();
    m.regs[3] = 0b1000_0100;
    assert_eq!(m.execute(0x834E, 0), Ok(NextPc::Advance));
    assert_eq!(m.regs[3], 0b0000_1000);
    assert_eq!(m.regs[0xF], 1);
}

#[test]
fn logic_ops() {
    let mut m = Machine::new();
    m.regs[1] = 0b1100;
    m.regs[2] = 0b1010;
    assert_eq!(m.execute(0x8121, 0), Ok(NextPc::Advance));
    assert_eq!(m.regs[1], 0b1110);
    m.regs[1] = 0b1100;
    assert_eq!(m.execute(0x8122, 0), Ok(NextPc::Advance));
    assert_eq!(m.regs[1], 0b1000);
    m.regs[1] = 0b1100;
    assert_eq!(m.execute(0x8123, 0), Ok(NextPc::Advance));
    assert_eq!(m.regs[1], 0b0110);
    assert_eq!(m.execute(0x8120, 0), Ok(NextPc::Advance));
    assert_eq!(m.regs[1], 0b1010);
}

#[test]
fn skip_conditions_move_pc() {
    let mut m = Machine::new();
    m.regs[4] = 0x2A;
    assert_eq!(m.execute(0x342A, 0), Ok(NextPc::Advance));
    assert_eq!(m.pc, 0x202);
    assert_eq!(m.execute(0x342B, 0), Ok(NextPc::Advance));
    assert_eq!(m.pc, 0x202);
    assert_eq!(m.execute(0x442B, 0), Ok(NextPc::Advance));
    assert_eq!(m.pc, 0x204);
    m.regs[5] = 0x2A;
    assert_eq!(m.execute(0x5450, 0), Ok(NextPc::Advance));
    assert_eq!(m.pc, 0x206);
    assert_eq!(m.execute(0x9450, 0), Ok(NextPc::Advance));
    assert_eq!(m.pc, 0x206);
}

#[test]
fn jump_and_call_policies() {
    let mut m = Machine::new();
    assert_eq!(m.execute(0x1300, 0), Ok(NextPc::Jump(0x300)));
    m.regs[0] = 0x10;
    assert_eq!(m.execute(0xB300, 0), Ok(NextPc::Jump(0x310)));
    assert_eq!(m.execute(0x2400, 0), Ok(NextPc::Jump(0x400)));
    assert_eq!(m.stack, vec![0x200u16]);
    assert_eq!(m.execute(0x00EE, 0), Ok(NextPc::Advance));
    assert_eq!(m.pc, 0x200);
    assert!(m.stack.is_empty());
}

#[test]
fn empty_stack_pop_faults() {
    let mut m = Machine::new();
    assert_eq!(m.execute(0x00EE, 0), Err(Fault::EmptyStack));
}

#[test]
fn bcd_digits() {
    let mut m = Machine::new();
    m.regs[3] = 254;
    m.index = 0x300;
    assert_eq!(m.execute(0xF333, 0), Ok(NextPc::Advance));
    assert_eq!(m.memory[0x300], 2);
    assert_eq!(m.memory[0x301], 5);
    assert_eq!(m.memory[0x302], 4);
}

#[test]
fn store_load_round_trip() {
    let mut m = Machine::new();
    for i in 0..16 {
        m.regs[i] = (i as u8) * 3 + 1;
    }
    let saved = m.regs.clone();
    m.index = 0x300;
    assert_eq!(m.execute(0xF055, 0), Ok(NextPc::Advance));
    m.regs = vec![0; 16];
    assert_eq!(m.execute(0xF065, 0), Ok(NextPc::Advance));
    assert_eq!(m.regs, saved);
}

#[test]
fn memory_transfer_out_of_bounds_faults() {
    let mut m = Machine::new();
    m.index = (MEM_SIZE - 15) as u16;
    assert_eq!(m.execute(0xF055, 0), Err(Fault::MemoryOutOfBounds));
    assert_eq!(m.execute(0xF065, 0), Err(Fault::MemoryOutOfBounds));
    m.index = (MEM_SIZE - 2) as u16;
    assert_eq!(m.execute(0xF333, 0), Err(Fault::MemoryOutOfBounds));
    m.index = (MEM_SIZE - 1) as u16;
    assert_eq!(m.execute(0xD012, 0), Err(Fault::MemoryOutOfBounds));
}

#[test]
fn key_query_out_of_range_faults() {
    let mut m = Machine::new();
    m.regs[1] = 0x20;
    assert_eq!(m.execute(0xE19E, 0), Err(Fault::KeyOutOfRange));
    assert_eq!(m.execute(0xE1A1, 0), Err(Fault::KeyOutOfRange));
}

#[test]
fn key_skips_follow_held_state() {
    let mut m = Machine::new();
    m.regs[1] = 0x5;
    m.keys[0x5] = true;
    assert_eq!(m.execute(0xE19E, 0), Ok(NextPc::Advance));
    assert_eq!(m.pc, 0x202);
    assert_eq!(m.execute(0xE1A1, 0), Ok(NextPc::Advance));
    assert_eq!(m.pc, 0x202);
}

#[test]
fn timers_and_index_ops() {
    let mut m = Machine::new();
    m.regs[2] = 42;
    assert_eq!(m.execute(0xF215, 0), Ok(NextPc::Advance));
    assert_eq!(m.delay, 42);
    assert_eq!(m.execute(0xF218, 0), Ok(NextPc::Advance));
    assert_eq!(m.sound, 42);
    assert_eq!(m.execute(0xF307, 0), Ok(NextPc::Advance));
    assert_eq!(m.regs[3], 42);
    assert_eq!(m.execute(0xA123, 0), Ok(NextPc::Advance));
    assert_eq!(m.index, 0x123);
    assert_eq!(m.execute(0xF21E, 0), Ok(NextPc::Advance));
    assert_eq!(m.index, 0x123 + 42);
    m.regs[4] = 0xB;
    assert_eq!(m.execute(0xF429, 0), Ok(NextPc::Advance));
    assert_eq!(m.index, 0xB * 5);
}

#[test]
fn random_is_masked() {
    let mut m = Machine::new();
    assert_eq!(m.execute(0xC1F0, 0xAB), Ok(NextPc::Advance));
    assert_eq!(m.regs[1], 0xAB & 0xF0);
    assert_eq!(m.execute(0xC200, 0xAB), Ok(NextPc::Advance));
    assert_eq!(m.regs[2], 0);
}

#[test]
fn wait_key_suspends() {
    let mut m = Machine::new();
    assert_eq!(m.execute(0xF50A, 0), Ok(NextPc::Suspend));
    assert_eq!(m.waiting, Some(5));
    assert_eq!(m.pc, 0x200);
}

#[test]
fn draw_wraps_at_right_edge() {
    let mut m = Machine::new();
    m.regs[0] = 63;
    m.regs[1] = 0;
    m.index = 0x300;
    m.memory[0x300] = 0xFF;
    assert_eq!(m.execute(0xD011, 0), Ok(NextPc::Advance));
    assert!(m.fb[63]);
    for x in 0..7 {
        assert!(m.fb[x]);
    }
    for x in 7..63 {
        assert!(!m.fb[x]);
    }
    for x in 0..FB_WIDTH {
        assert!(!m.fb[FB_WIDTH + x]);
    }
    assert_eq!(m.regs[0xF], 0);
}

#[test]
fn draw_collision_erases_and_flags() {
    let mut m = Machine::new();
    m.regs[0] = 63;
    m.regs[1] = 0;
    m.index = 0x300;
    m.memory[0x300] = 0xFF;
    assert_eq!(m.execute(0xD011, 0), Ok(NextPc::Advance));
    assert_eq!(m.regs[0xF], 0);
    assert_eq!(m.execute(0xD011, 0), Ok(NextPc::Advance));
    assert_eq!(m.regs[0xF], 1);
    assert!(m.fb.iter().all(|&p| !p));
}

#[test]
fn draw_uses_font_glyphs() {
    let mut m = Machine::new();
    m.regs[2] = 0;
    assert_eq!(m.execute(0xF229, 0), Ok(NextPc::Advance));
    assert_eq!(m.index, 0);
    assert_eq!(m.execute(0xD005, 0), Ok(NextPc::Advance));
    for row in 0..5 {
        let lit: Vec<bool> = (0..8).map(|x| m.fb[row * FB_WIDTH + x]).collect();
        let expected: Vec<bool> = (0..8).map(|x| (m.memory[row] >> (7 - x)) & 1 == 1).collect();
        assert_eq!(lit, expected);
    }
}

#[test]
fn clear_turns_every_pixel_off() {
    let mut m = Machine::new();
    m.regs[0] = 0;
    m.regs[1] = 0;
    m.index = 0x300;
    m.memory[0x300] = 0xFF;
    assert_eq!(m.execute(0xD011, 0), Ok(NextPc::Advance));
    assert!(m.fb.iter().any(|&p| p));
    assert_eq!(m.execute(0x00E0, 0), Ok(NextPc::Advance));
    assert!(m.fb.iter().all(|&p| !p));
}

#[test]
fn unknown_opcode_changes_nothing() {
    let mut m = Machine::new();
    m.regs[7] = 9;
    m.index = 0x345;
    let memory = m.memory.clone();
    let regs = m.regs.clone();
    for word in [0x0123u16, 0x8ab9, 0xE177, 0xF1FF] {
        assert_eq!(m.execute(word, 0x5C), Ok(NextPc::Advance));
        assert_eq!(m.memory, memory);
        assert_eq!(m.regs, regs);
        assert_eq!(m.pc, 0x200);
        assert_eq!(m.index, 0x345);
        assert!(m.stack.is_empty());
    }
}
