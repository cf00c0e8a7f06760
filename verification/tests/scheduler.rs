use chip8_core::machine::{Fault, Machine};
use chip8_core::sched::{Mode, Scheduler};

fn no_keys() -> Vec<bool> {
    vec![false; 16]
}

fn loaded(rom: &[u8]) -> Machine {
    let mut m = Machine::new();
    m.load_program(&rom.to_vec()).unwrap();
    m
}

#[test]
fn clear_and_jump_loops_forever() {
    let m = loaded(&[0x00, 0xE0, 0x12, 0x00]);
    let mut s = Scheduler::new(m, 7);
    for i in 0..40 {
        assert_eq!(s.mode, Mode::Running);
        let out = s.step(no_keys());
        assert!(out.fault.is_none());
        assert!(s.machine.fb.iter().all(|&p| !p));
        let expected_pc = if i % 2 == 0 { 0x202 } else { 0x200 };
        assert_eq!(s.machine.pc, expected_pc);
    }
}

#[test]
fn call_and_return_advance_past_call_site() {
    let m = loaded(&[0x60, 0x05, 0x22, 0x06, 0x00, 0xEE, 0x00, 0xEE]);
    let mut s = Scheduler::new(m, 7);
    s.step(no_keys());
    assert_eq!(s.machine.regs[0], 5);
    assert_eq!(s.machine.pc, 0x202);
    s.step(no_keys());
    assert_eq!(s.machine.pc, 0x206);
    assert_eq!(s.machine.stack, vec![0x202u16]);
    s.step(no_keys());
    assert!(s.machine.stack.is_empty());
    assert_eq!(s.machine.pc, 0x204);
    assert_eq!(s.mode, Mode::Running);
}

#[test]
fn returning_with_empty_stack_halts() {
    let m = loaded(&[0x00, 0xEE]);
    let mut s = Scheduler::new(m, 7);
    let out = s.step(no_keys());
    assert_eq!(out.fault, Some(Fault::EmptyStack));
    assert_eq!(s.mode, Mode::Halted);
}

#[test]
fn key_wait_blocks_until_key_then_stores_code() {
    let m = loaded(&[0xF5, 0x0A, 0x12, 0x02]);
    let mut s = Scheduler::new(m, 7);
    let out = s.step(no_keys());
    assert!(out.fault.is_none());
    assert_eq!(s.mode, Mode::WaitingForKey);
    assert_eq!(s.machine.waiting, Some(5));
    assert_eq!(s.machine.pc, 0x200);
    for _ in 0..5 {
        s.step(no_keys());
        assert_eq!(s.mode, Mode::WaitingForKey);
        assert_eq!(s.machine.pc, 0x200);
        assert_eq!(s.machine.regs[5], 0);
    }
    let mut keys = no_keys();
    keys[0xB] = true;
    s.step(keys);
    assert_eq!(s.machine.regs[5], 0xB);
    assert_eq!(s.machine.waiting, None);
    assert_eq!(s.mode, Mode::Running);
    assert_eq!(s.machine.pc, 0x202);
}

#[test]
fn lowest_held_key_resolves_the_wait() {
    let m = loaded(&[0xF0, 0x0A]);
    let mut s = Scheduler::new(m, 7);
    s.step(no_keys());
    let mut keys = no_keys();
    keys[0x3] = true;
    keys[0xC] = true;
    s.step(keys);
    assert_eq!(s.machine.regs[0], 0x3);
}

#[test]
fn cadence_ticks_timers_and_gates_audio() {
    let mut m = loaded(&[0x12, 0x00]);
    m.delay = 3;
    m.sound = 2;
    let mut s = Scheduler::new(m, 0);
    let out = s.step(no_keys());
    assert!(out.redraw);
    assert_eq!(out.audio, Some(true));
    assert_eq!(s.machine.delay, 2);
    assert_eq!(s.machine.sound, 1);
    let out = s.step(no_keys());
    assert_eq!(out.audio, Some(false));
    assert_eq!(s.machine.sound, 0);
    let out = s.step(no_keys());
    assert_eq!(out.audio, Some(false));
    assert_eq!(s.machine.delay, 0);
    let out = s.step(no_keys());
    assert_eq!(s.machine.delay, 0);
    assert!(out.redraw);
}

#[test]
fn cadence_rate_spaces_the_ticks() {
    let mut m = loaded(&[0x12, 0x00]);
    m.delay = 10;
    let mut s = Scheduler::new(m, 7);
    for _ in 0..7 {
        let out = s.step(no_keys());
        assert!(!out.redraw);
        assert_eq!(out.audio, None);
        assert_eq!(s.machine.delay, 10);
    }
    let out = s.step(no_keys());
    assert!(out.redraw);
    assert_eq!(s.machine.delay, 9);
    for _ in 0..7 {
        let out = s.step(no_keys());
        assert!(!out.redraw);
    }
    let out = s.step(no_keys());
    assert!(out.redraw);
    assert_eq!(s.machine.delay, 8);
}

#[test]
fn runaway_program_counter_halts() {
    let m = loaded(&[0x1F, 0xFE]);
    let mut s = Scheduler::new(m, 7);
    s.step(no_keys());
    assert_eq!(s.machine.pc, 0xFFE);
    let out = s.step(no_keys());
    assert!(out.fault.is_none());
    assert_eq!(s.machine.pc, 0x1000);
    let out = s.step(no_keys());
    assert_eq!(out.fault, Some(Fault::PcOutOfBounds));
    assert_eq!(s.mode, Mode::Halted);
    let out = s.step(no_keys());
    assert!(out.fault.is_none());
    assert!(!out.redraw);
    assert_eq!(s.machine.pc, 0x1000);
}

#[test]
fn unknown_opcode_is_reported_not_fatal() {
    let m = loaded(&[0x01, 0x23, 0x00, 0xE0]);
    let mut s = Scheduler::new(m, 7);
    let out = s.step(no_keys());
    assert_eq!(out.unknown_opcode, Some(0x0123));
    assert!(out.fault.is_none());
    assert_eq!(s.mode, Mode::Running);
    assert_eq!(s.machine.pc, 0x202);
    let out = s.step(no_keys());
    assert_eq!(out.unknown_opcode, None);
}

#[test]
fn random_opcode_masks_whatever_byte_comes() {
    let m = loaded(&[0xC1, 0x00, 0xC2, 0x0F]);
    let mut s = Scheduler::new(m, 7);
    s.step(no_keys());
    assert_eq!(s.machine.regs[1], 0);
    s.step(no_keys());
    assert_eq!(s.machine.regs[2] & 0xF0, 0);
}

#[test]
fn host_halt_stops_everything() {
    let m = loaded(&[0x12, 0x00]);
    let mut s = Scheduler::new(m, 7);
    s.step(no_keys());
    s.halt();
    assert_eq!(s.mode, Mode::Halted);
    let pc = s.machine.pc;
    let out = s.step(no_keys());
    assert!(!out.redraw);
    assert_eq!(out.audio, None);
    assert_eq!(s.machine.pc, pc);
}
