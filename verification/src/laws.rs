use vstd::prelude::*;
use crate::decode::{spec_decode, Opcode};
use crate::exec::{pixel_index, spec_apply, spec_fetch, NextPc};
use crate::machine::{Fault, MachineModel, MEM_SIZE, NUM_REGS};
use crate::sched::{spec_first_held, spec_sched_step, Mode, SchedulerModel};

verus! {

/// A well-formed instruction word outside the defined opcode table is a
/// no-op with a diagnostic: one scheduler iteration leaves the machine
/// unchanged except that the program counter advances by two (and the
/// key state is refreshed, as every iteration does); the word is
/// reported, no fault is raised, and the scheduler keeps running.
pub proof fn lemma_unknown_opcode_is_noop(
    s: SchedulerModel,
    keys: Seq<bool>,
    rnd: u8,
    word: u16,
)
    requires
        s.wf(),
        s.mode is Running,
        s.ticks_left > 0,
        spec_fetch(s.machine) == Ok::<u16, Fault>(word),
        spec_decode(word) is Unknown,
    ensures
        spec_sched_step(s, keys, rnd).0.machine == (MachineModel {
            pc: (s.machine.pc + 2) as u16,
            keys: keys,
            ..s.machine
        }),
        spec_sched_step(s, keys, rnd).0.mode is Running,
        spec_sched_step(s, keys, rnd).1.unknown_opcode == Some(word),
        spec_sched_step(s, keys, rnd).1.fault is None,
{
}

/// Executing an unknown word at the instruction level: the machine
/// state is untouched and the program counter policy is the default
/// advance.
pub proof fn lemma_unknown_apply_is_identity(m: MachineModel, word: u16, rnd: u8)
    requires
        spec_decode(word) is Unknown,
    ensures
        spec_apply(m, spec_decode(word), rnd).0 == m,
        spec_apply(m, spec_decode(word), rnd).1 == Ok::<NextPc, Fault>(NextPc::Advance),
{
}

/// Arithmetic wrap law, overflowing case: adding register y holding
/// 0x01 into register x holding 0xFF wraps register x to 0x00 and sets
/// the flag register to 1.
pub proof fn lemma_add_wrap_carry(m: MachineModel, x: u8, y: u8, rnd: u8)
    requires
        m.wf(),
        x < 16,
        y < 16,
        x != 15,
        m.regs[x as int] == 0xff,
        m.regs[y as int] == 0x01,
    ensures
        spec_apply(m, Opcode::AddReg(x, y), rnd).0.regs[x as int] == 0x00,
        spec_apply(m, Opcode::AddReg(x, y), rnd).0.regs[15] == 1,
        spec_apply(m, Opcode::AddReg(x, y), rnd).1 == Ok::<NextPc, Fault>(NextPc::Advance),
{
}

/// Arithmetic wrap law, carry-free case: adding register y holding
/// 0x01 into register x holding 0x01 gives 0x02 and clears the flag
/// register.
pub proof fn lemma_add_no_carry(m: MachineModel, x: u8, y: u8, rnd: u8)
    requires
        m.wf(),
        x < 16,
        y < 16,
        x != 15,
        m.regs[x as int] == 0x01,
        m.regs[y as int] == 0x01,
    ensures
        spec_apply(m, Opcode::AddReg(x, y), rnd).0.regs[x as int] == 0x02,
        spec_apply(m, Opcode::AddReg(x, y), rnd).0.regs[15] == 0,
{
}

/// Subtraction borrow law: subtracting register y holding 0x02 from
/// register x holding 0x01 wraps register x to 0xFF, and the flag
/// register reads 0 to signal that a borrow occurred.
pub proof fn lemma_sub_borrow(m: MachineModel, x: u8, y: u8, rnd: u8)
    requires
        m.wf(),
        x < 16,
        y < 16,
        x != 15,
        m.regs[x as int] == 0x01,
        m.regs[y as int] == 0x02,
    ensures
        spec_apply(m, Opcode::SubReg(x, y), rnd).0.regs[x as int] == 0xff,
        spec_apply(m, Opcode::SubReg(x, y), rnd).0.regs[15] == 0,
{
}

/// Draw wrap law: a sprite whose origin sits in the last framebuffer
/// column (x = 63) writes its first bit column at x = 63 and the
/// remaining seven wrapped to x = 0..6, each on its own row.
pub proof fn lemma_draw_wraps_columns(y0: u8, row: int, col: int)
    requires
        0 <= col < 8,
        0 <= row,
    ensures
        pixel_index(63, y0, row, col) == ((y0 + row) % 32) * 64 + (if col == 0 {
            63int
        } else {
            col - 1
        }),
{
}

/// Round-trip law: storing registers 0..15 at the index register,
/// rewriting the register file arbitrarily, then loading from the same
/// address restores the original register values exactly.
pub proof fn lemma_store_load_round_trip(
    m: MachineModel,
    scratch: Seq<u8>,
    rnd1: u8,
    rnd2: u8,
)
    requires
        m.wf(),
        scratch.len() == NUM_REGS,
        m.index + NUM_REGS <= MEM_SIZE,
    ensures
        ({
            let stored = spec_apply(m, Opcode::StoreRegs, rnd1).0;
            let wiped = MachineModel { regs: scratch, ..stored };
            spec_apply(wiped, Opcode::LoadRegs, rnd2).0.regs == m.regs
        }),
{
    let stored = spec_apply(m, Opcode::StoreRegs, rnd1).0;
    let wiped = MachineModel { regs: scratch, ..stored };
    assert(spec_apply(wiped, Opcode::LoadRegs, rnd2).0.regs =~= m.regs);
}

/// Key-wait law, entry: executing the key-wait opcode suspends the
/// scheduler. The machine records the target register, nothing else
/// changes (the key state aside), and the program counter stays at the
/// waiting instruction.
pub proof fn lemma_wait_key_suspends(
    s: SchedulerModel,
    keys: Seq<bool>,
    rnd: u8,
    word: u16,
    x: u8,
)
    requires
        s.wf(),
        s.mode is Running,
        s.ticks_left > 0,
        spec_fetch(s.machine) == Ok::<u16, Fault>(word),
        spec_decode(word) == Opcode::WaitKey(x),
    ensures
        spec_sched_step(s, keys, rnd).0.mode is WaitingForKey,
        spec_sched_step(s, keys, rnd).0.machine == (MachineModel {
            keys: keys,
            waiting: Some(x),
            ..s.machine
        }),
{
}

/// Key-wait law, blocking: while the scheduler waits and no key is
/// held, an iteration executes no instruction; the machine is unchanged
/// except for the refreshed key state.
pub proof fn lemma_wait_blocks(s: SchedulerModel, keys: Seq<bool>, rnd: u8)
    requires
        s.wf(),
        s.mode is WaitingForKey,
        s.ticks_left > 0,
        spec_first_held(keys, 0) is None,
    ensures
        spec_sched_step(s, keys, rnd).0.mode is WaitingForKey,
        spec_sched_step(s, keys, rnd).0.machine == (MachineModel { keys: keys, ..s.machine }),
{
}

/// Key-wait law, resolution: when some key is held, the lowest-numbered
/// held key's code is stored into the recorded target register, the
/// wait is cleared, the program counter moves past the waiting
/// instruction, and the scheduler runs again (executing an instruction
/// in the same iteration).
pub proof fn lemma_wait_resolves(s: SchedulerModel, keys: Seq<bool>, rnd: u8, k: u8, t: u8)
    requires
        s.wf(),
        s.mode is WaitingForKey,
        spec_first_held(keys, 0) == Some(k),
        s.machine.waiting == Some(t),
    ensures
        ({
            let resolved = MachineModel {
                regs: s.machine.regs.update(t as int, k),
                pc: ((s.machine.pc + 2) % 0x10000) as u16,
                waiting: None,
                keys: keys,
                ..s.machine
            };
            spec_sched_step(s, keys, rnd) == spec_sched_step(
                SchedulerModel { machine: resolved, mode: Mode::Running, ..s },
                keys,
                rnd,
            )
        }),
{
    let resolved = MachineModel {
        regs: s.machine.regs.update(t as int, k),
        pc: ((s.machine.pc + 2) % 0x10000) as u16,
        waiting: None,
        keys: keys,
        ..s.machine
    };
    let s2 = SchedulerModel { machine: resolved, mode: Mode::Running, ..s };
    assert(MachineModel { keys: keys, ..resolved } == resolved);
    assert(spec_sched_step(s, keys, rnd) == spec_sched_step(s2, keys, rnd));
}

} // verus!
