use vstd::prelude::*;
use crate::bits::{bit_at, spec_bit_at};
use crate::decode::{decode, spec_decode, wf_op, Opcode};
use crate::machine::{
    filled_bools, write_seq, Fault, Machine, MachineModel, FB_HEIGHT, FB_SIZE, FB_WIDTH, FLAG_REG,
    MEM_SIZE, NUM_KEYS, NUM_REGS,
};

verus! {

/// What the scheduler does to the program counter after an instruction:
/// advance by two (the default), set it to an address (no further
/// increment), or leave it while a key wait is pending.
#[derive(Clone, Copy, PartialEq, Eq, Structural, Debug)]
pub enum NextPc {
    Advance,
    Jump(u16),
    Suspend,
}

/// 8-bit addition, wrapping on overflow.
pub open spec fn wrap_add(a: u8, b: u8) -> u8 {
    ((a + b) % 256) as u8
}

/// 1 when the 8-bit sum of `a` and `b` overflows, else 0.
pub open spec fn carry_of(a: u8, b: u8) -> u8 {
    if a + b > 255 {
        1
    } else {
        0
    }
}

/// 8-bit subtraction `a - b`, wrapping on borrow.
pub open spec fn wrap_sub(a: u8, b: u8) -> u8 {
    ((a - b + 256) % 256) as u8
}

/// 1 when `a - b` needs no borrow, else 0.
pub open spec fn no_borrow_of(a: u8, b: u8) -> u8 {
    if a >= b {
        1
    } else {
        0
    }
}

/// `m` with the program counter moved past one instruction when `cond`
/// holds: the skip half of the conditional opcodes.
pub open spec fn skip_if(m: MachineModel, cond: bool) -> MachineModel {
    if cond {
        MachineModel { pc: (m.pc + 2) as u16, ..m }
    } else {
        m
    }
}

/// The framebuffer cell a sprite bit lands on: coordinates wrap at the
/// screen edges, never clip. `row` and `col` count from the sprite's
/// top-left; the cell index is row-major.
pub open spec fn pixel_index(x0: u8, y0: u8, row: int, col: int) -> int {
    let x = (x0 + col) % (FB_WIDTH as int);
    let y = (y0 + row) % (FB_HEIGHT as int);
    y * (FB_WIDTH as int) + x
}

/// XORs one sprite bit (bit `col` from the left of `b`) into the
/// framebuffer, extending the collision flag when it erases a lit cell.
pub open spec fn draw_bit(
    fb: Seq<bool>,
    coll: bool,
    b: u8,
    x0: u8,
    y0: u8,
    row: int,
    col: int,
) -> (Seq<bool>, bool) {
    if spec_bit_at(b, (7 - col) as u8) == 1 {
        let idx = pixel_index(x0, y0, row, col);
        (fb.update(idx, !fb[idx]), coll || fb[idx])
    } else {
        (fb, coll)
    }
}

/// One sprite byte XORed into the framebuffer, most-significant bit
/// first, from bit column `col` on.
pub open spec fn draw_row(
    fb: Seq<bool>,
    coll: bool,
    b: u8,
    x0: u8,
    y0: u8,
    row: int,
    col: int,
) -> (Seq<bool>, bool)
    decreases 8 - col,
{
    if col < 0 || col >= 8 {
        (fb, coll)
    } else {
        let s = draw_bit(fb, coll, b, x0, y0, row, col);
        draw_row(s.0, s.1, b, x0, y0, row, col + 1)
    }
}

/// A whole sprite XORed into the framebuffer, from byte `row` on; the
/// returned flag says whether any lit cell was erased.
pub open spec fn draw_sprite(
    fb: Seq<bool>,
    coll: bool,
    sprite: Seq<u8>,
    x0: u8,
    y0: u8,
    row: int,
) -> (Seq<bool>, bool)
    decreases sprite.len() - row,
{
    if row < 0 || row >= sprite.len() {
        (fb, coll)
    } else {
        let s = draw_row(fb, coll, sprite[row], x0, y0, row, 0);
        draw_sprite(s.0, s.1, sprite, x0, y0, row + 1)
    }
}

/// The draw opcode: reads `n` sprite bytes at the index register, XORs
/// them into the framebuffer at (register x, register y) with wrapping
/// coordinates, and sets the flag register to 1 exactly when a lit cell
/// was erased. Reading past the end of memory is a fault.
pub open spec fn spec_draw(m: MachineModel, x: u8, y: u8, n: u8) -> (MachineModel, Result<
    NextPc,
    Fault,
>) {
    if m.index + n > MEM_SIZE {
        (m, Err(Fault::MemoryOutOfBounds))
    } else {
        let sprite = m.memory.subrange(m.index as int, m.index + n);
        let s = draw_sprite(m.fb, false, sprite, m.regs[x as int], m.regs[y as int], 0);
        (
            MachineModel {
                fb: s.0,
                regs: m.regs.update(FLAG_REG as int, if s.1 {
                    1u8
                } else {
                    0u8
                }),
                ..m
            },
            Ok(NextPc::Advance),
        )
    }
}

/// The effect of one decoded instruction on the machine: the new state
/// and either the next-program-counter policy or the fault that stops
/// the machine. `rnd` is the byte the random opcode masks; every other
/// opcode ignores it. A faulting instruction leaves the state unchanged.
pub open spec fn spec_apply(m: MachineModel, op: Opcode, rnd: u8) -> (MachineModel, Result<
    NextPc,
    Fault,
>) {
    match op {
        Opcode::Clear => (
            MachineModel { fb: Seq::new(FB_SIZE as nat, |i: int| false), ..m },
            Ok(NextPc::Advance),
        ),
        Opcode::Return => if m.stack.len() == 0 {
            (m, Err(Fault::EmptyStack))
        } else {
            (
                MachineModel {
                    pc: m.stack[m.stack.len() - 1],
                    stack: m.stack.subrange(0, m.stack.len() - 1),
                    ..m
                },
                Ok(NextPc::Advance),
            )
        },
        Opcode::Jump(a) => (m, Ok(NextPc::Jump(a))),
        Opcode::Call(a) => (MachineModel { stack: m.stack.push(m.pc), ..m }, Ok(NextPc::Jump(a))),
        Opcode::SkipEqImm(x, nn) => (skip_if(m, m.regs[x as int] == nn), Ok(NextPc::Advance)),
        Opcode::SkipNeImm(x, nn) => (skip_if(m, m.regs[x as int] != nn), Ok(NextPc::Advance)),
        Opcode::SkipEqReg(x, y) => (
            skip_if(m, m.regs[x as int] == m.regs[y as int]),
            Ok(NextPc::Advance),
        ),
        Opcode::SetImm(x, nn) => (
            MachineModel { regs: m.regs.update(x as int, nn), ..m },
            Ok(NextPc::Advance),
        ),
        Opcode::AddImm(x, nn) => (
            MachineModel { regs: m.regs.update(x as int, wrap_add(m.regs[x as int], nn)), ..m },
            Ok(NextPc::Advance),
        ),
        Opcode::Copy(x, y) => (
            MachineModel { regs: m.regs.update(x as int, m.regs[y as int]), ..m },
            Ok(NextPc::Advance),
        ),
        Opcode::Or(x, y) => (
            MachineModel {
                regs: m.regs.update(x as int, m.regs[x as int] | m.regs[y as int]),
                ..m
            },
            Ok(NextPc::Advance),
        ),
        Opcode::And(x, y) => (
            MachineModel {
                regs: m.regs.update(x as int, m.regs[x as int] & m.regs[y as int]),
                ..m
            },
            Ok(NextPc::Advance),
        ),
        Opcode::Xor(x, y) => (
            MachineModel {
                regs: m.regs.update(x as int, m.regs[x as int] ^ m.regs[y as int]),
                ..m
            },
            Ok(NextPc::Advance),
        ),
        Opcode::AddReg(x, y) => {
            let a = m.regs[x as int];
            let b = m.regs[y as int];
            (
                MachineModel {
                    regs: m.regs.update(x as int, wrap_add(a, b)).update(
                        FLAG_REG as int,
                        carry_of(a, b),
                    ),
                    ..m
                },
                Ok(NextPc::Advance),
            )
        },
        Opcode::SubReg(x, y) => {
            let a = m.regs[x as int];
            let b = m.regs[y as int];
            (
                MachineModel {
                    regs: m.regs.update(x as int, wrap_sub(a, b)).update(
                        FLAG_REG as int,
                        no_borrow_of(a, b),
                    ),
                    ..m
                },
                Ok(NextPc::Advance),
            )
        },
        Opcode::Shr(x) => {
            let r1 = m.regs.update(FLAG_REG as int, spec_bit_at(m.regs[x as int], 0));
            (
                MachineModel { regs: r1.update(x as int, r1[x as int] / 2), ..m },
                Ok(NextPc::Advance),
            )
        },
        Opcode::SubFrom(x, y) => {
            let a = m.regs[x as int];
            let b = m.regs[y as int];
            (
                MachineModel {
                    regs: m.regs.update(x as int, wrap_sub(b, a)).update(
                        FLAG_REG as int,
                        no_borrow_of(b, a),
                    ),
                    ..m
                },
                Ok(NextPc::Advance),
            )
        },
        Opcode::Shl(x) => {
            let r1 = m.regs.update(FLAG_REG as int, spec_bit_at(m.regs[x as int], 7));
            (
                MachineModel { regs: r1.update(x as int, ((r1[x as int] * 2) % 256) as u8), ..m },
                Ok(NextPc::Advance),
            )
        },
        Opcode::SkipNeReg(x, y) => (
            skip_if(m, m.regs[x as int] != m.regs[y as int]),
            Ok(NextPc::Advance),
        ),
        Opcode::SetIndex(a) => (MachineModel { index: a, ..m }, Ok(NextPc::Advance)),
        Opcode::JumpPlus(a) => (m, Ok(NextPc::Jump((a + m.regs[0]) as u16))),
        Opcode::Random(x, nn) => (
            MachineModel { regs: m.regs.update(x as int, rnd & nn), ..m },
            Ok(NextPc::Advance),
        ),
        Opcode::Draw(x, y, n) => spec_draw(m, x, y, n),
        Opcode::SkipKey(x) => if m.regs[x as int] >= NUM_KEYS {
            (m, Err(Fault::KeyOutOfRange))
        } else {
            (skip_if(m, m.keys[m.regs[x as int] as int]), Ok(NextPc::Advance))
        },
        Opcode::SkipNoKey(x) => if m.regs[x as int] >= NUM_KEYS {
            (m, Err(Fault::KeyOutOfRange))
        } else {
            (skip_if(m, !m.keys[m.regs[x as int] as int]), Ok(NextPc::Advance))
        },
        Opcode::ReadDelay(x) => (
            MachineModel { regs: m.regs.update(x as int, m.delay), ..m },
            Ok(NextPc::Advance),
        ),
        Opcode::WaitKey(x) => (MachineModel { waiting: Some(x), ..m }, Ok(NextPc::Suspend)),
        Opcode::SetDelay(x) => (
            MachineModel { delay: m.regs[x as int], ..m },
            Ok(NextPc::Advance),
        ),
        Opcode::SetSound(x) => (
            MachineModel { sound: m.regs[x as int], ..m },
            Ok(NextPc::Advance),
        ),
        Opcode::AddIndex(x) => (
            MachineModel { index: ((m.index + m.regs[x as int]) % 0x10000) as u16, ..m },
            Ok(NextPc::Advance),
        ),
        Opcode::FontAddr(x) => (
            MachineModel { index: (m.regs[x as int] * 5) as u16, ..m },
            Ok(NextPc::Advance),
        ),
        Opcode::StoreBcd(x) => if m.index + 3 > MEM_SIZE {
            (m, Err(Fault::MemoryOutOfBounds))
        } else {
            let v = m.regs[x as int];
            (
                MachineModel {
                    memory: m.memory.update(m.index as int, (v / 100) as u8).update(
                        m.index + 1,
                        ((v % 100) / 10) as u8,
                    ).update(m.index + 2, (v % 10) as u8),
                    ..m
                },
                Ok(NextPc::Advance),
            )
        },
        Opcode::StoreRegs => if m.index + NUM_REGS > MEM_SIZE {
            (m, Err(Fault::MemoryOutOfBounds))
        } else {
            (
                MachineModel { memory: write_seq(m.memory, m.index as int, m.regs), ..m },
                Ok(NextPc::Advance),
            )
        },
        Opcode::LoadRegs => if m.index + NUM_REGS > MEM_SIZE {
            (m, Err(Fault::MemoryOutOfBounds))
        } else {
            (
                MachineModel {
                    regs: m.memory.subrange(m.index as int, m.index + NUM_REGS),
                    ..m
                },
                Ok(NextPc::Advance),
            )
        },
        Opcode::Unknown(_) => (m, Ok(NextPc::Advance)),
    }
}

/// The control-flow and immediate opcodes, handled by one executor.
pub open spec fn is_ctrl_op(op: Opcode) -> bool {
    match op {
        Opcode::Clear => true,
        Opcode::Return => true,
        Opcode::Jump(_) => true,
        Opcode::Call(_) => true,
        Opcode::SkipEqImm(_, _) => true,
        Opcode::SkipNeImm(_, _) => true,
        Opcode::SkipEqReg(_, _) => true,
        Opcode::SkipNeReg(_, _) => true,
        Opcode::SetImm(_, _) => true,
        Opcode::AddImm(_, _) => true,
        Opcode::SetIndex(_) => true,
        Opcode::JumpPlus(_) => true,
        Opcode::Unknown(_) => true,
        _ => false,
    }
}

/// The register-to-register arithmetic and logic opcodes.
pub open spec fn is_alu_op(op: Opcode) -> bool {
    match op {
        Opcode::Copy(_, _) => true,
        Opcode::Or(_, _) => true,
        Opcode::And(_, _) => true,
        Opcode::Xor(_, _) => true,
        Opcode::AddReg(_, _) => true,
        Opcode::SubReg(_, _) => true,
        Opcode::Shr(_) => true,
        Opcode::SubFrom(_, _) => true,
        Opcode::Shl(_) => true,
        _ => false,
    }
}

/// The key, timer, random and index opcodes.
pub open spec fn is_sys_op(op: Opcode) -> bool {
    match op {
        Opcode::Random(_, _) => true,
        Opcode::SkipKey(_) => true,
        Opcode::SkipNoKey(_) => true,
        Opcode::ReadDelay(_) => true,
        Opcode::WaitKey(_) => true,
        Opcode::SetDelay(_) => true,
        Opcode::SetSound(_) => true,
        Opcode::AddIndex(_) => true,
        Opcode::FontAddr(_) => true,
        _ => false,
    }
}

/// The memory block-transfer opcodes.
pub open spec fn is_mem_op(op: Opcode) -> bool {
    match op {
        Opcode::StoreBcd(_) => true,
        Opcode::StoreRegs => true,
        Opcode::LoadRegs => true,
        _ => false,
    }
}

/// The instruction word at the program counter, read big-endian from
/// two consecutive bytes; a counter at or past the end of memory is the
/// fault that halts the machine.
pub open spec fn spec_fetch(m: MachineModel) -> Result<u16, Fault> {
    if m.pc + 1 < MEM_SIZE {
        Ok((m.memory[m.pc as int] * 256 + m.memory[m.pc as int + 1]) as u16)
    } else {
        Err(Fault::PcOutOfBounds)
    }
}

impl Machine {
    /// Reads the two instruction bytes at the program counter.
    pub fn fetch(&self) -> (r: Result<u16, Fault>)
        requires
            self@.wf(),
        ensures
            r == spec_fetch(self@),
    {
        let pc = self.pc as usize;
        if pc + 1 < MEM_SIZE {
            let hi = self.memory[pc];
            let lo = self.memory[pc + 1];
            Ok((hi as u16) * 256 + (lo as u16))
        } else {
            Err(Fault::PcOutOfBounds)
        }
    }

    /// Executes one instruction word: decodes it and applies its rule.
    /// `rnd` is the byte the random opcode masks. The caller has just
    /// fetched `word` at the program counter, so the counter is inside
    /// memory; every address this leaves on the call stack is too.
    pub fn execute(&mut self, word: u16, rnd: u8) -> (r: Result<NextPc, Fault>)
        requires
            old(self)@.wf(),
            old(self)@.pc + 1 < MEM_SIZE,
        ensures
            final(self)@ == spec_apply(old(self)@, spec_decode(word), rnd).0,
            r == spec_apply(old(self)@, spec_decode(word), rnd).1,
            final(self)@.wf(),
            final(self)@.pc <= MEM_SIZE,
    {
        let op = decode(word);
        match op {
            Opcode::Clear
            | Opcode::Return
            | Opcode::Jump(_)
            | Opcode::Call(_)
            | Opcode::SkipEqImm(_, _)
            | Opcode::SkipNeImm(_, _)
            | Opcode::SkipEqReg(_, _)
            | Opcode::SkipNeReg(_, _)
            | Opcode::SetImm(_, _)
            | Opcode::AddImm(_, _)
            | Opcode::SetIndex(_)
            | Opcode::JumpPlus(_)
            | Opcode::Unknown(_) => self.exec_ctrl(op, rnd),
            Opcode::Copy(_, _)
            | Opcode::Or(_, _)
            | Opcode::And(_, _)
            | Opcode::Xor(_, _)
            | Opcode::AddReg(_, _)
            | Opcode::SubReg(_, _)
            | Opcode::Shr(_)
            | Opcode::SubFrom(_, _)
            | Opcode::Shl(_) => self.exec_alu(op, rnd),
            Opcode::Random(_, _)
            | Opcode::SkipKey(_)
            | Opcode::SkipNoKey(_)
            | Opcode::ReadDelay(_)
            | Opcode::WaitKey(_)
            | Opcode::SetDelay(_)
            | Opcode::SetSound(_)
            | Opcode::AddIndex(_)
            | Opcode::FontAddr(_) => self.exec_sys(op, rnd),
            Opcode::Draw(x, y, n) => self.op_draw(x, y, n),
            Opcode::StoreBcd(_) | Opcode::StoreRegs | Opcode::LoadRegs => self.exec_mem(op, rnd),
        }
    }

    /// Control-flow and immediate opcodes; see `spec_apply`.
    fn exec_ctrl(&mut self, op: Opcode, rnd: u8) -> (r: Result<NextPc, Fault>)
        requires
            old(self)@.wf(),
            old(self)@.pc + 1 < MEM_SIZE,
            wf_op(op),
            is_ctrl_op(op),
        ensures
            final(self)@ == spec_apply(old(self)@, op, rnd).0,
            r == spec_apply(old(self)@, op, rnd).1,
            final(self)@.wf(),
            final(self)@.pc <= MEM_SIZE,
    {
        match op {
            Opcode::Clear => {
                self.fb = filled_bools(FB_SIZE, false);
                Ok(NextPc::Advance)
            },
            Opcode::Return => {
                match self.stack.pop() {
                    Some(a) => {
                        self.pc = a;
                        Ok(NextPc::Advance)
                    },
                    None => Err(Fault::EmptyStack),
                }
            },
            Opcode::Jump(a) => Ok(NextPc::Jump(a)),
            Opcode::Call(a) => {
                self.stack.push(self.pc);
                Ok(NextPc::Jump(a))
            },
            Opcode::SkipEqImm(x, nn) => {
                if self.regs[x as usize] == nn {
                    self.pc = self.pc + 2;
                }
                Ok(NextPc::Advance)
            },
            Opcode::SkipNeImm(x, nn) => {
                if self.regs[x as usize] != nn {
                    self.pc = self.pc + 2;
                }
                Ok(NextPc::Advance)
            },
            Opcode::SkipEqReg(x, y) => {
                if self.regs[x as usize] == self.regs[y as usize] {
                    self.pc = self.pc + 2;
                }
                Ok(NextPc::Advance)
            },
            Opcode::SkipNeReg(x, y) => {
                if self.regs[x as usize] != self.regs[y as usize] {
                    self.pc = self.pc + 2;
                }
                Ok(NextPc::Advance)
            },
            Opcode::SetImm(x, nn) => {
                self.regs.set(x as usize, nn);
                Ok(NextPc::Advance)
            },
            Opcode::AddImm(x, nn) => {
                let a = self.regs[x as usize];
                let sum: u16 = a as u16 + nn as u16;
                self.regs.set(x as usize, (sum % 256) as u8);
                Ok(NextPc::Advance)
            },
            Opcode::SetIndex(a) => {
                self.index = a;
                Ok(NextPc::Advance)
            },
            Opcode::JumpPlus(a) => {
                let target: u16 = a + self.regs[0] as u16;
                Ok(NextPc::Jump(target))
            },
            _ => Ok(NextPc::Advance),
        }
    }

    /// The register-to-register arithmetic and logic family; see
    /// `spec_apply`.
    fn exec_alu(&mut self, op: Opcode, rnd: u8) -> (r: Result<NextPc, Fault>)
        requires
            old(self)@.wf(),
            wf_op(op),
            is_alu_op(op),
        ensures
            final(self)@ == spec_apply(old(self)@, op, rnd).0,
            r == spec_apply(old(self)@, op, rnd).1,
            final(self)@.wf(),
            final(self)@.pc == old(self)@.pc,
    {
        match op {
            Opcode::Copy(x, y) => {
                let v = self.regs[y as usize];
                self.regs.set(x as usize, v);
                Ok(NextPc::Advance)
            },
            Opcode::Or(x, y) => {
                let v = self.regs[x as usize] | self.regs[y as usize];
                self.regs.set(x as usize, v);
                Ok(NextPc::Advance)
            },
            Opcode::And(x, y) => {
                let v = self.regs[x as usize] & self.regs[y as usize];
                self.regs.set(x as usize, v);
                Ok(NextPc::Advance)
            },
            Opcode::Xor(x, y) => {
                let v = self.regs[x as usize] ^ self.regs[y as usize];
                self.regs.set(x as usize, v);
                Ok(NextPc::Advance)
            },
            Opcode::AddReg(x, y) => {
                let a = self.regs[x as usize];
                let b = self.regs[y as usize];
                let sum: u16 = a as u16 + b as u16;
                self.regs.set(x as usize, (sum % 256) as u8);
                self.regs.set(
                    FLAG_REG,
                    if sum > 255 {
                        1
                    } else {
                        0
                    },
                );
                Ok(NextPc::Advance)
            },
            Opcode::SubReg(x, y) => {
                let a = self.regs[x as usize];
                let b = self.regs[y as usize];
                let diff: u16 = (a as u16 + 256 - b as u16) % 256;
                self.regs.set(x as usize, diff as u8);
                self.regs.set(
                    FLAG_REG,
                    if a >= b {
                        1
                    } else {
                        0
                    },
                );
                Ok(NextPc::Advance)
            },
            Opcode::Shr(x) => {
                let bit = bit_at(self.regs[x as usize], 0);
                self.regs.set(FLAG_REG, bit);
                let v = self.regs[x as usize];
                self.regs.set(x as usize, v / 2);
                Ok(NextPc::Advance)
            },
            Opcode::SubFrom(x, y) => {
                let a = self.regs[x as usize];
                let b = self.regs[y as usize];
                let diff: u16 = (b as u16 + 256 - a as u16) % 256;
                self.regs.set(x as usize, diff as u8);
                self.regs.set(
                    FLAG_REG,
                    if b >= a {
                        1
                    } else {
                        0
                    },
                );
                Ok(NextPc::Advance)
            },
            Opcode::Shl(x) => {
                let bit = bit_at(self.regs[x as usize], 7);
                self.regs.set(FLAG_REG, bit);
                let v = self.regs[x as usize];
                let doubled: u16 = (v as u16 * 2) % 256;
                self.regs.set(x as usize, doubled as u8);
                Ok(NextPc::Advance)
            },
            _ => Ok(NextPc::Advance),
        }
    }

    /// The key, timer, random and index opcodes; see `spec_apply`.
    fn exec_sys(&mut self, op: Opcode, rnd: u8) -> (r: Result<NextPc, Fault>)
        requires
            old(self)@.wf(),
            old(self)@.pc + 1 < MEM_SIZE,
            wf_op(op),
            is_sys_op(op),
        ensures
            final(self)@ == spec_apply(old(self)@, op, rnd).0,
            r == spec_apply(old(self)@, op, rnd).1,
            final(self)@.wf(),
            final(self)@.pc <= MEM_SIZE,
    {
        match op {
            Opcode::Random(x, nn) => {
                self.regs.set(x as usize, rnd & nn);
                Ok(NextPc::Advance)
            },
            Opcode::SkipKey(x) => {
                let k = self.regs[x as usize];
                if k as usize >= NUM_KEYS {
                    return Err(Fault::KeyOutOfRange);
                }
                if self.keys[k as usize] {
                    self.pc = self.pc + 2;
                }
                Ok(NextPc::Advance)
            },
            Opcode::SkipNoKey(x) => {
                let k = self.regs[x as usize];
                if k as usize >= NUM_KEYS {
                    return Err(Fault::KeyOutOfRange);
                }
                if !self.keys[k as usize] {
                    self.pc = self.pc + 2;
                }
                Ok(NextPc::Advance)
            },
            Opcode::ReadDelay(x) => {
                let d = self.delay;
                self.regs.set(x as usize, d);
                Ok(NextPc::Advance)
            },
            Opcode::WaitKey(x) => {
                self.waiting = Some(x);
                Ok(NextPc::Suspend)
            },
            Opcode::SetDelay(x) => {
                self.delay = self.regs[x as usize];
                Ok(NextPc::Advance)
            },
            Opcode::SetSound(x) => {
                self.sound = self.regs[x as usize];
                Ok(NextPc::Advance)
            },
            Opcode::AddIndex(x) => {
                let s: u32 = self.index as u32 + self.regs[x as usize] as u32;
                self.index = (s % 0x10000) as u16;
                Ok(NextPc::Advance)
            },
            Opcode::FontAddr(x) => {
                self.index = (self.regs[x as usize] as u16) * 5;
                Ok(NextPc::Advance)
            },
            _ => Ok(NextPc::Advance),
        }
    }

    /// The memory block-transfer opcodes; see `spec_apply`.
    fn exec_mem(&mut self, op: Opcode, rnd: u8) -> (r: Result<NextPc, Fault>)
        requires
            old(self)@.wf(),
            wf_op(op),
            is_mem_op(op),
        ensures
            final(self)@ == spec_apply(old(self)@, op, rnd).0,
            r == spec_apply(old(self)@, op, rnd).1,
            final(self)@.wf(),
            final(self)@.pc == old(self)@.pc,
    {
        match op {
            Opcode::StoreBcd(x) => {
                let i = self.index as usize;
                if i + 3 > MEM_SIZE {
                    return Err(Fault::MemoryOutOfBounds);
                }
                let v = self.regs[x as usize];
                self.memory.set(i, v / 100);
                self.memory.set(i + 1, (v % 100) / 10);
                self.memory.set(i + 2, v % 10);
                Ok(NextPc::Advance)
            },
            Opcode::StoreRegs => {
                let i = self.index as usize;
                if i + NUM_REGS > MEM_SIZE {
                    return Err(Fault::MemoryOutOfBounds);
                }
                let mut c: usize = 0;
                while c < NUM_REGS
                    invariant
                        c <= NUM_REGS,
                        i + NUM_REGS <= MEM_SIZE,
                        i == old(self)@.index,
                        self.memory@.len() == MEM_SIZE,
                        self.regs@.len() == NUM_REGS,
                        forall|j: int| i <= j < i + c ==> self.memory@[j] == self.regs@[j - i],
                        forall|j: int|
                            0 <= j < MEM_SIZE && !(i <= j < i + c) ==> self.memory@[j] == old(
                                self,
                            )@.memory[j],
                        self.regs == old(self).regs,
                        self.index == old(self).index,
                        self.pc == old(self).pc,
                        self.stack == old(self).stack,
                        self.delay == old(self).delay,
                        self.sound == old(self).sound,
                        self.fb == old(self).fb,
                        self.keys == old(self).keys,
                        self.waiting == old(self).waiting,
                    decreases NUM_REGS - c,
                {
                    let v = self.regs[c];
                    self.memory.set(i + c, v);
                    c = c + 1;
                }
                proof {
                    assert(self.memory@ =~= write_seq(
                        old(self)@.memory,
                        old(self)@.index as int,
                        old(self)@.regs,
                    ));
                }
                Ok(NextPc::Advance)
            },
            Opcode::LoadRegs => {
                let i = self.index as usize;
                if i + NUM_REGS > MEM_SIZE {
                    return Err(Fault::MemoryOutOfBounds);
                }
                let mut c: usize = 0;
                while c < NUM_REGS
                    invariant
                        c <= NUM_REGS,
                        i + NUM_REGS <= MEM_SIZE,
                        i == old(self)@.index,
                        self.memory@.len() == MEM_SIZE,
                        self.regs@.len() == NUM_REGS,
                        forall|j: int| 0 <= j < c ==> self.regs@[j] == self.memory@[i + j],
                        forall|j: int| c <= j < NUM_REGS ==> self.regs@[j] == old(self)@.regs[j],
                        self.memory == old(self).memory,
                        self.index == old(self).index,
                        self.pc == old(self).pc,
                        self.stack == old(self).stack,
                        self.delay == old(self).delay,
                        self.sound == old(self).sound,
                        self.fb == old(self).fb,
                        self.keys == old(self).keys,
                        self.waiting == old(self).waiting,
                    decreases NUM_REGS - c,
                {
                    let v = self.memory[i + c];
                    self.regs.set(c, v);
                    c = c + 1;
                }
                proof {
                    assert(self.regs@ =~= old(self)@.memory.subrange(
                        old(self)@.index as int,
                        old(self)@.index + NUM_REGS,
                    ));
                }
                Ok(NextPc::Advance)
            },
            _ => Ok(NextPc::Advance),
        }
    }

    /// The draw opcode's executor; see `spec_draw`.
    fn op_draw(&mut self, x: u8, y: u8, n: u8) -> (r: Result<NextPc, Fault>)
        requires
            old(self)@.wf(),
            x < 16,
            y < 16,
            n < 16,
        ensures
            final(self)@ == spec_draw(old(self)@, x, y, n).0,
            r == spec_draw(old(self)@, x, y, n).1,
            final(self)@.wf(),
            final(self)@.pc == old(self)@.pc,
    {
        let i = self.index as usize;
        if i + (n as usize) > MEM_SIZE {
            return Err(Fault::MemoryOutOfBounds);
        }
        let x0 = self.regs[x as usize];
        let y0 = self.regs[y as usize];
        let mut sprite: Vec<u8> = Vec::new();
        let mut r: usize = 0;
        while r < n as usize
            invariant
                r <= n as usize,
                i + n as usize <= MEM_SIZE,
                self.memory@.len() == MEM_SIZE,
                sprite@ =~= self.memory@.subrange(i as int, i + r),
            decreases n as usize - r,
        {
            let b = self.memory[i + r];
            sprite.push(b);
            proof {
                assert(sprite@ =~= self.memory@.subrange(i as int, i + r + 1));
            }
            r = r + 1;
        }
        let ghost fb0 = self.fb@;
        let ghost sp = sprite@;
        let mut coll: bool = false;
        let mut row: usize = 0;
        while row < n as usize
            invariant
                row <= n as usize,
                sprite@ == sp,
                sp.len() == n as nat,
                self.fb@.len() == FB_SIZE,
                fb0.len() == FB_SIZE,
                draw_sprite(fb0, false, sp, x0, y0, 0) == draw_sprite(
                    self.fb@,
                    coll,
                    sp,
                    x0,
                    y0,
                    row as int,
                ),
                self.memory == old(self).memory,
                self.regs == old(self).regs,
                self.index == old(self).index,
                self.pc == old(self).pc,
                self.stack == old(self).stack,
                self.delay == old(self).delay,
                self.sound == old(self).sound,
                self.keys == old(self).keys,
                self.waiting == old(self).waiting,
            decreases n as usize - row,
        {
            let b = sprite[row];
            let ghost fb_r = self.fb@;
            let ghost coll_r = coll;
            let mut col: usize = 0;
            while col < 8
                invariant
                    col <= 8,
                    b == sp[row as int],
                    row < n as usize,
                    self.fb@.len() == FB_SIZE,
                    draw_row(fb_r, coll_r, b, x0, y0, row as int, 0) == draw_row(
                        self.fb@,
                        coll,
                        b,
                        x0,
                        y0,
                        row as int,
                        col as int,
                    ),
                    self.memory == old(self).memory,
                    self.regs == old(self).regs,
                    self.index == old(self).index,
                    self.pc == old(self).pc,
                    self.stack == old(self).stack,
                    self.delay == old(self).delay,
                    self.sound == old(self).sound,
                    self.keys == old(self).keys,
                    self.waiting == old(self).waiting,
                decreases 8 - col,
            {
                let ghost fb_c = self.fb@;
                let ghost coll_c = coll;
                if bit_at(b, (7 - col) as u8) == 1 {
                    let px = ((x0 as usize) + col) % FB_WIDTH;
                    let py = ((y0 as usize) + row) % FB_HEIGHT;
                    let coord = py * FB_WIDTH + px;
                    proof {
                        assert(coord == pixel_index(x0, y0, row as int, col as int));
                        assert(coord < FB_SIZE);
                    }
                    let was = self.fb[coord];
                    if was {
                        coll = true;
                    }
                    self.fb.set(coord, !was);
                }
                proof {
                    assert((self.fb@, coll) == draw_bit(
                        fb_c,
                        coll_c,
                        b,
                        x0,
                        y0,
                        row as int,
                        col as int,
                    ));
                    assert(draw_row(fb_c, coll_c, b, x0, y0, row as int, col as int) == draw_row(
                        self.fb@,
                        coll,
                        b,
                        x0,
                        y0,
                        row as int,
                        col as int + 1,
                    ));
                }
                col = col + 1;
            }
            proof {
                assert(draw_row(self.fb@, coll, b, x0, y0, row as int, 8) == (self.fb@, coll));
                assert(draw_sprite(fb_r, coll_r, sp, x0, y0, row as int) == draw_sprite(
                    self.fb@,
                    coll,
                    sp,
                    x0,
                    y0,
                    row as int + 1,
                ));
            }
            row = row + 1;
        }
        self.regs.set(
            FLAG_REG,
            if coll {
                1
            } else {
                0
            },
        );
        proof {
            assert(draw_sprite(self.fb@, coll, sp, x0, y0, n as int) == (self.fb@, coll));
        }
        Ok(NextPc::Advance)
    }
}

} // verus!
