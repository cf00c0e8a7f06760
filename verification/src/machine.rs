use vstd::prelude::*;

verus! {

/// Size of the flat byte-addressed memory.
pub const MEM_SIZE: usize = 4096;

/// Number of general-purpose 8-bit registers.
pub const NUM_REGS: usize = 16;

/// Number of logical keypad keys.
pub const NUM_KEYS: usize = 16;

/// Framebuffer width in pixels.
pub const FB_WIDTH: usize = 64;

/// Framebuffer height in pixels.
pub const FB_HEIGHT: usize = 32;

/// Number of framebuffer cells.
pub const FB_SIZE: usize = FB_WIDTH * FB_HEIGHT;

/// First memory address available to a loaded program.
pub const PROGRAM_START: usize = 0x200;

/// Number of bytes the built-in font table occupies, from address 0.
pub const FONT_BYTES: usize = 80;

/// Index of the register that several opcodes overwrite as a flag
/// output (carry, borrow, collision, shifted-out bit).
pub const FLAG_REG: usize = 15;

/// A fatal condition: the interpreter halts rather than continue with
/// an out-of-range access or an impossible control transfer.
#[derive(Clone, Copy, PartialEq, Eq, Structural, Debug)]
pub enum Fault {
    /// A subroutine return was executed with an empty call stack.
    EmptyStack,
    /// A memory transfer would touch an address at or beyond `MEM_SIZE`.
    MemoryOutOfBounds,
    /// A key-state query used a register value outside the 16 key codes.
    KeyOutOfRange,
    /// The program counter left memory, so no instruction can be fetched.
    PcOutOfBounds,
    /// A program image would extend past the end of memory.
    ProgramTooLarge,
}

/// The complete mutable state of the virtual machine.
pub struct Machine {
    /// Flat memory; addresses 0..80 hold the font table, 0x200.. the program.
    pub memory: Vec<u8>,
    /// The 16 general-purpose registers.
    pub regs: Vec<u8>,
    /// The 16-bit pointer register used for memory-block operations.
    pub index: u16,
    /// Address of the next instruction to fetch.
    pub pc: u16,
    /// LIFO sequence of return addresses.
    pub stack: Vec<u16>,
    /// 8-bit counter decremented at the cadence rate, floored at 0.
    pub delay: u8,
    /// 8-bit counter decremented at the cadence rate; audio runs while > 0.
    pub sound: u8,
    /// 64x32 pixel cells, row-major, origin top-left; true means lit.
    pub fb: Vec<bool>,
    /// Currently-held state of the 16 keypad keys.
    pub keys: Vec<bool>,
    /// When present, execution is suspended until a key is held; the
    /// held key's code is then stored into this register.
    pub waiting: Option<u8>,
}

/// The mathematical value of a `Machine`: the same fields over `Seq`.
pub struct MachineModel {
    pub memory: Seq<u8>,
    pub regs: Seq<u8>,
    pub index: u16,
    pub pc: u16,
    pub stack: Seq<u16>,
    pub delay: u8,
    pub sound: u8,
    pub fb: Seq<bool>,
    pub keys: Seq<bool>,
    pub waiting: Option<u8>,
}

impl View for Machine {
    type V = MachineModel;

    open spec fn view(&self) -> MachineModel {
        MachineModel {
            memory: self.memory@,
            regs: self.regs@,
            index: self.index,
            pc: self.pc,
            stack: self.stack@,
            delay: self.delay,
            sound: self.sound,
            fb: self.fb@,
            keys: self.keys@,
            waiting: self.waiting,
        }
    }
}

impl MachineModel {
    /// Well-formedness: every component has its architectural size, a
    /// pending key wait names a real register, and every stacked return
    /// address lies inside memory.
    pub open spec fn wf(self) -> bool {
        &&& self.memory.len() == MEM_SIZE
        &&& self.regs.len() == NUM_REGS
        &&& self.fb.len() == FB_SIZE
        &&& self.keys.len() == NUM_KEYS
        &&& (match self.waiting {
            Some(r) => r < 16,
            None => true,
        })
        &&& (forall|i: int| 0 <= i < self.stack.len() ==> self.stack[i] < MEM_SIZE)
    }
}

/// The byte at offset `i` of the built-in font table: 16 glyphs for the
/// hexadecimal digits, 5 bytes per glyph, stored from address 0.
pub open spec fn font_seq() -> Seq<u8> {
    seq![
        0xf0u8, 0x90, 0x90, 0x90, 0xf0, 0x20, 0x60, 0x20, 0x20, 0x70, 0xf0, 0x10, 0xf0, 0x80,
        0xf0, 0xf0, 0x10, 0xf0, 0x10, 0xf0, 0x90, 0x90, 0xf0, 0x10, 0x10, 0xf0, 0x80, 0xf0,
        0x10, 0xf0, 0xf0, 0x80, 0xf0, 0x90, 0xf0, 0xf0, 0x10, 0x20, 0x40, 0x40, 0xf0, 0x90,
        0xf0, 0x90, 0xf0, 0xf0, 0x90, 0xf0, 0x10, 0xf0, 0xf0, 0x90, 0xf0, 0x90, 0x90, 0xe0,
        0x90, 0xe0, 0x90, 0xe0, 0xf0, 0x80, 0x80, 0x80, 0xf0, 0xe0, 0x90, 0x90, 0x90, 0xe0,
        0xf0, 0x80, 0xf0, 0x80, 0xf0, 0xf0, 0x80, 0xf0, 0x80, 0x80,
    ]
}

/// Memory as it stands at power-on: the font table followed by zeroes.
pub open spec fn initial_memory() -> Seq<u8> {
    Seq::new(MEM_SIZE as nat, |i: int| if 0 <= i < FONT_BYTES { font_seq()[i] } else { 0u8 })
}

/// The machine as constructed at program start: memory zero-filled
/// except the font table, registers and timers zeroed, the program
/// counter at `PROGRAM_START`, the stack empty, no pending key wait.
pub open spec fn initial_model() -> MachineModel {
    MachineModel {
        memory: initial_memory(),
        regs: Seq::new(NUM_REGS as nat, |i: int| 0u8),
        index: 0,
        pc: PROGRAM_START as u16,
        stack: Seq::empty(),
        delay: 0,
        sound: 0,
        fb: Seq::new(FB_SIZE as nat, |i: int| false),
        keys: Seq::new(NUM_KEYS as nat, |i: int| false),
        waiting: None,
    }
}

/// `mem` with `data` written over the range starting at `at`; every
/// other byte keeps its value.
pub open spec fn write_seq(mem: Seq<u8>, at: int, data: Seq<u8>) -> Seq<u8> {
    Seq::new(mem.len(), |i: int| if at <= i < at + data.len() { data[i - at] } else { mem[i] })
}

/// A vector of `n` copies of `value`.
fn filled_bytes(n: usize, value: u8) -> (v: Vec<u8>)
    ensures
        v@ == Seq::new(n as nat, |i: int| value),
{
    let mut v: Vec<u8> = Vec::new();
    let mut i: usize = 0;
    while i < n
        invariant
            i <= n,
            v@ =~= Seq::new(i as nat, |j: int| value),
        decreases n - i,
    {
        v.push(value);
        i = i + 1;
    }
    proof {
        assert(v@ =~= Seq::new(n as nat, |i: int| value));
    }
    v
}

/// A vector of `n` copies of `value`.
pub fn filled_bools(n: usize, value: bool) -> (v: Vec<bool>)
    ensures
        v@ == Seq::new(n as nat, |i: int| value),
{
    let mut v: Vec<bool> = Vec::new();
    let mut i: usize = 0;
    while i < n
        invariant
            i <= n,
            v@ =~= Seq::new(i as nat, |j: int| value),
        decreases n - i,
    {
        v.push(value);
        i = i + 1;
    }
    proof {
        assert(v@ =~= Seq::new(n as nat, |i: int| value));
    }
    v
}

/// The font table as bytes, glyph 0 first.
fn font_table() -> (v: Vec<u8>)
    ensures
        v@ == font_seq(),
{
    let mut v: Vec<u8> = Vec::new();
    v.push(0xf0);
    v.push(0x90);
    v.push(0x90);
    v.push(0x90);
    v.push(0xf0);
    v.push(0x20);
    v.push(0x60);
    v.push(0x20);
    v.push(0x20);
    v.push(0x70);
    v.push(0xf0);
    v.push(0x10);
    v.push(0xf0);
    v.push(0x80);
    v.push(0xf0);
    v.push(0xf0);
    v.push(0x10);
    v.push(0xf0);
    v.push(0x10);
    v.push(0xf0);
    v.push(0x90);
    v.push(0x90);
    v.push(0xf0);
    v.push(0x10);
    v.push(0x10);
    v.push(0xf0);
    v.push(0x80);
    v.push(0xf0);
    v.push(0x10);
    v.push(0xf0);
    v.push(0xf0);
    v.push(0x80);
    v.push(0xf0);
    v.push(0x90);
    v.push(0xf0);
    v.push(0xf0);
    v.push(0x10);
    v.push(0x20);
    v.push(0x40);
    v.push(0x40);
    v.push(0xf0);
    v.push(0x90);
    v.push(0xf0);
    v.push(0x90);
    v.push(0xf0);
    v.push(0xf0);
    v.push(0x90);
    v.push(0xf0);
    v.push(0x10);
    v.push(0xf0);
    v.push(0xf0);
    v.push(0x90);
    v.push(0xf0);
    v.push(0x90);
    v.push(0x90);
    v.push(0xe0);
    v.push(0x90);
    v.push(0xe0);
    v.push(0x90);
    v.push(0xe0);
    v.push(0xf0);
    v.push(0x80);
    v.push(0x80);
    v.push(0x80);
    v.push(0xf0);
    v.push(0xe0);
    v.push(0x90);
    v.push(0x90);
    v.push(0x90);
    v.push(0xe0);
    v.push(0xf0);
    v.push(0x80);
    v.push(0xf0);
    v.push(0x80);
    v.push(0xf0);
    v.push(0xf0);
    v.push(0x80);
    v.push(0xf0);
    v.push(0x80);
    v.push(0x80);
    proof {
        assert(v@ =~= font_seq());
    }
    v
}

impl Machine {
    /// The machine at power-on: font table in low memory, everything
    /// else zeroed, program counter at `PROGRAM_START`.
    pub fn new() -> (m: Machine)
        ensures
            m@ == initial_model(),
            m@.wf(),
    {
        let font = font_table();
        let mut memory = filled_bytes(MEM_SIZE, 0);
        let mut i: usize = 0;
        while i < FONT_BYTES
            invariant
                i <= FONT_BYTES,
                font@ == font_seq(),
                memory@.len() == MEM_SIZE,
                forall|j: int| 0 <= j < i ==> memory@[j] == font_seq()[j],
                forall|j: int| i <= j < MEM_SIZE ==> memory@[j] == 0u8,
            decreases FONT_BYTES - i,
        {
            let b = font[i];
            memory.set(i, b);
            i = i + 1;
        }
        proof {
            assert(memory@ =~= initial_memory());
        }
        let m = Machine {
            memory,
            regs: filled_bytes(NUM_REGS, 0),
            index: 0,
            pc: 0x200,
            stack: Vec::new(),
            delay: 0,
            sound: 0,
            fb: filled_bools(FB_SIZE, false),
            keys: filled_bools(NUM_KEYS, false),
            waiting: None,
        };
        proof {
            assert(m@.stack =~= initial_model().stack);
            assert(m@ == initial_model());
        }
        m
    }

    /// Copies a program image into memory starting at `PROGRAM_START`.
    /// An image whose last byte would land at or beyond `MEM_SIZE` is
    /// rejected whole, and memory is untouched.
    pub fn load_program(&mut self, rom: &Vec<u8>) -> (r: Result<(), Fault>)
        requires
            old(self)@.wf(),
        ensures
            final(self)@.wf(),
            PROGRAM_START + rom@.len() <= MEM_SIZE ==> r == Ok::<(), Fault>(())
                && final(self)@ == (MachineModel {
                memory: write_seq(old(self)@.memory, PROGRAM_START as int, rom@),
                ..old(self)@
            }),
            PROGRAM_START + rom@.len() > MEM_SIZE ==> r == Err::<(), Fault>(Fault::ProgramTooLarge)
                && final(self)@ == old(self)@,
    {
        if rom.len() > MEM_SIZE - PROGRAM_START {
            return Err(Fault::ProgramTooLarge);
        }
        let n = rom.len();
        let mut i: usize = 0;
        while i < n
            invariant
                i <= n,
                n == rom@.len(),
                PROGRAM_START + n <= MEM_SIZE,
                self.memory@.len() == MEM_SIZE,
                forall|j: int|
                    PROGRAM_START <= j < PROGRAM_START + i ==> self.memory@[j] == rom@[j
                        - PROGRAM_START],
                forall|j: int|
                    0 <= j < MEM_SIZE && !(PROGRAM_START <= j < PROGRAM_START + i)
                        ==> self.memory@[j] == old(self)@.memory[j],
                self.regs == old(self).regs,
                self.index == old(self).index,
                self.pc == old(self).pc,
                self.stack == old(self).stack,
                self.delay == old(self).delay,
                self.sound == old(self).sound,
                self.fb == old(self).fb,
                self.keys == old(self).keys,
                self.waiting == old(self).waiting,
            decreases n - i,
        {
            let b = rom[i];
            self.memory.set(PROGRAM_START + i, b);
            i = i + 1;
        }
        proof {
            assert(self.memory@ =~= write_seq(old(self)@.memory, PROGRAM_START as int, rom@));
        }
        Ok(())
    }
}

} // verus!
