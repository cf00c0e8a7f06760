use vstd::prelude::*;
use crate::decode::{decode, spec_decode, Opcode};
use crate::exec::{spec_apply, spec_fetch, NextPc};
use crate::machine::{Fault, Machine, MachineModel, MEM_SIZE, NUM_KEYS};

verus! {

/// The scheduler's three states: executing instructions, suspended on a
/// key wait, or stopped for good (host shutdown or a fault).
#[derive(Clone, Copy, PartialEq, Eq, Structural, Debug)]
pub enum Mode {
    Running,
    WaitingForKey,
    Halted,
}

/// What the host must do after one scheduler iteration: push the
/// framebuffer when `redraw` is set, start (`Some(true)`) or stop
/// (`Some(false)`) the tone, report a fault, or log an unrecognized
/// opcode word.
#[derive(Clone, Copy, PartialEq, Eq, Debug)]
pub struct StepOutput {
    pub redraw: bool,
    pub audio: Option<bool>,
    pub fault: Option<Fault>,
    pub unknown_opcode: Option<u16>,
}

/// Drives the fetch-decode-execute loop at a fixed cadence: every
/// `rate + 1` iterations the timers tick, the tone is gated, and the
/// framebuffer is pushed. The reference cadence is `rate == 7`, eight
/// instruction cycles per timer tick.
pub struct Scheduler {
    pub machine: Machine,
    pub mode: Mode,
    /// Iterations left until the next timer/redraw tick.
    pub ticks_left: u8,
    /// Countdown reload value: iterations between ticks, less one.
    pub rate: u8,
}

/// The mathematical value of a `Scheduler`.
pub struct SchedulerModel {
    pub machine: MachineModel,
    pub mode: Mode,
    pub ticks_left: u8,
    pub rate: u8,
}

impl View for Scheduler {
    type V = SchedulerModel;

    open spec fn view(&self) -> SchedulerModel {
        SchedulerModel {
            machine: self.machine@,
            mode: self.mode,
            ticks_left: self.ticks_left,
            rate: self.rate,
        }
    }
}

impl SchedulerModel {
    /// Well-formedness: the machine is well-formed, the countdown never
    /// exceeds its reload value, and the mode agrees with the machine's
    /// pending key wait.
    pub open spec fn wf(self) -> bool {
        &&& self.machine.wf()
        &&& self.ticks_left <= self.rate
        &&& (self.mode is WaitingForKey ==> self.machine.waiting is Some)
        &&& (self.mode is Running ==> self.machine.waiting is None)
    }
}

/// The lowest-numbered key at or after position `i` that is held, if
/// any: a key wait resolves to this key.
pub open spec fn spec_first_held(keys: Seq<bool>, i: int) -> Option<u8>
    decreases keys.len() - i,
{
    if i < 0 || i >= keys.len() {
        None
    } else if keys[i] {
        Some(i as u8)
    } else {
        spec_first_held(keys, i + 1)
    }
}

/// The scheduler output when nothing outward-facing happened.
pub open spec fn quiet_output() -> StepOutput {
    StepOutput { redraw: false, audio: None, fault: None, unknown_opcode: None }
}

/// One scheduler iteration. In order: the key state is refreshed; a
/// pending key wait resolves if some key is held (the lowest-numbered
/// one is stored and the program counter moves past the waiting
/// instruction); if then running, exactly one instruction is fetched,
/// executed and its next-program-counter policy applied, a fault
/// halting the machine with the state it faulted in; finally the
/// cadence countdown is maintained, and on a tick both timers
/// decrement (floored at zero), the tone is gated by the sound timer,
/// and a redraw is requested. A halted scheduler does nothing.
pub open spec fn spec_sched_step(s: SchedulerModel, keys: Seq<bool>, rnd: u8) -> (
    SchedulerModel,
    StepOutput,
) {
    if s.mode is Halted {
        (s, quiet_output())
    } else {
        let m0 = MachineModel { keys: keys, ..s.machine };
        let resolved = if s.mode is WaitingForKey {
            match spec_first_held(keys, 0) {
                Some(k) => {
                    let t = match m0.waiting {
                        Some(t) => t,
                        None => 0u8,
                    };
                    (
                        MachineModel {
                            regs: m0.regs.update(t as int, k),
                            pc: ((m0.pc + 2) % 0x10000) as u16,
                            waiting: None,
                            ..m0
                        },
                        Mode::Running,
                    )
                },
                None => (m0, Mode::WaitingForKey),
            }
        } else {
            (m0, Mode::Running)
        };
        let m1 = resolved.0;
        let executed = if resolved.1 is Running {
            match spec_fetch(m1) {
                Err(f) => (m1, Mode::Halted, Some(f), None),
                Ok(word) => {
                    let op = spec_decode(word);
                    let applied = spec_apply(m1, op, rnd);
                    match applied.1 {
                        Err(f) => (applied.0, Mode::Halted, Some(f), None),
                        Ok(policy) => {
                            let unk: Option<u16> = if op is Unknown {
                                Some(word)
                            } else {
                                None
                            };
                            match policy {
                                NextPc::Advance => (
                                    MachineModel { pc: (applied.0.pc + 2) as u16, ..applied.0 },
                                    Mode::Running,
                                    None,
                                    unk,
                                ),
                                NextPc::Jump(a) => (
                                    MachineModel { pc: a, ..applied.0 },
                                    Mode::Running,
                                    None,
                                    unk,
                                ),
                                NextPc::Suspend => (applied.0, Mode::WaitingForKey, None, unk),
                            }
                        },
                    }
                },
            }
        } else {
            (m1, resolved.1, None, None)
        };
        let m2 = executed.0;
        if s.ticks_left == 0 {
            let delay2: u8 = if m2.delay > 0 {
                (m2.delay - 1) as u8
            } else {
                0
            };
            let sound2: u8 = if m2.sound > 0 {
                (m2.sound - 1) as u8
            } else {
                0
            };
            (
                SchedulerModel {
                    machine: MachineModel { delay: delay2, sound: sound2, ..m2 },
                    mode: executed.1,
                    ticks_left: s.rate,
                    rate: s.rate,
                },
                StepOutput {
                    redraw: true,
                    audio: Some(sound2 > 0),
                    fault: executed.2,
                    unknown_opcode: executed.3,
                },
            )
        } else {
            (
                SchedulerModel {
                    machine: m2,
                    mode: executed.1,
                    ticks_left: (s.ticks_left - 1) as u8,
                    rate: s.rate,
                },
                StepOutput {
                    redraw: false,
                    audio: None,
                    fault: executed.2,
                    unknown_opcode: executed.3,
                },
            )
        }
    }
}

/// The lowest-numbered held key, if any.
pub fn first_held(keys: &Vec<bool>) -> (r: Option<u8>)
    requires
        keys@.len() == NUM_KEYS,
    ensures
        r == spec_first_held(keys@, 0),
{
    let mut i: usize = 0;
    while i < NUM_KEYS
        invariant
            i <= NUM_KEYS,
            keys@.len() == NUM_KEYS,
            spec_first_held(keys@, 0) == spec_first_held(keys@, i as int),
        decreases NUM_KEYS - i,
    {
        if keys[i] {
            return Some(i as u8);
        }
        i = i + 1;
    }
    None
}

/// Relies on rand::random: one byte from the thread-local generator.
/// Nothing is assumed of its value; callers state what holds of every
/// outcome.
#[verifier::external_body]
fn random_byte() -> u8 {
    rand::random::<u8>()
}

impl Scheduler {
    /// A scheduler that owns `machine` and will run it, ticking the
    /// timers and redrawing every `rate + 1` iterations.
    pub fn new(machine: Machine, rate: u8) -> (s: Scheduler)
        requires
            machine@.wf(),
            machine@.waiting is None,
        ensures
            s@ == (SchedulerModel {
                machine: machine@,
                mode: Mode::Running,
                ticks_left: rate,
                rate: rate,
            }),
            s@.wf(),
    {
        Scheduler { machine, mode: Mode::Running, ticks_left: rate, rate }
    }

    /// The host's shutdown signal: stops the scheduler for good.
    pub fn halt(&mut self)
        ensures
            final(self)@ == (SchedulerModel { mode: Mode::Halted, ..old(self)@ }),
    {
        self.mode = Mode::Halted;
    }

    /// One scheduler iteration with the random byte supplied by the
    /// caller; see `spec_sched_step`. `keys` is the current held state
    /// of the 16 keypad keys.
    pub fn step_with_random(&mut self, keys: Vec<bool>, rnd: u8) -> (out: StepOutput)
        requires
            old(self)@.wf(),
            keys@.len() == NUM_KEYS,
        ensures
            final(self)@ == spec_sched_step(old(self)@, keys@, rnd).0,
            out == spec_sched_step(old(self)@, keys@, rnd).1,
            final(self)@.wf(),
    {
        if matches!(self.mode, Mode::Halted) {
            return StepOutput { redraw: false, audio: None, fault: None, unknown_opcode: None };
        }
        self.machine.keys = keys;
        let mut fault: Option<Fault> = None;
        let mut unknown: Option<u16> = None;
        if matches!(self.mode, Mode::WaitingForKey) {
            match first_held(&self.machine.keys) {
                Some(k) => {
                    let t: u8 = match self.machine.waiting {
                        Some(t) => t,
                        None => 0,
                    };
                    self.machine.regs.set(t as usize, k);
                    let npc: u32 = (self.machine.pc as u32 + 2) % 0x10000;
                    self.machine.pc = npc as u16;
                    self.machine.waiting = None;
                    self.mode = Mode::Running;
                },
                None => {},
            }
        }
        if matches!(self.mode, Mode::Running) {
            match self.machine.fetch() {
                Err(f) => {
                    self.mode = Mode::Halted;
                    fault = Some(f);
                },
                Ok(word) => {
                    match self.machine.execute(word, rnd) {
                        Err(f) => {
                            self.mode = Mode::Halted;
                            fault = Some(f);
                        },
                        Ok(policy) => {
                            if matches!(decode(word), Opcode::Unknown(_)) {
                                unknown = Some(word);
                            }
                            match policy {
                                NextPc::Advance => {
                                    self.machine.pc = self.machine.pc + 2;
                                },
                                NextPc::Jump(a) => {
                                    self.machine.pc = a;
                                },
                                NextPc::Suspend => {
                                    self.mode = Mode::WaitingForKey;
                                },
                            }
                        },
                    }
                },
            }
        }
        let redraw: bool;
        let mut audio: Option<bool> = None;
        if self.ticks_left == 0 {
            if self.machine.delay > 0 {
                self.machine.delay = self.machine.delay - 1;
            }
            if self.machine.sound > 0 {
                self.machine.sound = self.machine.sound - 1;
            }
            self.ticks_left = self.rate;
            audio = Some(self.machine.sound > 0);
            redraw = true;
        } else {
            self.ticks_left = self.ticks_left - 1;
            redraw = false;
        }
        StepOutput { redraw, audio, fault, unknown_opcode: unknown }
    }

    /// One scheduler iteration: draws the random opcode's byte from the
    /// generator, then proceeds as `spec_sched_step` says for some byte.
    pub fn step(&mut self, keys: Vec<bool>) -> (out: StepOutput)
        requires
            old(self)@.wf(),
            keys@.len() == NUM_KEYS,
        ensures
            final(self)@.wf(),
            exists|rnd: u8|
                final(self)@ == spec_sched_step(old(self)@, keys@, rnd).0 && out == spec_sched_step(
                    old(self)@,
                    keys@,
                    rnd,
                ).1,
    {
        let rnd = random_byte();
        let out = self.step_with_random(keys, rnd);
        proof {
            assert(self@ == spec_sched_step(old(self)@, keys@, rnd).0 && out == spec_sched_step(
                old(self)@,
                keys@,
                rnd,
            ).1);
        }
        out
    }
}

} // verus!
