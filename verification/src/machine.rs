//! An observable model of the machine that bring-up runs on.
//!
//! The model holds what bring-up can change: the register file of every hart,
//! the timer comparators of the core-local interruptor, and the scratch
//! region.  Software reaches them through a small set of primitives, [`Op`];
//! [`MachineState::step`] says what each primitive does, and the machine keeps
//! a trace of the primitives it has carried out, in order.
use vstd::prelude::*;
use crate::csr::{
    mpp_of, read_mpp, with_mpp, write_mpp, Hart, Privilege, MIE_MTIE, MSTATUS_MIE, SIE_SEIE,
    SIE_SSIE, SIE_STIE,
};
use crate::layout::{region_slots, BootConfig};

verus! {

/// A primitive of the register layer: one access to a register of the
/// executing hart, to the timer device, or to the scratch region.
#[derive(Clone, Copy, PartialEq, Eq, Debug)]
pub enum Op {
    /// Set the previous-privilege field of `mstatus`.
    SetMpp(Privilege),
    /// Write `mepc`.
    WriteMepc(u64),
    /// Write `satp`.
    WriteSatp(u64),
    /// Write `medeleg`.
    WriteMedeleg(u64),
    /// Write `mideleg`.
    WriteMideleg(u64),
    /// Set the external, timer and software enable bits of `sie`.
    EnableSupervisorInterrupts,
    /// Write `pmpaddr0`.
    WritePmpaddr0(u64),
    /// Write `pmpcfg0`.
    WritePmpcfg0(u64),
    /// Set the timer comparator of `hart` to the current time plus `interval`.
    ArmTimer { hart: usize, interval: u64 },
    /// Store `value` in slot `slot` of the scratch region.
    WriteScratch { slot: usize, value: u64 },
    /// Write `mscratch`.
    WriteMscratch(u64),
    /// Write `mtvec`.
    WriteMtvec(u64),
    /// Set the machine-mode interrupt enable bit of `mstatus`.
    EnableMachineInterrupts,
    /// Set the machine timer interrupt enable bit of `mie`.
    EnableMachineTimer,
    /// Write `tp`.
    WriteTp(u64),
    /// Return from machine mode: continue at `mepc`, at the privilege level
    /// that the previous-privilege field names.
    Mret,
}

/// A primitive together with the hart that carried it out.
#[derive(Clone, Copy, PartialEq, Eq, Debug)]
pub struct Event {
    pub hart: usize,
    pub op: Op,
}

/// The register file `hart` after it has carried out `op`.  The two
/// primitives that reach outside the hart leave its registers alone.
pub open spec fn hart_after(hart: Hart, op: Op) -> Hart {
    match op {
        Op::SetMpp(level) => Hart { mstatus: with_mpp(hart.mstatus, level), ..hart },
        Op::WriteMepc(value) => Hart { mepc: value, ..hart },
        Op::WriteSatp(value) => Hart { satp: value, ..hart },
        Op::WriteMedeleg(value) => Hart { medeleg: value, ..hart },
        Op::WriteMideleg(value) => Hart { mideleg: value, ..hart },
        Op::EnableSupervisorInterrupts => Hart {
            sie: hart.sie | SIE_SEIE | SIE_STIE | SIE_SSIE,
            ..hart
        },
        Op::WritePmpaddr0(value) => Hart { pmpaddr0: value, ..hart },
        Op::WritePmpcfg0(value) => Hart { pmpcfg0: value, ..hart },
        Op::ArmTimer { .. } => hart,
        Op::WriteScratch { .. } => hart,
        Op::WriteMscratch(value) => Hart { mscratch: value, ..hart },
        Op::WriteMtvec(value) => Hart { mtvec: value, ..hart },
        Op::EnableMachineInterrupts => Hart { mstatus: hart.mstatus | MSTATUS_MIE, ..hart },
        Op::EnableMachineTimer => Hart { mie: hart.mie | MIE_MTIE, ..hart },
        Op::WriteTp(value) => Hart { tp: value, ..hart },
        Op::Mret => Hart { mode: mpp_of(hart.mstatus), pc: hart.mepc, ..hart },
    }
}

/// What a [`Machine`] stands for.
#[verifier::ext_equal]
pub struct MachineState {
    /// The constants the machine was built with.
    pub config: BootConfig,
    /// Current reading of the timer device.
    pub time: u64,
    /// Register file of each hart, by hart identifier.
    pub harts: Seq<Hart>,
    /// Timer comparator of each hart, by hart identifier.
    pub compare: Seq<u64>,
    /// The scratch region, slot by slot.
    pub scratch: Seq<u64>,
    /// The primitives carried out so far, oldest first.
    pub trace: Seq<Event>,
}

impl MachineState {
    /// The machine has one register file and one comparator per hart, each
    /// hart knows its own identifier, and the scratch region has a slice for
    /// every hart.
    pub open spec fn wf(self) -> bool {
        &&& self.config.valid()
        &&& self.harts.len() == self.config.ncpu
        &&& self.compare.len() == self.config.ncpu
        &&& self.scratch.len() == region_slots(self.config.ncpu as int)
        &&& forall|i: int| 0 <= i < self.harts.len() ==> (#[trigger] self.harts[i]).mhartid == i
    }

    /// A machine with every hart at reset, the comparators and the scratch
    /// region zero, the timer at zero and no history.
    pub open spec fn at_reset(config: BootConfig) -> MachineState {
        MachineState {
            config,
            time: 0,
            harts: Seq::new(config.ncpu as nat, |i: int| Hart::at_reset(i as u64)),
            compare: Seq::new(config.ncpu as nat, |i: int| 0u64),
            scratch: Seq::new(region_slots(config.ncpu as int) as nat, |i: int| 0u64),
            trace: Seq::empty(),
        }
    }

    /// Whether `hart` may carry out `op` now: the hart exists and runs in
    /// machine mode, an armed comparator exists and its deadline fits in 64
    /// bits, and a scratch store hits the region.
    pub open spec fn accepts(self, hart: int, op: Op) -> bool {
        &&& 0 <= hart < self.harts.len()
        &&& self.harts[hart].mode == Privilege::Machine
        &&& match op {
            Op::ArmTimer { hart: target, interval } => {
                &&& target < self.compare.len()
                &&& self.time + interval <= u64::MAX
            },
            Op::WriteScratch { slot, .. } => slot < self.scratch.len(),
            _ => true,
        }
    }

    /// The machine after `hart` has carried out `op`.
    pub open spec fn step(self, hart: int, op: Op) -> MachineState {
        MachineState {
            harts: self.harts.update(hart, hart_after(self.harts[hart], op)),
            compare: match op {
                Op::ArmTimer { hart: target, interval } => self.compare.update(
                    target as int,
                    (self.time + interval) as u64,
                ),
                _ => self.compare,
            },
            scratch: match op {
                Op::WriteScratch { slot, value } => self.scratch.update(slot as int, value),
                _ => self.scratch,
            },
            trace: self.trace.push(Event { hart: hart as usize, op }),
            ..self
        }
    }

    /// The machine after the timer device has counted on to `time`.
    pub open spec fn at_time(self, time: u64) -> MachineState {
        MachineState { time, ..self }
    }
}

/// The machine: register files, timer device, scratch region and trace.
pub struct Machine {
    config: BootConfig,
    time: u64,
    harts: Vec<Hart>,
    compare: Vec<u64>,
    scratch: Vec<u64>,
    trace: Vec<Event>,
}

impl View for Machine {
    type V = MachineState;

    closed spec fn view(&self) -> MachineState {
        MachineState {
            config: self.config,
            time: self.time,
            harts: self.harts@,
            compare: self.compare@,
            scratch: self.scratch@,
            trace: self.trace@,
        }
    }
}

impl Machine {
    /// Builds the machine for `config` with every hart at reset, or nothing if
    /// the configuration is not valid.
    pub fn new(config: BootConfig) -> (made: Option<Machine>)
        ensures
            made is Some <==> config.valid(),
            made matches Some(machine) ==> {
                &&& machine@ == MachineState::at_reset(config)
                &&& machine@.wf()
            },
    {
        if !config.is_valid() {
            return None;
        }
        let slots: usize = config.capacity();
        let mut harts: Vec<Hart> = Vec::new();
        let mut compare: Vec<u64> = Vec::new();
        let mut id: usize = 0;
        while id < config.ncpu
            invariant
                id <= config.ncpu,
                harts@ == Seq::new(id as nat, |i: int| Hart::at_reset(i as u64)),
                compare@ == Seq::new(id as nat, |i: int| 0u64),
            decreases config.ncpu - id,
        {
            harts.push(Hart::reset(id as u64));
            compare.push(0);
            id = id + 1;
        }
        let mut scratch: Vec<u64> = Vec::new();
        let mut slot: usize = 0;
        while slot < slots
            invariant
                slot <= slots,
                scratch@ == Seq::new(slot as nat, |i: int| 0u64),
            decreases slots - slot,
        {
            scratch.push(0);
            slot = slot + 1;
        }
        Some(Machine { config, time: 0, harts, compare, scratch, trace: Vec::new() })
    }

    /// The constants the machine was built with.
    pub fn config(&self) -> (config: BootConfig)
        ensures
            config == self@.config,
    {
        self.config
    }

    /// Current reading of the timer device.
    pub fn time(&self) -> (time: u64)
        ensures
            time == self@.time,
    {
        self.time
    }

    /// Lets the timer device show `time`.  The device counts by itself: this
    /// is no primitive of a hart, and leaves no trace.
    pub fn set_time(&mut self, time: u64)
        ensures
            final(self)@ == old(self)@.at_time(time),
    {
        self.time = time;
    }

    /// The hart identifier that `hart` reads from its `mhartid` register.
    pub fn mhartid(&self, hart: usize) -> (id: usize)
        requires
            self@.wf(),
            hart < self@.config.ncpu,
        ensures
            id == hart,
            id == self@.harts[hart as int].mhartid,
    {
        self.harts[hart].mhartid as usize
    }

    /// The register file of `hart`.
    pub fn hart(&self, hart: usize) -> (regs: Hart)
        requires
            self@.wf(),
            hart < self@.config.ncpu,
        ensures
            regs == self@.harts[hart as int],
    {
        self.harts[hart]
    }

    /// The timer comparator of `hart`.
    pub fn timer_compare(&self, hart: usize) -> (deadline: u64)
        requires
            self@.wf(),
            hart < self@.config.ncpu,
        ensures
            deadline == self@.compare[hart as int],
    {
        self.compare[hart]
    }

    /// The word in slot `slot` of the scratch region.
    pub fn scratch(&self, slot: usize) -> (word: u64)
        requires
            self@.wf(),
            slot < region_slots(self@.config.ncpu as int),
        ensures
            word == self@.scratch[slot as int],
    {
        self.scratch[slot]
    }

    /// The primitives carried out so far, oldest first.
    pub fn trace(&self) -> (events: &Vec<Event>)
        ensures
            events@ == self@.trace,
    {
        &self.trace
    }

    /// Lets `hart` carry out `op`, and records it.
    pub fn perform(&mut self, hart: usize, op: Op)
        requires
            old(self)@.wf(),
            old(self)@.accepts(hart as int, op),
        ensures
            final(self)@ == old(self)@.step(hart as int, op),
            final(self)@.wf(),
    {
        let mut regs: Hart = self.harts[hart];
        match op {
            Op::SetMpp(level) => {
                regs.mstatus = write_mpp(regs.mstatus, level);
            },
            Op::WriteMepc(value) => {
                regs.mepc = value;
            },
            Op::WriteSatp(value) => {
                regs.satp = value;
            },
            Op::WriteMedeleg(value) => {
                regs.medeleg = value;
            },
            Op::WriteMideleg(value) => {
                regs.mideleg = value;
            },
            Op::EnableSupervisorInterrupts => {
                regs.sie = regs.sie | SIE_SEIE | SIE_STIE | SIE_SSIE;
            },
            Op::WritePmpaddr0(value) => {
                regs.pmpaddr0 = value;
            },
            Op::WritePmpcfg0(value) => {
                regs.pmpcfg0 = value;
            },
            Op::ArmTimer { hart: target, interval } => {
                let deadline: u64 = self.time + interval;
                self.compare.set(target, deadline);
            },
            Op::WriteScratch { slot, value } => {
                self.scratch.set(slot, value);
            },
            Op::WriteMscratch(value) => {
                regs.mscratch = value;
            },
            Op::WriteMtvec(value) => {
                regs.mtvec = value;
            },
            Op::EnableMachineInterrupts => {
                regs.mstatus = regs.mstatus | MSTATUS_MIE;
            },
            Op::EnableMachineTimer => {
                regs.mie = regs.mie | MIE_MTIE;
            },
            Op::WriteTp(value) => {
                regs.tp = value;
            },
            Op::Mret => {
                regs.mode = read_mpp(regs.mstatus);
                regs.pc = regs.mepc;
            },
        }
        self.harts.set(hart, regs);
        self.trace.push(Event { hart, op });
    }
}

} // verus!
