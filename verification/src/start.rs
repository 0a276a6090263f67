//! The bring-up sequence: what a hart does between reset and its first
//! instruction in supervisor mode.
//!
//! [`start`] programs the privilege transition, switches paging off,
//! delegates traps, opens physical memory protection, arms the timer through
//! [`timerinit`], records the hart identifier in `tp`, and returns from
//! machine mode.  The order is part of the contract: the machine's trace grows
//! by exactly [`boot_ops`].  [`boot_op`] hands the same sequence out one
//! primitive at a time, for code that carries it out on the hardware itself.
use vstd::prelude::*;
use crate::csr::{
    has_bits, lemma_enable_keeps_mpp, lemma_mpp_write_then_read, lemma_or_sets_bits, with_mpp,
    Hart, Privilege, DELEGATE_ALL, MIE_MTIE, MSTATUS_MIE, PMPADDR_ALL, PMPCFG_FULL_ACCESS,
    SATP_BARE, SIE_SEIE, SIE_SSIE, SIE_STIE,
};
use crate::layout::{
    compare_addr, in_slice, scratch_ptr, slot_index, BootConfig, SLOT_COMPARE_ADDR,
    SLOT_INTERVAL,
};
use crate::machine::{Event, Machine, MachineState, Op};

verus! {

/// The primitives by which `hart` arms its timer, in the order it carries
/// them out.
pub open spec fn timer_ops(config: BootConfig, hart: int) -> Seq<Op> {
    seq![
        Op::ArmTimer { hart: hart as usize, interval: config.interval },
        Op::WriteScratch {
            slot: slot_index(hart, SLOT_COMPARE_ADDR as int) as usize,
            value: compare_addr(config.compare_base as int, hart) as u64,
        },
        Op::WriteScratch {
            slot: slot_index(hart, SLOT_INTERVAL as int) as usize,
            value: config.interval,
        },
        Op::WriteMscratch(scratch_ptr(config.scratch_base as int, hart) as u64),
        Op::WriteMtvec(config.trap_vector),
        Op::EnableMachineInterrupts,
        Op::EnableMachineTimer,
    ]
}

/// The primitives by which `hart` goes from reset to supervisor mode, in the
/// order it carries them out.
pub open spec fn boot_ops(config: BootConfig, hart: int) -> Seq<Op> {
    seq![
        Op::SetMpp(Privilege::Supervisor),
        Op::WriteMepc(config.kernel_entry),
        Op::WriteSatp(SATP_BARE),
        Op::WriteMedeleg(DELEGATE_ALL),
        Op::WriteMideleg(DELEGATE_ALL),
        Op::EnableSupervisorInterrupts,
        Op::WritePmpaddr0(PMPADDR_ALL),
        Op::WritePmpcfg0(PMPCFG_FULL_ACCESS),
    ] + timer_ops(config, hart) + seq![Op::WriteTp(hart as u64), Op::Mret]
}

/// Number of primitives in the bring-up of a hart.
pub const BOOT_STEPS: usize = 17;

/// The events that `hart` leaves in the trace when it carries out `ops`.
pub open spec fn events_of(hart: int, ops: Seq<Op>) -> Seq<Event> {
    Seq::new(ops.len(), |i: int| Event { hart: hart as usize, op: ops[i] })
}

/// The scratch region after `hart` has published its two words.
pub open spec fn published(state: MachineState, hart: int) -> Seq<u64> {
    state.scratch.update(
        slot_index(hart, SLOT_COMPARE_ADDR as int),
        compare_addr(state.config.compare_base as int, hart) as u64,
    ).update(slot_index(hart, SLOT_INTERVAL as int), state.config.interval)
}

/// The machine after `hart` has armed its timer.
pub open spec fn arm(state: MachineState, hart: int) -> MachineState {
    let regs = state.harts[hart];
    MachineState {
        harts: state.harts.update(
            hart,
            Hart {
                mscratch: scratch_ptr(state.config.scratch_base as int, hart) as u64,
                mtvec: state.config.trap_vector,
                mstatus: regs.mstatus | MSTATUS_MIE,
                mie: regs.mie | MIE_MTIE,
                ..regs
            },
        ),
        compare: state.compare.update(hart, (state.time + state.config.interval) as u64),
        scratch: published(state, hart),
        trace: state.trace + events_of(hart, timer_ops(state.config, hart)),
        ..state
    }
}

/// The machine after `hart` has gone from reset to supervisor mode.
pub open spec fn boot(state: MachineState, hart: int) -> MachineState {
    let regs = state.harts[hart];
    MachineState {
        harts: state.harts.update(
            hart,
            Hart {
                mode: Privilege::Supervisor,
                pc: state.config.kernel_entry,
                mhartid: regs.mhartid,
                mstatus: with_mpp(regs.mstatus, Privilege::Supervisor) | MSTATUS_MIE,
                mepc: state.config.kernel_entry,
                satp: SATP_BARE,
                medeleg: DELEGATE_ALL,
                mideleg: DELEGATE_ALL,
                sie: regs.sie | SIE_SEIE | SIE_STIE | SIE_SSIE,
                mie: regs.mie | MIE_MTIE,
                pmpaddr0: PMPADDR_ALL,
                pmpcfg0: PMPCFG_FULL_ACCESS,
                mscratch: scratch_ptr(state.config.scratch_base as int, hart) as u64,
                mtvec: state.config.trap_vector,
                tp: regs.mhartid,
            },
        ),
        compare: state.compare.update(hart, (state.time + state.config.interval) as u64),
        scratch: published(state, hart),
        trace: state.trace + events_of(hart, boot_ops(state.config, hart)),
        ..state
    }
}

/// Whether the timer of `hart` is armed as the trampoline expects to find it:
/// slot 4 of the hart's slice holds the address of the hart's comparator and
/// slot 5 the interval, `mscratch` points at the slice, `mtvec` at the
/// trampoline, and machine-mode interrupts and the machine timer interrupt are
/// enabled.
pub open spec fn is_armed(state: MachineState, hart: int) -> bool {
    let regs = state.harts[hart];
    &&& state.scratch[slot_index(hart, SLOT_COMPARE_ADDR as int)] == compare_addr(
        state.config.compare_base as int,
        hart,
    )
    &&& state.scratch[slot_index(hart, SLOT_INTERVAL as int)] == state.config.interval
    &&& regs.mscratch == scratch_ptr(state.config.scratch_base as int, hart)
    &&& regs.mtvec == state.config.trap_vector
    &&& has_bits(regs.mstatus, MSTATUS_MIE)
    &&& has_bits(regs.mie, MIE_MTIE)
}

/// Whether `hart` may run bring-up code on `state`: the hart exists and is
/// still in machine mode, and the timer deadline it would write fits in 64
/// bits.
pub open spec fn ready(state: MachineState, hart: int) -> bool {
    &&& state.wf()
    &&& 0 <= hart < state.config.ncpu
    &&& state.harts[hart].mode == Privilege::Machine
    &&& state.time + state.config.interval <= u64::MAX
}

/// The three supervisor interrupt enables are set once they have been or-ed
/// into `sie`.
proof fn lemma_supervisor_enables(sie: u64)
    ensures
        has_bits(sie | SIE_SEIE | SIE_STIE | SIE_SSIE, SIE_SEIE),
        has_bits(sie | SIE_SEIE | SIE_STIE | SIE_SSIE, SIE_STIE),
        has_bits(sie | SIE_SEIE | SIE_STIE | SIE_SSIE, SIE_SSIE),
{
    lemma_or_sets_bits(sie, SIE_SEIE);
    lemma_or_sets_bits(sie | SIE_SEIE, SIE_STIE);
    lemma_or_sets_bits(sie | SIE_SEIE | SIE_STIE, SIE_SSIE);
}

/// Arms the timer of `hart`: sets its comparator one interval past the
/// current time, publishes the comparator's address and the interval in slots
/// 4 and 5 of the hart's scratch slice, points `mscratch` at the slice and
/// `mtvec` at the trampoline, and enables machine-mode interrupts and the
/// machine timer interrupt.
pub fn timerinit(machine: &mut Machine, hart: usize)
    requires
        ready(old(machine)@, hart as int),
    ensures
        final(machine)@ == arm(old(machine)@, hart as int),
        final(machine)@.wf(),
        final(machine)@.compare[hart as int] == old(machine)@.time + old(
            machine,
        )@.config.interval,
        is_armed(final(machine)@, hart as int),
        final(machine)@.harts[hart as int].mode == Privilege::Machine,
{
    // each hart has its own source of timer interrupts.
    let id: usize = machine.mhartid(hart);
    let config: BootConfig = machine.config();

    // ask the timer device for an interrupt one interval from now.
    let interval: u64 = config.interval;
    machine.perform(hart, Op::ArmTimer { hart: id, interval });

    // leave in the hart's slice what the trampoline needs to ask again:
    // slots 0..3 are its own save area, slot 4 is the address of the
    // comparator, slot 5 the interval.
    let offset: usize = config.slice_start(id);
    machine.perform(
        hart,
        Op::WriteScratch { slot: offset + SLOT_COMPARE_ADDR, value: config.compare_addr(id) },
    );
    machine.perform(hart, Op::WriteScratch { slot: offset + SLOT_INTERVAL, value: interval });
    machine.perform(hart, Op::WriteMscratch(config.scratch_ptr(id)));

    // machine-mode traps go to the trampoline.
    machine.perform(hart, Op::WriteMtvec(config.trap_vector));

    // enable machine-mode interrupts, and the timer's among them.
    machine.perform(hart, Op::EnableMachineInterrupts);
    machine.perform(hart, Op::EnableMachineTimer);

    proof {
        let pre = old(machine)@;
        let post = arm(pre, hart as int);
        lemma_or_sets_bits(pre.harts[hart as int].mstatus, MSTATUS_MIE);
        lemma_or_sets_bits(pre.harts[hart as int].mie, MIE_MTIE);
        assert(machine@.trace =~= post.trace);
        assert(machine@.harts =~= post.harts);
        assert(machine@.compare =~= post.compare);
        assert(machine@.scratch =~= post.scratch);
    }
}

/// Takes `hart` from reset to supervisor mode.
///
/// On return the hart runs at the kernel's entry point in supervisor mode,
/// with paging off, every exception and interrupt cause delegated to
/// supervisor mode, physical memory protection open, its timer armed as by
/// [`timerinit`], and its identifier in `tp`.
pub fn start(machine: &mut Machine, hart: usize)
    requires
        ready(old(machine)@, hart as int),
    ensures
        final(machine)@ == boot(old(machine)@, hart as int),
        final(machine)@.wf(),
        final(machine)@.harts[hart as int].mode == Privilege::Supervisor,
        final(machine)@.harts[hart as int].pc == old(machine)@.config.kernel_entry,
        final(machine)@.harts[hart as int].satp == SATP_BARE,
        final(machine)@.harts[hart as int].medeleg == DELEGATE_ALL,
        final(machine)@.harts[hart as int].mideleg == DELEGATE_ALL,
        final(machine)@.harts[hart as int].pmpaddr0 == PMPADDR_ALL,
        final(machine)@.harts[hart as int].pmpcfg0 == PMPCFG_FULL_ACCESS,
        final(machine)@.harts[hart as int].tp == hart,
        has_bits(final(machine)@.harts[hart as int].sie, SIE_SEIE),
        has_bits(final(machine)@.harts[hart as int].sie, SIE_STIE),
        has_bits(final(machine)@.harts[hart as int].sie, SIE_SSIE),
        is_armed(final(machine)@, hart as int),
        final(machine)@.compare[hart as int] == old(machine)@.time + old(
            machine,
        )@.config.interval,
{
    // the return from machine mode is to land in supervisor mode ...
    machine.perform(hart, Op::SetMpp(Privilege::Supervisor));

    // ... at the kernel's entry point.
    let config: BootConfig = machine.config();
    machine.perform(hart, Op::WriteMepc(config.kernel_entry));

    // no paging yet.
    machine.perform(hart, Op::WriteSatp(SATP_BARE));

    // supervisor mode handles all exceptions and interrupts.
    machine.perform(hart, Op::WriteMedeleg(DELEGATE_ALL));
    machine.perform(hart, Op::WriteMideleg(DELEGATE_ALL));
    machine.perform(hart, Op::EnableSupervisorInterrupts);

    // supervisor mode may reach all of physical memory.
    machine.perform(hart, Op::WritePmpaddr0(PMPADDR_ALL));
    machine.perform(hart, Op::WritePmpcfg0(PMPCFG_FULL_ACCESS));

    // ask for clock interrupts.
    timerinit(machine, hart);

    // keep the hart's identifier in its tp register.
    let id: usize = machine.mhartid(hart);
    machine.perform(hart, Op::WriteTp(id as u64));

    // switch to supervisor mode and jump to the kernel.
    machine.perform(hart, Op::Mret);

    proof {
        let pre = old(machine)@;
        let post = boot(pre, hart as int);
        let mstatus = pre.harts[hart as int].mstatus;
        lemma_mpp_write_then_read(mstatus, Privilege::Supervisor);
        lemma_enable_keeps_mpp(with_mpp(mstatus, Privilege::Supervisor));
        lemma_supervisor_enables(pre.harts[hart as int].sie);
        assert(machine@.trace =~= post.trace);
        assert(machine@.harts =~= post.harts);
        assert(machine@.compare =~= post.compare);
        assert(machine@.scratch =~= post.scratch);
    }
}

/// The primitive that `hart` carries out at `step` of its bring-up, counted
/// from zero.  Needs no machine and no memory of its own: the sequence is a
/// function of the configuration and the hart.
pub fn boot_op(config: &BootConfig, hart: usize, step: usize) -> (op: Op)
    requires
        config.valid(),
        hart < config.ncpu,
        step < BOOT_STEPS,
    ensures
        op == boot_ops(*config, hart as int)[step as int],
{
    match step {
        // land in supervisor mode, at the kernel's entry point.
        0 => Op::SetMpp(Privilege::Supervisor),
        1 => Op::WriteMepc(config.kernel_entry),
        // no paging yet.
        2 => Op::WriteSatp(SATP_BARE),
        // supervisor mode handles all exceptions and interrupts.
        3 => Op::WriteMedeleg(DELEGATE_ALL),
        4 => Op::WriteMideleg(DELEGATE_ALL),
        5 => Op::EnableSupervisorInterrupts,
        // supervisor mode may reach all of physical memory.
        6 => Op::WritePmpaddr0(PMPADDR_ALL),
        7 => Op::WritePmpcfg0(PMPCFG_FULL_ACCESS),
        // ask for clock interrupts, and leave the trampoline what it needs.
        8 => Op::ArmTimer { hart, interval: config.interval },
        9 => Op::WriteScratch {
            slot: config.slice_start(hart) + SLOT_COMPARE_ADDR,
            value: config.compare_addr(hart),
        },
        10 => Op::WriteScratch {
            slot: config.slice_start(hart) + SLOT_INTERVAL,
            value: config.interval,
        },
        11 => Op::WriteMscratch(config.scratch_ptr(hart)),
        12 => Op::WriteMtvec(config.trap_vector),
        13 => Op::EnableMachineInterrupts,
        14 => Op::EnableMachineTimer,
        // keep the hart's identifier in its tp register.
        15 => Op::WriteTp(hart as u64),
        // switch to supervisor mode and jump to the kernel.
        _ => Op::Mret,
    }
}

/// Bring-up has [`BOOT_STEPS`] primitives; the return from machine mode is the
/// last of them and occurs nowhere else.
pub proof fn lemma_boot_ends_with_mret(config: BootConfig, hart: int)
    ensures
        boot_ops(config, hart).len() == BOOT_STEPS,
        boot_ops(config, hart)[BOOT_STEPS - 1] == Op::Mret,
        forall|step: int|
            0 <= step < BOOT_STEPS - 1 ==> #[trigger] boot_ops(config, hart)[step] != Op::Mret,
{
}

/// A hart that arms its timer again once the timer device has counted on gets
/// a strictly later deadline.
pub proof fn lemma_later_arming_has_later_deadline(state: MachineState, hart: int, later: u64)
    requires
        ready(state, hart),
        state.time < later,
        later + state.config.interval <= u64::MAX,
    ensures
        ready(arm(state, hart).at_time(later), hart),
        arm(state, hart).compare[hart] < arm(
            arm(state, hart).at_time(later),
            hart,
        ).compare[hart],
{
}

/// The scratch pointer that arming installs depends on the hart and on the
/// base of the scratch region, and on nothing else: two machines that agree
/// on the base install the same pointer, and arming again installs it again.
pub proof fn lemma_scratch_pointer_is_stable(a: MachineState, b: MachineState, hart: int)
    requires
        ready(a, hart),
        ready(b, hart),
        a.config.scratch_base == b.config.scratch_base,
    ensures
        arm(a, hart).harts[hart].mscratch == arm(b, hart).harts[hart].mscratch,
        ready(arm(a, hart), hart),
        arm(arm(a, hart), hart).harts[hart].mscratch == arm(a, hart).harts[hart].mscratch,
{
}

/// Bring-up of one hart touches nothing that belongs to another: not its
/// registers, not its comparator, not a slot of its slice.  In its own slice
/// the hart writes the two published slots and no other.
pub proof fn lemma_bring_up_is_hart_local(state: MachineState, hart: int, other: int)
    requires
        ready(state, hart),
        0 <= other < state.config.ncpu,
        other != hart,
    ensures
        boot(state, hart).harts[other] == state.harts[other],
        boot(state, hart).compare[other] == state.compare[other],
        boot(state, hart).scratch == arm(state, hart).scratch,
        forall|slot: int|
            in_slice(other, slot) ==> #[trigger] boot(state, hart).scratch[slot]
                == state.scratch[slot],
        forall|slot: int|
            0 <= slot < state.scratch.len() && slot != slot_index(hart, SLOT_COMPARE_ADDR as int)
                && slot != slot_index(hart, SLOT_INTERVAL as int) ==> #[trigger] boot(
                state,
                hart,
            ).scratch[slot] == state.scratch[slot],
{
}

/// Bring-up happens once: a hart that has left for supervisor mode carries out
/// no further primitive, and is not ready to be brought up again.
pub proof fn lemma_boot_happens_once(state: MachineState, hart: int, op: Op)
    requires
        ready(state, hart),
    ensures
        !boot(state, hart).accepts(hart, op),
        !ready(boot(state, hart), hart),
{
}

/// An armed timer stays armed whatever bring-up code runs next, on the same
/// hart or on another.
pub proof fn lemma_armed_is_kept(state: MachineState, hart: int, next: int)
    requires
        ready(state, next),
        0 <= hart < state.config.ncpu,
        is_armed(state, hart),
    ensures
        is_armed(arm(state, next), hart),
        is_armed(boot(state, next), hart),
{
    let regs = state.harts[next];
    lemma_or_sets_bits(regs.mstatus, MSTATUS_MIE);
    lemma_or_sets_bits(regs.mie, MIE_MTIE);
    lemma_or_sets_bits(with_mpp(regs.mstatus, Privilege::Supervisor), MSTATUS_MIE);
}

/// Two harts may come up in either order: but for the order of the trace, the
/// machine ends up the same.
pub proof fn lemma_harts_boot_independently(state: MachineState, a: int, b: int)
    requires
        ready(state, a),
        ready(state, b),
        a != b,
    ensures
        ready(boot(state, a), b),
        ready(boot(state, b), a),
        boot(boot(state, a), b).harts == boot(boot(state, b), a).harts,
        boot(boot(state, a), b).compare == boot(boot(state, b), a).compare,
        boot(boot(state, a), b).scratch == boot(boot(state, b), a).scratch,
{
    let ab = boot(boot(state, a), b);
    let ba = boot(boot(state, b), a);
    assert(ab.harts =~= ba.harts);
    assert(ab.compare =~= ba.compare);
    assert(ab.scratch =~= ba.scratch);
}

/// The machine after `hart` has carried out `ops`, first to last.
pub open spec fn run(state: MachineState, hart: int, ops: Seq<Op>) -> MachineState
    decreases ops.len(),
{
    if ops.len() == 0 {
        state
    } else {
        run(state, hart, ops.drop_last()).step(hart, ops.last())
    }
}

/// Carrying out one more primitive is one more step.
proof fn lemma_run_push(state: MachineState, hart: int, ops: Seq<Op>, op: Op)
    ensures
        run(state, hart, ops.push(op)) == run(state, hart, ops).step(hart, op),
{
    assert(ops.push(op).drop_last() =~= ops);
}

/// The first `n + 1` primitives of `ops` are the first `n` and one more step.
proof fn lemma_run_next(state: MachineState, hart: int, ops: Seq<Op>, n: int)
    requires
        0 <= n < ops.len(),
    ensures
        run(state, hart, ops.take(n + 1)) == run(state, hart, ops.take(n)).step(hart, ops[n]),
{
    assert(ops.take(n + 1) =~= ops.take(n).push(ops[n]));
    lemma_run_push(state, hart, ops.take(n), ops[n]);
}

/// Carrying out `first` and then `rest` is carrying out the two in a row.
proof fn lemma_run_concat(state: MachineState, hart: int, first: Seq<Op>, rest: Seq<Op>)
    ensures
        run(state, hart, first + rest) == run(run(state, hart, first), hart, rest),
    decreases rest.len(),
{
    if rest.len() == 0 {
        assert(first + rest =~= first);
    } else {
        lemma_run_concat(state, hart, first, rest.drop_last());
        assert((first + rest).drop_last() =~= first + rest.drop_last());
    }
}

/// Arming the timer is nothing but its primitives: carried out in order on the
/// machine as it was, they give the machine as [`timerinit`] leaves it.
pub proof fn lemma_arming_is_its_trace(state: MachineState, hart: int)
    requires
        ready(state, hart),
    ensures
        run(state, hart, timer_ops(state.config, hart)) == arm(state, hart),
{
    let ops = timer_ops(state.config, hart);
    lemma_run_next(state, hart, ops, 0);
    lemma_run_next(state, hart, ops, 1);
    lemma_run_next(state, hart, ops, 2);
    lemma_run_next(state, hart, ops, 3);
    lemma_run_next(state, hart, ops, 4);
    lemma_run_next(state, hart, ops, 5);
    lemma_run_next(state, hart, ops, 6);
    assert(ops.take(7) =~= ops);
    assert(run(state, hart, ops) =~= arm(state, hart));
}

/// The primitives of bring-up that come before the timer is armed.
spec fn prepare_ops(config: BootConfig) -> Seq<Op> {
    seq![
        Op::SetMpp(Privilege::Supervisor),
        Op::WriteMepc(config.kernel_entry),
        Op::WriteSatp(SATP_BARE),
        Op::WriteMedeleg(DELEGATE_ALL),
        Op::WriteMideleg(DELEGATE_ALL),
        Op::EnableSupervisorInterrupts,
        Op::WritePmpaddr0(PMPADDR_ALL),
        Op::WritePmpcfg0(PMPCFG_FULL_ACCESS),
    ]
}

/// The machine after `hart` has programmed the transition, delegation and
/// memory protection, and before it arms its timer.
spec fn prepared(state: MachineState, hart: int) -> MachineState {
    let regs = state.harts[hart];
    MachineState {
        harts: state.harts.update(
            hart,
            Hart {
                mstatus: with_mpp(regs.mstatus, Privilege::Supervisor),
                mepc: state.config.kernel_entry,
                satp: SATP_BARE,
                medeleg: DELEGATE_ALL,
                mideleg: DELEGATE_ALL,
                sie: regs.sie | SIE_SEIE | SIE_STIE | SIE_SSIE,
                pmpaddr0: PMPADDR_ALL,
                pmpcfg0: PMPCFG_FULL_ACCESS,
                ..regs
            },
        ),
        trace: state.trace + events_of(hart, prepare_ops(state.config)),
        ..state
    }
}

/// The first part of bring-up, primitive by primitive.
proof fn lemma_prepare_is_its_trace(state: MachineState, hart: int)
    requires
        ready(state, hart),
    ensures
        run(state, hart, prepare_ops(state.config)) == prepared(state, hart),
        ready(prepared(state, hart), hart),
{
    let ops = prepare_ops(state.config);
    lemma_run_next(state, hart, ops, 0);
    lemma_run_next(state, hart, ops, 1);
    lemma_run_next(state, hart, ops, 2);
    lemma_run_next(state, hart, ops, 3);
    lemma_run_next(state, hart, ops, 4);
    lemma_run_next(state, hart, ops, 5);
    lemma_run_next(state, hart, ops, 6);
    lemma_run_next(state, hart, ops, 7);
    assert(ops.take(8) =~= ops);
    assert(run(state, hart, ops) =~= prepared(state, hart));
}

/// The last part of bring-up: from the prepared and armed machine to the
/// booted one.
proof fn lemma_finish_is_boot(state: MachineState, hart: int)
    requires
        ready(state, hart),
    ensures
        arm(prepared(state, hart), hart).step(hart, Op::WriteTp(hart as u64)).step(
            hart,
            Op::Mret,
        ) == boot(state, hart),
{
    let mstatus = state.harts[hart].mstatus;
    lemma_mpp_write_then_read(mstatus, Privilege::Supervisor);
    lemma_enable_keeps_mpp(with_mpp(mstatus, Privilege::Supervisor));
    let last = arm(prepared(state, hart), hart).step(hart, Op::WriteTp(hart as u64)).step(
        hart,
        Op::Mret,
    );
    let goal = boot(state, hart);
    assert(last.trace =~= goal.trace);
    assert(last.harts =~= goal.harts);
    assert(last.compare =~= goal.compare);
    assert(last.scratch =~= goal.scratch);
}

/// Bring-up is nothing but its primitives: carried out in order on the machine
/// as it was, they give the machine as [`start`] leaves it.
pub proof fn lemma_boot_is_its_trace(state: MachineState, hart: int)
    requires
        ready(state, hart),
    ensures
        run(state, hart, boot_ops(state.config, hart)) == boot(state, hart),
{
    let config = state.config;
    let first = prepare_ops(config);
    let second = timer_ops(config, hart);
    let tp = Op::WriteTp(hart as u64);
    assert(boot_ops(config, hart) =~= (first + second).push(tp).push(Op::Mret));
    lemma_prepare_is_its_trace(state, hart);
    lemma_arming_is_its_trace(prepared(state, hart), hart);
    lemma_run_concat(state, hart, first, second);
    lemma_run_push(state, hart, first + second, tp);
    lemma_run_push(state, hart, (first + second).push(tp), Op::Mret);
    lemma_finish_is_boot(state, hart);
}

} // verus!
