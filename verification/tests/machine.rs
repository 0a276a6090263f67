use hart_boot::csr::{Hart, Privilege};
use hart_boot::layout::BootConfig;
use hart_boot::machine::{Event, Machine, Op};

fn config(ncpu: usize) -> BootConfig {
    BootConfig {
        ncpu,
        compare_base: 0x0200_4000,
        scratch_base: 0x8000_9000,
        interval: 1_000_000,
        kernel_entry: 0x8020_0000,
        trap_vector: 0x8000_0100,
    }
}

fn machine(ncpu: usize) -> Machine {
    match Machine::new(config(ncpu)) {
        Some(machine) => machine,
        None => panic!("the configuration is valid"),
    }
}

#[test]
fn new_machine_is_at_reset() {
    let m = machine(3);
    assert_eq!(m.config(), config(3));
    assert_eq!(m.time(), 0);
    assert!(m.trace().is_empty());
    for hart in 0..3usize {
        assert_eq!(m.hart(hart), Hart::reset(hart as u64));
        assert_eq!(m.mhartid(hart), hart);
        assert_eq!(m.timer_compare(hart), 0);
    }
    for slot in 0..96usize {
        assert_eq!(m.scratch(slot), 0);
    }
}

#[test]
fn new_refuses_an_invalid_config() {
    let mut cfg = config(4);
    cfg.scratch_base = u64::MAX - 1022;
    assert!(Machine::new(cfg).is_none());
    let mut cfg = config(4);
    cfg.compare_base = u64::MAX - 30;
    assert!(Machine::new(cfg).is_none());
    let mut cfg = config(4);
    cfg.ncpu = usize::MAX;
    assert!(Machine::new(cfg).is_none());
}

#[test]
fn new_accepts_a_config_that_just_fits() {
    let mut cfg = config(4);
    cfg.scratch_base = u64::MAX - 1023;
    cfg.compare_base = u64::MAX - 31;
    assert!(Machine::new(cfg).is_some());
}

#[test]
fn machine_without_harts() {
    let m = machine(0);
    assert_eq!(m.config().ncpu, 0);
    assert!(m.trace().is_empty());
}

#[test]
fn set_time_changes_only_the_time() {
    let mut m = machine(2);
    m.set_time(77);
    assert_eq!(m.time(), 77);
    assert!(m.trace().is_empty());
    assert_eq!(m.hart(0), Hart::reset(0));
    assert_eq!(m.hart(1), Hart::reset(1));
    assert_eq!(m.timer_compare(0), 0);
    assert_eq!(m.scratch(0), 0);
}

#[test]
fn register_writes_land_in_their_register() {
    let mut m = machine(2);
    m.perform(1, Op::WriteMepc(0x11));
    m.perform(1, Op::WriteSatp(0x22));
    m.perform(1, Op::WriteMedeleg(0x33));
    m.perform(1, Op::WriteMideleg(0x44));
    m.perform(1, Op::WritePmpaddr0(0x55));
    m.perform(1, Op::WritePmpcfg0(0x66));
    m.perform(1, Op::WriteMscratch(0x77));
    m.perform(1, Op::WriteMtvec(0x88));
    m.perform(1, Op::WriteTp(0x99));
    let mut expected = Hart::reset(1);
    expected.mepc = 0x11;
    expected.satp = 0x22;
    expected.medeleg = 0x33;
    expected.mideleg = 0x44;
    expected.pmpaddr0 = 0x55;
    expected.pmpcfg0 = 0x66;
    expected.mscratch = 0x77;
    expected.mtvec = 0x88;
    expected.tp = 0x99;
    assert_eq!(m.hart(1), expected);
    assert_eq!(m.hart(0), Hart::reset(0));
}

#[test]
fn enables_set_their_bits_and_keep_the_rest() {
    let mut m = machine(1);
    m.perform(0, Op::SetMpp(Privilege::Machine));
    m.perform(0, Op::EnableMachineInterrupts);
    assert_eq!(m.hart(0).mstatus, 0x1808);
    m.perform(0, Op::SetMpp(Privilege::Supervisor));
    assert_eq!(m.hart(0).mstatus, 0x808);
    m.perform(0, Op::EnableMachineInterrupts);
    assert_eq!(m.hart(0).mstatus, 0x808);
    m.perform(0, Op::EnableSupervisorInterrupts);
    assert_eq!(m.hart(0).sie, 0x222);
    m.perform(0, Op::EnableMachineTimer);
    assert_eq!(m.hart(0).mie, 0x80);
    assert_eq!(m.hart(0).sie, 0x222);
}

#[test]
fn arm_timer_adds_the_interval_to_the_time() {
    let mut m = machine(3);
    m.set_time(1_000);
    m.perform(0, Op::ArmTimer { hart: 2, interval: 250 });
    assert_eq!(m.timer_compare(2), 1_250);
    assert_eq!(m.timer_compare(0), 0);
    assert_eq!(m.timer_compare(1), 0);
    assert_eq!(m.hart(0), Hart::reset(0));
}

#[test]
fn arm_timer_reaches_the_last_deadline() {
    let mut m = machine(1);
    m.set_time(u64::MAX - 5);
    m.perform(0, Op::ArmTimer { hart: 0, interval: 5 });
    assert_eq!(m.timer_compare(0), u64::MAX);
}

#[test]
fn scratch_store_changes_one_slot() {
    let mut m = machine(2);
    m.perform(0, Op::WriteScratch { slot: 63, value: 0xabc });
    for slot in 0..64usize {
        assert_eq!(m.scratch(slot), if slot == 63 { 0xabc } else { 0 });
    }
}

#[test]
fn mret_lands_where_mepc_and_mpp_say() {
    let mut m = machine(1);
    m.perform(0, Op::SetMpp(Privilege::Supervisor));
    m.perform(0, Op::WriteMepc(0x8020_0000));
    m.perform(0, Op::Mret);
    let hart = m.hart(0);
    assert_eq!(hart.mode, Privilege::Supervisor);
    assert_eq!(hart.pc, 0x8020_0000);
    assert_eq!(hart.mstatus, 0x800);
    assert_eq!(hart.mepc, 0x8020_0000);
}

#[test]
fn mret_to_user_mode() {
    let mut m = machine(1);
    m.perform(0, Op::WriteMepc(0x40));
    m.perform(0, Op::Mret);
    assert_eq!(m.hart(0).mode, Privilege::User);
    assert_eq!(m.hart(0).pc, 0x40);
}

#[test]
fn mret_may_stay_in_machine_mode() {
    let mut m = machine(1);
    m.perform(0, Op::SetMpp(Privilege::Machine));
    m.perform(0, Op::Mret);
    assert_eq!(m.hart(0).mode, Privilege::Machine);
    m.perform(0, Op::WriteTp(9));
    assert_eq!(m.hart(0).tp, 9);
}

#[test]
fn trace_keeps_the_order_of_the_primitives() {
    let mut m = machine(2);
    m.perform(1, Op::WriteTp(1));
    m.perform(0, Op::WriteSatp(0));
    m.perform(1, Op::EnableMachineTimer);
    let expected = vec![
        Event { hart: 1, op: Op::WriteTp(1) },
        Event { hart: 0, op: Op::WriteSatp(0) },
        Event { hart: 1, op: Op::EnableMachineTimer },
    ];
    assert_eq!(m.trace(), &expected);
}
