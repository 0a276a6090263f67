use hart_boot::csr::{
    read_mpp, write_mpp, Hart, Privilege, DELEGATE_ALL, MIE_MTIE, MSTATUS_MIE, MSTATUS_MPP_M,
    MSTATUS_MPP_MASK, MSTATUS_MPP_RESERVED, MSTATUS_MPP_S, MSTATUS_MPP_U, PMPADDR_ALL, PMPCFG_FULL_ACCESS, SATP_BARE,
    SIE_SEIE, SIE_SSIE, SIE_STIE,
};

#[test]
fn field_encodings() {
    assert_eq!(MSTATUS_MPP_MASK, 3 << 11);
    assert_eq!(MSTATUS_MPP_M, 3 << 11);
    assert_eq!(MSTATUS_MPP_S, 1 << 11);
    assert_eq!(MSTATUS_MPP_U, 0);
    assert_eq!(MSTATUS_MPP_RESERVED, 2 << 11);
    assert_eq!(MSTATUS_MIE, 1 << 3);
    assert_eq!(SIE_SEIE, 1 << 9);
    assert_eq!(SIE_STIE, 1 << 5);
    assert_eq!(SIE_SSIE, 1 << 1);
    assert_eq!(MIE_MTIE, 1 << 7);
    assert_eq!(DELEGATE_ALL, u64::MAX);
    assert_eq!(SATP_BARE, 0);
    assert_eq!(PMPADDR_ALL, u64::MAX);
    assert_eq!(PMPCFG_FULL_ACCESS, 0x7f);
}

#[test]
fn privilege_encodings() {
    assert_eq!(Privilege::User.to_mpp_bits(), 0);
    assert_eq!(Privilege::Supervisor.to_mpp_bits(), 0x800);
    assert_eq!(Privilege::Machine.to_mpp_bits(), 0x1800);
}

#[test]
fn mpp_reads_back_what_was_written() {
    for mstatus in [0u64, 0x8, 0x1800, 0x800, 0x1000, u64::MAX, 0xdead_beef_0000_1808] {
        for level in [Privilege::User, Privilege::Supervisor, Privilege::Machine] {
            assert_eq!(read_mpp(write_mpp(mstatus, level)), level);
        }
    }
}

#[test]
fn mpp_write_keeps_the_other_bits() {
    assert_eq!(write_mpp(0, Privilege::Supervisor), 0x800);
    assert_eq!(write_mpp(0x1808, Privilege::Supervisor), 0x808);
    assert_eq!(write_mpp(u64::MAX, Privilege::User), !0x1800u64);
    assert_eq!(write_mpp(u64::MAX, Privilege::Supervisor), !0x1000u64);
    assert_eq!(write_mpp(u64::MAX, Privilege::Machine), u64::MAX);
    assert_eq!(write_mpp(0x8, Privilege::Machine), 0x1808);
}

#[test]
fn mpp_reads_each_encoding() {
    assert_eq!(read_mpp(0), Privilege::User);
    assert_eq!(read_mpp(0x800), Privilege::Supervisor);
    assert_eq!(read_mpp(0x1800), Privilege::Machine);
    assert_eq!(read_mpp(0x8), Privilege::User);
    assert_eq!(read_mpp(!0x1000u64), Privilege::Supervisor);
}

#[test]
fn reserved_mpp_encoding_reads_as_machine() {
    assert_eq!(read_mpp(MSTATUS_MPP_RESERVED), Privilege::Machine);
    assert_eq!(read_mpp(0x1008), Privilege::Machine);
}

#[test]
fn hart_leaves_reset_in_machine_mode_with_clear_registers() {
    let hart = Hart::reset(5);
    assert_eq!(
        hart,
        Hart {
            mode: Privilege::Machine,
            pc: 0,
            mhartid: 5,
            mstatus: 0,
            mepc: 0,
            satp: 0,
            medeleg: 0,
            mideleg: 0,
            sie: 0,
            mie: 0,
            pmpaddr0: 0,
            pmpcfg0: 0,
            mscratch: 0,
            mtvec: 0,
            tp: 0,
        }
    );
}
