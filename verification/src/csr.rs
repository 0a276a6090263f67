//! The register file of one hart, and the bit fields that bring-up touches.
//!
//! Registers are kept as the raw 64-bit words the hardware holds.  The one
//! field with discrete modes, the previous-privilege field of `mstatus`, is
//! read and written through [`Privilege`], never as a bit pattern.
use vstd::prelude::*;

verus! {

/// Mask of the previous-privilege field (MPP) in `mstatus`.
pub const MSTATUS_MPP_MASK: u64 = 0x1800;

/// MPP encoding of machine mode.
pub const MSTATUS_MPP_M: u64 = 0x1800;

/// MPP encoding of supervisor mode.
pub const MSTATUS_MPP_S: u64 = 0x0800;

/// MPP encoding of user mode.
pub const MSTATUS_MPP_U: u64 = 0x0000;

/// The MPP encoding that names no privilege level.
pub const MSTATUS_MPP_RESERVED: u64 = 0x1000;

/// Machine-mode interrupt enable (MIE) in `mstatus`.
pub const MSTATUS_MIE: u64 = 0x8;

/// Supervisor external interrupt enable in `sie`.
pub const SIE_SEIE: u64 = 0x200;

/// Supervisor timer interrupt enable in `sie`.
pub const SIE_STIE: u64 = 0x20;

/// Supervisor software interrupt enable in `sie`.
pub const SIE_SSIE: u64 = 0x2;

/// Machine timer interrupt enable (MTIE) in `mie`.
pub const MIE_MTIE: u64 = 0x80;

/// Delegation mask that hands every cause to supervisor mode: all ones.
pub const DELEGATE_ALL: u64 = 0xffff_ffff_ffff_ffff;

/// Value of `satp` that switches paging off.
pub const SATP_BARE: u64 = 0;

/// Value of `pmpaddr0` that covers the whole address space.
pub const PMPADDR_ALL: u64 = 0xffff_ffff_ffff_ffff;

/// Value of `pmpcfg0` that grants read, write and execute on region 0.
pub const PMPCFG_FULL_ACCESS: u64 = 0x7f;

/// A privilege level of a hart.
#[derive(Clone, Copy, PartialEq, Eq, Debug)]
pub enum Privilege {
    User,
    Supervisor,
    Machine,
}

impl Privilege {
    /// The encoding of this level in the MPP field of `mstatus`.
    pub open spec fn mpp_bits(self) -> u64 {
        match self {
            Privilege::User => MSTATUS_MPP_U,
            Privilege::Supervisor => MSTATUS_MPP_S,
            Privilege::Machine => MSTATUS_MPP_M,
        }
    }

    /// The encoding of this level in the MPP field of `mstatus`.
    pub fn to_mpp_bits(self) -> (bits: u64)
        ensures
            bits == self.mpp_bits(),
    {
        match self {
            Privilege::User => MSTATUS_MPP_U,
            Privilege::Supervisor => MSTATUS_MPP_S,
            Privilege::Machine => MSTATUS_MPP_M,
        }
    }
}

/// The privilege level that the MPP field of `mstatus` names.  The field has
/// one reserved encoding, which [`with_mpp`] never writes; it reads as machine
/// mode.
pub open spec fn mpp_of(mstatus: u64) -> Privilege {
    let field = mstatus & MSTATUS_MPP_MASK;
    if field == MSTATUS_MPP_U {
        Privilege::User
    } else if field == MSTATUS_MPP_S {
        Privilege::Supervisor
    } else {
        Privilege::Machine
    }
}

/// `mstatus` with its MPP field replaced by `level` and every other bit kept.
pub open spec fn with_mpp(mstatus: u64, level: Privilege) -> u64 {
    (mstatus & !MSTATUS_MPP_MASK) | level.mpp_bits()
}

/// Whether every bit of `bits` is set in `reg`.
pub open spec fn has_bits(reg: u64, bits: u64) -> bool {
    reg & bits == bits
}

/// Reads the MPP field of `mstatus`: the level whose encoding the field
/// holds, and machine mode for the reserved encoding.
pub fn read_mpp(mstatus: u64) -> (level: Privilege)
    ensures
        level == mpp_of(mstatus),
        mstatus & MSTATUS_MPP_MASK == MSTATUS_MPP_RESERVED ==> level == Privilege::Machine,
        mstatus & MSTATUS_MPP_MASK != MSTATUS_MPP_RESERVED ==> level.mpp_bits() == mstatus
            & MSTATUS_MPP_MASK,
{
    let field: u64 = mstatus & MSTATUS_MPP_MASK;
    assert(field == 0x0000 || field == 0x0800 || field == 0x1000 || field == 0x1800) by (bit_vector)
        requires
            field == mstatus & 0x1800,
    ;
    if field == MSTATUS_MPP_U {
        Privilege::User
    } else if field == MSTATUS_MPP_S {
        Privilege::Supervisor
    } else {
        Privilege::Machine
    }
}

/// Replaces the MPP field of `mstatus` by the encoding of `level`, and keeps
/// every bit outside the field.
pub fn write_mpp(mstatus: u64, level: Privilege) -> (updated: u64)
    ensures
        updated == with_mpp(mstatus, level),
        mpp_of(updated) == level,
        updated & !MSTATUS_MPP_MASK == mstatus & !MSTATUS_MPP_MASK,
{
    proof {
        lemma_mpp_write_then_read(mstatus, level);
    }
    (mstatus & !MSTATUS_MPP_MASK) | level.to_mpp_bits()
}

/// The control and status registers of one hart, with the privilege level it
/// runs at and the address it executes.
#[derive(Clone, Copy, PartialEq, Eq, Debug)]
pub struct Hart {
    /// Current privilege level.
    pub mode: Privilege,
    /// Address of the instruction the hart executes next, as far as a
    /// privilege transition has set it.
    pub pc: u64,
    /// Hart identifier; read-only.
    pub mhartid: u64,
    /// Machine status.
    pub mstatus: u64,
    /// Machine exception program counter.
    pub mepc: u64,
    /// Supervisor paging control.
    pub satp: u64,
    /// Machine exception delegation.
    pub medeleg: u64,
    /// Machine interrupt delegation.
    pub mideleg: u64,
    /// Supervisor interrupt enable.
    pub sie: u64,
    /// Machine interrupt enable.
    pub mie: u64,
    /// Physical memory protection, address register 0.
    pub pmpaddr0: u64,
    /// Physical memory protection, configuration register 0.
    pub pmpcfg0: u64,
    /// Machine scratch.
    pub mscratch: u64,
    /// Machine trap vector base.
    pub mtvec: u64,
    /// Thread pointer.
    pub tp: u64,
}

impl Hart {
    /// The register file of hart `id` as it leaves reset: in machine mode,
    /// every writable register zero.
    pub open spec fn at_reset(id: u64) -> Hart {
        Hart {
            mode: Privilege::Machine,
            pc: 0,
            mhartid: id,
            mstatus: 0,
            mepc: 0,
            satp: 0,
            medeleg: 0,
            mideleg: 0,
            sie: 0,
            mie: 0,
            pmpaddr0: 0,
            pmpcfg0: 0,
            mscratch: 0,
            mtvec: 0,
            tp: 0,
        }
    }

    /// The register file of hart `id` as it leaves reset.
    pub fn reset(id: u64) -> (hart: Hart)
        ensures
            hart == Hart::at_reset(id),
    {
        Hart {
            mode: Privilege::Machine,
            pc: 0,
            mhartid: id,
            mstatus: 0,
            mepc: 0,
            satp: 0,
            medeleg: 0,
            mideleg: 0,
            sie: 0,
            mie: 0,
            pmpaddr0: 0,
            pmpcfg0: 0,
            mscratch: 0,
            mtvec: 0,
            tp: 0,
        }
    }
}

/// Writing the MPP field and reading it back gives the level written, and the
/// write leaves every bit outside the field as it was.
pub proof fn lemma_mpp_write_then_read(mstatus: u64, level: Privilege)
    ensures
        mpp_of(with_mpp(mstatus, level)) == level,
        with_mpp(mstatus, level) & !MSTATUS_MPP_MASK == mstatus & !MSTATUS_MPP_MASK,
{
    let bits = level.mpp_bits();
    assert(bits == 0x0000 || bits == 0x0800 || bits == 0x1800);
    assert(((mstatus & !0x1800u64) | bits) & 0x1800u64 == bits) by (bit_vector)
        requires
            bits == 0x0000 || bits == 0x0800 || bits == 0x1800,
    ;
    assert(((mstatus & !0x1800u64) | bits) & !0x1800u64 == mstatus & !0x1800u64) by (bit_vector)
        requires
            bits == 0x0000 || bits == 0x0800 || bits == 0x1800,
    ;
}

/// Setting the machine-mode interrupt enable bit does not change what the
/// MPP field reads as.
pub proof fn lemma_enable_keeps_mpp(mstatus: u64)
    ensures
        mpp_of(mstatus | MSTATUS_MIE) == mpp_of(mstatus),
{
    assert((mstatus | 0x8u64) & 0x1800u64 == mstatus & 0x1800u64) by (bit_vector);
}

/// Or-ing `bits` into a register sets them and keeps every other bit.
pub proof fn lemma_or_sets_bits(reg: u64, bits: u64)
    ensures
        has_bits(reg | bits, bits),
        (reg | bits) & !bits == reg & !bits,
        forall|earlier: u64| has_bits(reg, earlier) ==> has_bits(reg | bits, earlier),
{
    assert((reg | bits) & bits == bits) by (bit_vector);
    assert((reg | bits) & !bits == reg & !bits) by (bit_vector);
    assert forall|earlier: u64| has_bits(reg, earlier) implies has_bits(reg | bits, earlier) by {
        assert((reg | bits) & earlier == earlier) by (bit_vector)
            requires
                reg & earlier == earlier,
        ;
    }
}

} // verus!
