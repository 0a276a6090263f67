//! Where things live: the per-hart scratch slices and the timer comparators.
//!
//! The scratch region is one flat array of machine words.  Hart `h` owns the
//! slots `[32 * h, 32 * h + 32)`; of these it publishes two, the address of its
//! timer comparator and the timer interval, and leaves the rest to the
//! trampoline.  The comparators form an array of 64-bit device registers, one
//! per hart.
use vstd::prelude::*;

verus! {

/// Number of scratch slots owned by each hart.
pub const SLOTS_PER_HART: usize = 32;

/// Slot, within a hart's slice, that holds the address of the hart's timer
/// comparator.
pub const SLOT_COMPARE_ADDR: usize = 4;

/// Slot, within a hart's slice, that holds the interval between timer
/// interrupts, in timer cycles.
pub const SLOT_INTERVAL: usize = 5;

/// Size of a scratch slot in bytes.
pub const WORD_BYTES: u64 = 8;

/// Distance in bytes between the comparators of two neighbouring harts.
pub const COMPARE_STRIDE: u64 = 8;

/// Size of the address space in bytes: one past the last address.
pub const ADDRESS_SPACE: u128 = 0x1_0000_0000_0000_0000;

/// The customary interval between timer interrupts, in timer cycles.
pub const TIMER_INTERVAL: u64 = 1_000_000;

/// First slot of the slice owned by `hart`.
pub open spec fn slice_start(hart: int) -> int {
    hart * SLOTS_PER_HART
}

/// One past the last slot of the slice owned by `hart`.
pub open spec fn slice_end(hart: int) -> int {
    slice_start(hart) + SLOTS_PER_HART
}

/// Whether `slot` lies in the slice owned by `hart`.
pub open spec fn in_slice(hart: int, slot: int) -> bool {
    slice_start(hart) <= slot < slice_end(hart)
}

/// Index, in the whole region, of slot number `slot` of the slice of `hart`.
pub open spec fn slot_index(hart: int, slot: int) -> int {
    slice_start(hart) + slot
}

/// Number of slots in a region that serves `ncpu` harts.
pub open spec fn region_slots(ncpu: int) -> int {
    ncpu * SLOTS_PER_HART
}

/// Address of the timer comparator of `hart`, in a block that starts at `base`.
pub open spec fn compare_addr(base: int, hart: int) -> int {
    base + COMPARE_STRIDE * hart
}

/// Address of the first slot of the slice of `hart`, in a region that starts at
/// `base`.
pub open spec fn scratch_ptr(base: int, hart: int) -> int {
    base + WORD_BYTES * slice_start(hart)
}

/// The constants that a kernel image and its platform fix before any hart
/// runs.
#[derive(Clone, Copy, PartialEq, Eq, Debug)]
pub struct BootConfig {
    /// Number of harts the system supports.
    pub ncpu: usize,
    /// Address of the comparator of hart 0 in the core-local interruptor.
    pub compare_base: u64,
    /// Address of slot 0 of the scratch region.
    pub scratch_base: u64,
    /// Interval between timer interrupts, in timer cycles.
    pub interval: u64,
    /// Address at which supervisor mode starts to execute.
    pub kernel_entry: u64,
    /// Address of the machine-mode timer trampoline.
    pub trap_vector: u64,
}

impl BootConfig {
    /// The scratch region can be indexed, and it and the comparator block end
    /// no later than the 64-bit address space does.
    pub open spec fn valid(&self) -> bool {
        &&& region_slots(self.ncpu as int) <= usize::MAX
        &&& compare_addr(self.compare_base as int, self.ncpu as int) <= ADDRESS_SPACE
        &&& scratch_ptr(self.scratch_base as int, self.ncpu as int) <= ADDRESS_SPACE
    }

    /// Decides [`BootConfig::valid`].
    pub fn is_valid(&self) -> (ok: bool)
        ensures
            ok == self.valid(),
    {
        let n: u128 = self.ncpu as u128;
        let slice_bytes: u128 = WORD_BYTES as u128 * SLOTS_PER_HART as u128;
        let compare_end: u128 = self.compare_base as u128 + COMPARE_STRIDE as u128 * n;
        let scratch_end: u128 = self.scratch_base as u128 + slice_bytes * n;
        self.ncpu <= usize::MAX / SLOTS_PER_HART && compare_end <= ADDRESS_SPACE
            && scratch_end <= ADDRESS_SPACE
    }

    /// Number of slots in the scratch region.
    pub fn capacity(&self) -> (slots: usize)
        requires
            self.valid(),
        ensures
            slots == region_slots(self.ncpu as int),
    {
        self.ncpu * SLOTS_PER_HART
    }

    /// First slot of the slice owned by `hart`.
    pub fn slice_start(&self, hart: usize) -> (slot: usize)
        requires
            self.valid(),
            hart < self.ncpu,
        ensures
            slot == slice_start(hart as int),
            slot + SLOTS_PER_HART <= region_slots(self.ncpu as int),
    {
        hart * SLOTS_PER_HART
    }

    /// Address of the timer comparator of `hart`.
    pub fn compare_addr(&self, hart: usize) -> (addr: u64)
        requires
            self.valid(),
            hart < self.ncpu,
        ensures
            addr == compare_addr(self.compare_base as int, hart as int),
    {
        COMPARE_STRIDE * (hart as u64) + self.compare_base
    }

    /// Value for the scratch-pointer register of `hart`: the address of the
    /// first slot of its slice.
    pub fn scratch_ptr(&self, hart: usize) -> (addr: u64)
        requires
            self.valid(),
            hart < self.ncpu,
        ensures
            addr == scratch_ptr(self.scratch_base as int, hart as int),
    {
        let offset: u64 = (hart * SLOTS_PER_HART) as u64;
        self.scratch_base + offset * WORD_BYTES
    }
}

/// Two different harts never share a scratch slot: one slice ends before the
/// other begins.
pub proof fn lemma_slices_disjoint(h1: int, h2: int)
    requires
        h1 != h2,
    ensures
        slice_end(h1) <= slice_start(h2) || slice_end(h2) <= slice_start(h1),
        forall|slot: int| !(in_slice(h1, slot) && in_slice(h2, slot)),
{
}

/// The slot that one hart publishes is never a slot of another hart's slice.
pub proof fn lemma_published_slot_is_private(h1: int, h2: int, slot: int)
    requires
        h1 != h2,
        0 <= slot < SLOTS_PER_HART,
    ensures
        in_slice(h1, slot_index(h1, slot)),
        !in_slice(h2, slot_index(h1, slot)),
{
}

/// Every hart's slice lies within the region, and the slice of the last hart
/// ends exactly where the region ends.
pub proof fn lemma_slices_fill_region(ncpu: int, hart: int)
    requires
        0 <= hart < ncpu,
    ensures
        0 <= slice_start(hart),
        slice_end(hart) <= region_slots(ncpu),
        hart == ncpu - 1 ==> slice_end(hart) == region_slots(ncpu),
{
}

/// The scratch pointer of a hart is a function of the hart and of the region's
/// base alone: whatever else two configurations disagree on, they place the
/// slice of `hart` at the same address.
pub proof fn lemma_scratch_ptr_depends_on_base_and_hart(a: BootConfig, b: BootConfig, hart: int)
    requires
        a.scratch_base == b.scratch_base,
    ensures
        scratch_ptr(a.scratch_base as int, hart) == scratch_ptr(b.scratch_base as int, hart),
{
}

/// Different harts get different scratch pointers and different comparators,
/// and the byte ranges of their slices do not overlap.
pub proof fn lemma_addresses_distinct(config: BootConfig, h1: int, h2: int)
    requires
        h1 < h2,
    ensures
        compare_addr(config.compare_base as int, h1) + COMPARE_STRIDE <= compare_addr(
            config.compare_base as int,
            h2,
        ),
        scratch_ptr(config.scratch_base as int, h1) + WORD_BYTES * SLOTS_PER_HART <= scratch_ptr(
            config.scratch_base as int,
            h2,
        ),
{
}

} // verus!
