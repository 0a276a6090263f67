//! Machine-mode bring-up of a multi-hart RISC-V system, stated over a model of
//! the hardware.
//!
//! Every hart leaves reset in machine mode.  Before the kernel proper can run
//! in supervisor mode, the hart has to program a handful of control and status
//! registers in a fixed order, arm its timer in the core-local interruptor, and
//! publish a few words in its slice of a shared scratch region for the
//! machine-mode timer trampoline.  This crate holds that logic:
//!
//! * [`layout`] — the arithmetic of the scratch region and of the timer
//!   comparator block, with the laws that keep the harts apart;
//! * [`csr`] — the register file of one hart and the bit fields the bring-up
//!   touches;
//! * [`machine`] — an observable model of the whole machine: the register
//!   primitives, what each of them does, and a trace of what was done;
//! * [`start`] — the bring-up sequence itself: [`start::timerinit`] and
//!   [`start::start`], with contracts over the model, and [`start::boot_op`],
//!   which hands the sequence out step by step.
pub mod csr;
pub mod layout;
pub mod machine;
pub mod start;
