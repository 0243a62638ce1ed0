//! The state in which the virtual CPU starts.

use vstd::prelude::*;

verus! {

/// The bit of the flags register that is always set.
pub const RFLAGS_FIXED: u64 = 0x2;

/// The bit of the flags register that lets the CPU take interrupts.
pub const RFLAGS_INTERRUPT_ENABLE: u64 = 0x200;

/// The first number that the sample guests expect in a register.
pub const SEED_RAX: u64 = 2;

/// The second number that the sample guests expect in a register.
pub const SEED_RBX: u64 = 3;

/// The registers that the monitor sets before the guest runs. All others keep
/// the values that the virtual CPU was created with.
#[derive(Clone, Copy, Debug, PartialEq, Eq, Structural)]
pub struct BootRegisters {
    /// The base of the code segment.
    pub cs_base: u64,
    /// The selector of the code segment.
    pub cs_selector: u16,
    /// The instruction pointer.
    pub rip: u64,
    pub rax: u64,
    pub rbx: u64,
    pub rflags: u64,
}

/// Whether a flags register lets the CPU take interrupts.
pub open spec fn interrupts_enabled(rflags: u64) -> bool {
    rflags & RFLAGS_INTERRUPT_ENABLE != 0
}

/// The registers of a guest that starts at `entry`.
///
/// The code segment starts at address zero with selector zero, so that the
/// addresses the guest computes are the physical ones; execution starts at
/// `entry` with interrupts enabled, and two registers hold the numbers that
/// the sample guests add up.
pub open spec fn boot_registers(entry: u64) -> BootRegisters {
    BootRegisters {
        cs_base: 0,
        cs_selector: 0,
        rip: entry,
        rax: SEED_RAX,
        rbx: SEED_RBX,
        rflags: RFLAGS_FIXED | RFLAGS_INTERRUPT_ENABLE,
    }
}

/// The registers with which a guest starts at `entry`.
pub fn setup_regs(entry: u64) -> (regs: BootRegisters)
    ensures
        regs == boot_registers(entry),
        interrupts_enabled(regs.rflags),
        regs.rflags == 0x202,
{
    assert((0x2u64 | 0x200u64) & 0x200u64 != 0 && (0x2u64 | 0x200u64) == 0x202u64) by (bit_vector);
    BootRegisters {
        cs_base: 0,
        cs_selector: 0,
        rip: entry,
        rax: SEED_RAX,
        rbx: SEED_RBX,
        rflags: RFLAGS_FIXED | RFLAGS_INTERRUPT_ENABLE,
    }
}

} // verus!
