//! Trap context protocol: the fixed-layout record of the machine state
//! needed to enter or resume a guest, and the initialization that primes it
//! for a guest's first entry.

use vstd::prelude::*;

verus! {

/// Saved-status bit meaning the context resumes at supervisor privilege:
/// the previous-privilege (SPP) field of the sstatus register.
pub const SSTATUS_SPP: usize = 0x100;

/// Saved-virtualization bit meaning the context resumes virtualized: the
/// previous-virtualization (SPV) flag of the hstatus register.
pub const HSTATUS_SPV: usize = 0x80;

#[derive(Debug, PartialEq, Eq)]
/// Trap context: the complete machine state needed to enter or resume a
/// guest. One instance lives per hardware thread and is overwritten, not
/// allocated, each time a guest is primed for entry; the low-level
/// trap-return and trap-entry paths read and write it.
pub struct TrapContext {
    /// General-purpose register slots; slot 2 is the stack pointer.
    pub x: [usize; 32],
    /// Saved status flags, privilege level of the resumed context included.
    pub sstatus: usize,
    /// Saved program counter: where the resumed context continues.
    pub sepc: usize,
    /// Second-stage page-table token installed for the resumed guest.
    pub hgatp: usize,
    /// Hypervisor stack pointer to use if a trap occurs while this guest
    /// runs.
    pub kernel_sp: usize,
    /// Address of the trap-entry handler routine.
    pub trap_handler: usize,
    /// Saved virtualization-status flags, the resume-virtualized bit
    /// included.
    pub hstatus: usize,
}

impl TrapContext {
    /// A context primed for a guest's first entry: every general-purpose
    /// slot zero but the stack pointer, program counter at the guest's
    /// entry, supervisor privilege and virtualized resume flagged, and the
    /// second-stage token, hypervisor stack and handler address recorded
    /// verbatim.
    pub open spec fn is_primed(
        self,
        entry: usize,
        sp: usize,
        hgatp: usize,
        kernel_sp: usize,
        trap_handler: usize,
    ) -> bool {
        &&& forall|i: int| 0 <= i < 32 && i != 2 ==> self.x@[i] == 0
        &&& self.x@[2] == sp
        &&& self.sstatus == SSTATUS_SPP
        &&& self.sepc == entry
        &&& self.hgatp == hgatp
        &&& self.kernel_sp == kernel_sp
        &&& self.trap_handler == trap_handler
        &&& self.hstatus == HSTATUS_SPV
    }

    /// Sets the stack-pointer slot (general-purpose register 2), leaving
    /// every other field as it was.
    pub fn set_sp(&mut self, sp: usize)
        ensures
            final(self).x@ == old(self).x@.update(2, sp),
            final(self).sstatus == old(self).sstatus,
            final(self).sepc == old(self).sepc,
            final(self).hgatp == old(self).hgatp,
            final(self).kernel_sp == old(self).kernel_sp,
            final(self).trap_handler == old(self).trap_handler,
            final(self).hstatus == old(self).hstatus,
    {
        self.x[2] = sp;
    }

    /// Primes a trap context for a guest's first entry: zeroes the
    /// general-purpose slots, then sets the stack pointer to `sp`, the saved
    /// program counter to `entry`, the saved privilege to supervisor and the
    /// saved virtualization flag to a virtualized resume, and records the
    /// second-stage token, hypervisor stack top and trap-handler address
    /// verbatim.
    pub fn initialize_context(
        entry: usize,
        sp: usize,
        hgatp: usize,
        kernel_sp: usize,
        trap_handler: usize,
    ) -> (cx: TrapContext)
        ensures
            cx.is_primed(entry, sp, hgatp, kernel_sp, trap_handler),
    {
        let mut cx = TrapContext {
            x: [0; 32],
            sstatus: SSTATUS_SPP,
            sepc: entry,
            hgatp,
            kernel_sp,
            trap_handler,
            hstatus: HSTATUS_SPV,
        };
        cx.set_sp(sp);
        cx
    }
}

/// Priming is deterministic: two contexts primed with identical arguments
/// are identical, field for field and bit for bit.
pub proof fn lemma_priming_deterministic(
    c1: TrapContext,
    c2: TrapContext,
    entry: usize,
    sp: usize,
    hgatp: usize,
    kernel_sp: usize,
    trap_handler: usize,
)
    requires
        c1.is_primed(entry, sp, hgatp, kernel_sp, trap_handler),
        c2.is_primed(entry, sp, hgatp, kernel_sp, trap_handler),
    ensures
        c1 == c2,
{
    assert(c1.x =~= c2.x);
}

} // verus!
