//! Guest lifecycle manager: builds the per-guest handle and primes the
//! per-hardware-thread trap context for the guest's first entry.

use vstd::prelude::*;

use crate::context::TrapContext;
use crate::mm::MemorySet;
use crate::page_table::GuestPageTable;
use crate::page_table::PageTable;

verus! {

/// Virtual address at which a guest begins execution on its first entry.
pub const GUEST_START_VA: usize = 0x8020_0000;

/// The handle for one isolated virtual machine: its identifier, and
/// exclusive ownership of its second-stage memory set for the guest's
/// lifetime. Distinct resident guests must never share an identifier, or
/// their physical segments alias.
pub struct Guest<P: PageTable + GuestPageTable> {
    /// The guest's second-stage memory set.
    pub gpm: MemorySet<P>,
    /// The guest's identifier, the sole key into the physical-segment
    /// partitioning.
    pub guest_id: usize,
}

impl<P: PageTable + GuestPageTable> Guest<P> {
    /// Creates the guest handle and primes the per-hardware-thread trap
    /// context slot `trap_ctx` for the guest's first entry: program counter
    /// at the guest entry address, initial stack pointer zero (the guest's
    /// own first-stage setup establishes its stack), the memory set's
    /// second-stage token, the hypervisor stack top allocated for this
    /// guest, and the trap-handler address.
    ///
    /// The caller allocates the hypervisor stack, supplies the trap-handler
    /// address, and must not prime two guests for the same hardware thread
    /// without an intervening context switch; it must also wait until any
    /// global initialization the environment gates has completed.
    pub fn new(
        guest_id: usize,
        gpm: MemorySet<P>,
        hstack_top: usize,
        trap_handler: usize,
        trap_ctx: &mut TrapContext,
    ) -> (g: Self)
        ensures
            g.guest_id == guest_id,
            g.gpm == gpm,
            final(trap_ctx).is_primed(
                GUEST_START_VA,
                0,
                gpm.token_spec(),
                hstack_top,
                trap_handler,
            ),
    {
        *trap_ctx = TrapContext::initialize_context(
            GUEST_START_VA,
            0,
            gpm.token(),
            hstack_top,
            trap_handler,
        );
        Guest { guest_id, gpm }
    }
}

} // verus!
