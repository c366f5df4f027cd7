//! Guest physical partitioner and two-stage translation engine: maps a guest
//! identifier and a guest-physical address to and from a host physical
//! address using static, fixed-size, non-overlapping segments, and resolves
//! a guest virtual address first through the guest's own page tables and
//! then through the guest's second-stage memory set.

use vstd::prelude::*;

use crate::mm::MemorySet;
use crate::page_table::GuestPageTable;
use crate::page_table::PageTable;

verus! {

/// Size in bytes of the host-physical segment granted to each guest (128 MiB).
pub const GUEST_SEGMENT_SIZE: usize = 128 * 1024 * 1024;

/// Host-physical start of the segment granted to guest `guest_id`. The first
/// segment `[0, GUEST_SEGMENT_SIZE)` is reserved for the hypervisor itself,
/// so guest 0 begins at `GUEST_SEGMENT_SIZE`, not 0.
pub open spec fn segment_start(guest_id: int) -> int {
    (guest_id + 1) * (GUEST_SEGMENT_SIZE as int)
}

/// Translates a guest-physical address into the host-physical address inside
/// the segment granted to `guest_id`.
pub fn gpa2hpa(va: usize, guest_id: usize) -> (r: usize)
    requires
        va < GUEST_SEGMENT_SIZE,
        segment_start(guest_id as int) + GUEST_SEGMENT_SIZE <= usize::MAX,
    ensures
        r == va + segment_start(guest_id as int),
        segment_start(guest_id as int) <= r < segment_start(guest_id as int)
            + GUEST_SEGMENT_SIZE,
{
    proof {
        assert((guest_id as int + 1) * (GUEST_SEGMENT_SIZE as int) >= guest_id as int + 1)
            by (nonlinear_arith)
            requires
                guest_id as int >= 0,
                GUEST_SEGMENT_SIZE as int >= 1,
        ;
    }
    va + (guest_id + 1) * GUEST_SEGMENT_SIZE
}

/// Translates a host-physical address inside the segment granted to
/// `guest_id` back into the guest-physical address: the exact inverse of
/// `gpa2hpa`.
pub fn hpa2gpa(pa: usize, guest_id: usize) -> (r: usize)
    requires
        segment_start(guest_id as int) <= pa,
    ensures
        r == pa - segment_start(guest_id as int),
{
    proof {
        assert((guest_id as int + 1) * (GUEST_SEGMENT_SIZE as int) >= guest_id as int + 1)
            by (nonlinear_arith)
            requires
                guest_id as int >= 0,
                GUEST_SEGMENT_SIZE as int >= 1,
        ;
    }
    pa - (guest_id + 1) * GUEST_SEGMENT_SIZE
}

/// Segments of distinct guests are disjoint: no host-physical address lies
/// both in the segment granted to `guest_id1` and in the one granted to
/// `guest_id2`.
pub proof fn lemma_segments_disjoint(guest_id1: int, guest_id2: int, addr: int)
    requires
        0 <= guest_id1,
        0 <= guest_id2,
        guest_id1 != guest_id2,
        segment_start(guest_id1) <= addr < segment_start(guest_id1) + GUEST_SEGMENT_SIZE,
    ensures
        !(segment_start(guest_id2) <= addr < segment_start(guest_id2) + GUEST_SEGMENT_SIZE),
{
    let s = GUEST_SEGMENT_SIZE as int;
    assert((guest_id1 < guest_id2 ==> (guest_id1 + 1) * s + s <= (guest_id2 + 1) * s)
        && (guest_id2 < guest_id1 ==> (guest_id2 + 1) * s + s <= (guest_id1 + 1) * s))
        by (nonlinear_arith)
        requires
            s >= 0,
    ;
}

/// Isolation: the partitioner never sends guest-physical addresses of two
/// distinct guests to the same host-physical address, so no memory set
/// built over it can alias across guests.
pub proof fn lemma_no_cross_guest_aliasing(
    va1: int,
    va2: int,
    guest_id1: int,
    guest_id2: int,
)
    requires
        0 <= guest_id1,
        0 <= guest_id2,
        guest_id1 != guest_id2,
        0 <= va1 < GUEST_SEGMENT_SIZE,
        0 <= va2 < GUEST_SEGMENT_SIZE,
    ensures
        va1 + segment_start(guest_id1) != va2 + segment_start(guest_id2),
{
    lemma_segments_disjoint(guest_id1, guest_id2, va1 + segment_start(guest_id1));
}

/// Round trip: translating a guest-physical address into the host segment of
/// a guest and back is the identity.
pub proof fn lemma_gpa_round_trip(va: int, guest_id: int)
    requires
        0 <= guest_id,
        0 <= va < GUEST_SEGMENT_SIZE,
    ensures
        (va + segment_start(guest_id)) - segment_start(guest_id) == va,
{
}

/// Physical-page-number field of a satp-format translation-root register
/// value.
pub const SATP_PPN_MASK: u64 = 0x3ff_ffff_ffff;

/// Width in bits of the page offset; shifting a page number left by it gives
/// a byte address.
pub const PAGE_OFFSET_BITS: u64 = 12;

/// The guest's first-stage page-table root as a guest-physical byte address,
/// derived from the guest's satp-format translation-root value: the
/// physical-page-number field, shifted up by the page-offset width.
pub open spec fn translation_root_spec(vsatp: usize) -> u64 {
    ((vsatp as u64) & SATP_PPN_MASK) << PAGE_OFFSET_BITS
}

/// Derives the guest's first-stage page-table root from the guest's
/// satp-format translation-root value. Recomputed on every translation,
/// never cached: the guest may change its translation root at any time.
pub fn translation_root(vsatp: usize) -> (r: u64)
    ensures
        r == translation_root_spec(vsatp),
{
    ((vsatp as u64) & SATP_PPN_MASK) << PAGE_OFFSET_BITS
}

/// What the two-stage translation of `guest_va` yields: the guest-physical
/// address the guest's own page tables (rooted as `vsatp` says) resolve it
/// to, pushed through the guest's second-stage memory set; `None` as soon as
/// either stage has no mapping.
pub open spec fn two_stage_spec<P: PageTable>(
    guest_id: usize,
    guest_va: usize,
    vsatp: usize,
    gpm: MemorySet<P>,
) -> Option<usize> {
    match gpm.page_table.walk_spec(guest_id, translation_root_spec(vsatp), guest_va) {
        Some(guest_pa) => gpm.lookup_spec(guest_pa),
        None => None,
    }
}

/// Resolves a guest virtual address into a host virtual address: first
/// through the guest's self-managed first-stage page tables, then through
/// the guest's second-stage memory set. Returns `None` on any unmapped or
/// invalid address at either stage; the engine does not distinguish why a
/// translation failed.
pub fn two_stage_translation<P: GuestPageTable>(
    guest_id: usize,
    guest_va: usize,
    vsatp: usize,
    gpm: &MemorySet<P>,
) -> (r: Option<usize>)
    ensures
        r == two_stage_spec(guest_id, guest_va, vsatp, *gpm),
{
    let guest_root = translation_root(vsatp);
    if let Some(guest_pa) = gpm.page_table.translate_guest_va(guest_id, guest_root, guest_va) {
        if let Some(host_va) = gpm.translate_va(guest_pa) {
            Some(host_va)
        } else {
            None
        }
    } else {
        None
    }
}

/// First-stage failure short-circuits: when the guest walker resolves no
/// mapping, the two-stage translation yields nothing, whatever the second
/// stage would have said.
pub proof fn lemma_first_stage_failure<P: PageTable>(
    guest_id: usize,
    guest_va: usize,
    vsatp: usize,
    gpm: MemorySet<P>,
)
    requires
        gpm.page_table.walk_spec(guest_id, translation_root_spec(vsatp), guest_va) is None,
    ensures
        two_stage_spec(guest_id, guest_va, vsatp, gpm) is None,
{
}

/// Second-stage failure yields nothing: when the guest walker succeeds but
/// the memory set has no translation for the resulting guest-physical
/// address, the two-stage translation yields nothing.
pub proof fn lemma_second_stage_failure<P: PageTable>(
    guest_id: usize,
    guest_va: usize,
    vsatp: usize,
    gpm: MemorySet<P>,
    guest_pa: usize,
)
    requires
        gpm.page_table.walk_spec(guest_id, translation_root_spec(vsatp), guest_va) == Some(
            guest_pa,
        ),
        gpm.lookup_spec(guest_pa) is None,
    ensures
        two_stage_spec(guest_id, guest_va, vsatp, gpm) is None,
{
}

} // verus!
