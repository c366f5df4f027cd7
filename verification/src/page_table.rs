//! Page-table capability contracts: the generic operations the translation
//! engine needs from any page-table type, and the extra capability a
//! second-stage page table must offer to back a guest.

use vstd::prelude::*;

verus! {

/// The generic page-table abstraction the core builds on. A page table
/// carries an opaque translation-root token, and can walk a guest's own
/// (first-stage) page-table structure to resolve a guest virtual address
/// into a guest-physical address.
pub trait PageTable: Sized {
    /// The opaque translation-root token of this page table.
    spec fn token_spec(&self) -> usize;

    /// The guest-physical address, if any, that a walk of the guest's
    /// first-stage page tables rooted at `root` resolves `guest_va` to.
    spec fn walk_spec(&self, guest_id: usize, root: u64, guest_va: usize) -> Option<usize>;

    /// Returns the opaque translation-root token of this page table.
    fn token(&self) -> (r: usize)
        ensures
            r == self.token_spec(),
    ;

    /// Walks the guest's self-managed first-stage page tables, rooted at the
    /// guest-physical byte address `root`, and resolves `guest_va` to a
    /// guest-physical address. Returns `None` when any level of the walk is
    /// unmapped, malformed, or outside the guest's committed range.
    fn translate_guest_va(&self, guest_id: usize, root: u64, guest_va: usize) -> (r: Option<
        usize,
    >)
        ensures
            r == self.walk_spec(guest_id, root, guest_va),
    ;
}

/// The capability a second-stage page table must offer beyond the generic
/// page-table operations: constructing a fresh, empty guest-facing table.
pub trait GuestPageTable: PageTable {
    /// Constructs a fresh, empty guest-facing page table: one through which
    /// no walk resolves yet.
    fn new_guest() -> (r: Self)
        ensures
            forall|guest_id: usize, root: u64, guest_va: usize|
                r.walk_spec(guest_id, root, guest_va) is None,
    ;
}

/// A page table kept as an explicit table of resolved walks: each entry
/// records that, for a given guest and first-stage root, one guest virtual
/// address resolves to one guest-physical address. Entries are
/// `(guest_id, root, guest_va, guest_pa)`.
pub struct FlatPageTable {
    /// The translation-root token this table answers to.
    pub root: usize,
    /// The resolved walks, queried front to back.
    pub walks: Vec<(usize, u64, usize, usize)>,
}

impl FlatPageTable {
    /// The guest-physical address recorded for `(guest_id, root, guest_va)`
    /// at or after position `i` of the table, front entries winning.
    pub open spec fn walk_from(
        walks: Seq<(usize, u64, usize, usize)>,
        guest_id: usize,
        root: u64,
        guest_va: usize,
        i: int,
    ) -> Option<usize>
        decreases walks.len() - i,
    {
        if i < 0 || i >= walks.len() {
            None
        } else if walks[i].0 == guest_id && walks[i].1 == root && walks[i].2 == guest_va {
            Some(walks[i].3)
        } else {
            Self::walk_from(walks, guest_id, root, guest_va, i + 1)
        }
    }
}

impl PageTable for FlatPageTable {
    open spec fn token_spec(&self) -> usize {
        self.root
    }

    open spec fn walk_spec(&self, guest_id: usize, root: u64, guest_va: usize) -> Option<usize> {
        Self::walk_from(self.walks@, guest_id, root, guest_va, 0)
    }

    fn token(&self) -> (r: usize) {
        self.root
    }

    fn translate_guest_va(&self, guest_id: usize, root: u64, guest_va: usize) -> (r: Option<
        usize,
    >) {
        let mut i: usize = 0;
        while i < self.walks.len()
            invariant
                0 <= i <= self.walks.len(),
                Self::walk_from(self.walks@, guest_id, root, guest_va, 0) == Self::walk_from(
                    self.walks@,
                    guest_id,
                    root,
                    guest_va,
                    i as int,
                ),
            decreases self.walks.len() - i,
        {
            let entry: (usize, u64, usize, usize) = self.walks[i];
            if entry.0 == guest_id && entry.1 == root && entry.2 == guest_va {
                return Some(entry.3);
            }
            i = i + 1;
        }
        None
    }
}

impl GuestPageTable for FlatPageTable {
    fn new_guest() -> Self {
        FlatPageTable { root: 0, walks: Vec::new() }
    }
}

} // verus!
