//! The second-stage memory set a guest owns: the mapping from the guest's
//! physical addresses to host virtual addresses, together with the page
//! table whose token identifies the mapping to the hardware.

use vstd::prelude::*;

use crate::page_table::PageTable;

verus! {

/// The second-stage mapping owned by one guest: a page table (whose token is
/// the opaque second-stage root handed to the hardware) and the committed
/// guest-physical to host-virtual translations, kept as explicit pairs
/// `(guest_pa, host_va)` and queried front to back.
pub struct MemorySet<P: PageTable> {
    /// The second-stage page table.
    pub page_table: P,
    /// The committed translations, front entries winning.
    pub translations: Vec<(usize, usize)>,
}

impl<P: PageTable> MemorySet<P> {
    /// The host virtual address recorded for `pa` at or after position `i`
    /// of the translation table, front entries winning.
    pub open spec fn lookup_from(translations: Seq<(usize, usize)>, pa: usize, i: int) -> Option<
        usize,
    >
        decreases translations.len() - i,
    {
        if i < 0 || i >= translations.len() {
            None
        } else if translations[i].0 == pa {
            Some(translations[i].1)
        } else {
            Self::lookup_from(translations, pa, i + 1)
        }
    }

    /// The host virtual address this memory set maps `pa` to, if any.
    pub open spec fn lookup_spec(self, pa: usize) -> Option<usize> {
        Self::lookup_from(self.translations@, pa, 0)
    }

    /// The opaque second-stage translation-root token of this memory set.
    pub open spec fn token_spec(self) -> usize {
        self.page_table.token_spec()
    }

    /// Returns the opaque second-stage translation-root token.
    pub fn token(&self) -> (r: usize)
        ensures
            r == self.token_spec(),
    {
        self.page_table.token()
    }

    /// Resolves a guest-physical address through this memory set into a host
    /// virtual address; `None` when the address is outside the committed
    /// translations.
    pub fn translate_va(&self, pa: usize) -> (r: Option<usize>)
        ensures
            r == self.lookup_spec(pa),
    {
        let mut i: usize = 0;
        while i < self.translations.len()
            invariant
                0 <= i <= self.translations.len(),
                Self::lookup_from(self.translations@, pa, 0) == Self::lookup_from(
                    self.translations@,
                    pa,
                    i as int,
                ),
            decreases self.translations.len() - i,
        {
            let entry: (usize, usize) = self.translations[i];
            if entry.0 == pa {
                return Some(entry.1);
            }
            i = i + 1;
        }
        None
    }
}

} // verus!
