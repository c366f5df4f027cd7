//! Address-translation and VM-entry core of a type-1 RISC-V hypervisor:
//! static partitioning of host physical memory among guests, software
//! two-stage translation of guest virtual addresses, and the trap context
//! that primes a guest for its first entry.

pub mod context;
pub mod guest;
pub mod mm;
pub mod page_table;
pub mod pmap;
