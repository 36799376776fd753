//! Page-table entry encoding and virtual-address index extraction shared by
//! the Sv39 and Sv48 schemes.
use vstd::prelude::*;

verus! {

/// Number of entries in every page table of the supported schemes.
pub const ENTRIES: usize = 512;

/// Valid bit.
pub const PTE_V: u64 = 0x1;

/// Readable, writable and executable bits together; an entry with any of
/// them set is a leaf.
pub const PTE_RWX: u64 = 0xe;

/// The full permission pattern of a boot leaf: valid, readable, writable,
/// executable, global, accessed and dirty (user clear).
pub const PTE_FULL: u64 = 0xef;

/// Width of the flag field at the bottom of an entry.
pub const PTE_FLAG_BITS: u64 = 10;

/// Log2 of the base page size.
pub const PAGE_SHIFT: u64 = 12;

/// Largest physical address (exclusive) that an entry can hold: 56 bits.
pub const PHYS_LIMIT: u64 = 0x100_0000_0000_0000;

/// The flag field (bits 0..10) of an entry.
pub open spec fn spec_pte_flags(e: u64) -> u64 {
    e & 0x3ff
}

/// The physical page number (bits 10..54) of an entry.
pub open spec fn spec_pte_ppn(e: u64) -> u64 {
    (e >> 10) & 0xfff_ffff_ffff
}

/// The physical address that an entry points at.
pub open spec fn spec_pte_addr(e: u64) -> int {
    spec_pte_ppn(e) * 4096
}

pub open spec fn spec_pte_valid(e: u64) -> bool {
    e & PTE_V != 0
}

pub open spec fn spec_pte_is_leaf(e: u64) -> bool {
    e & PTE_RWX != 0
}

/// A physical address that can stand in an entry: page aligned and within
/// the 56-bit physical address space.
pub open spec fn page_addr_ok(pa: u64) -> bool {
    pa % 4096 == 0 && pa < PHYS_LIMIT
}

/// A leaf entry with the full permission pattern that maps `pa`.
pub open spec fn spec_leaf_pte(pa: u64) -> u64 {
    ((pa >> 12) << 10) | 0xef
}

/// A branch entry pointing at the table at `pa`: only the valid bit is set.
pub open spec fn spec_branch_pte(pa: u64) -> u64 {
    ((pa >> 12) << 10) | 0x1
}

/// The 9-bit table index that `va` selects at `level` (0 is the leaf level
/// of 4 KiB pages, each level above it consumes the next 9 bits).
pub open spec fn spec_vpn(va: u64, level: u64) -> u64 {
    (va >> (12 + 9 * level)) & 0x1ff
}

/// The size of the region that one entry at `level` covers.
pub open spec fn level_size(level: nat) -> nat
    decreases level,
{
    if level == 0 {
        4096
    } else {
        512 * level_size((level - 1) as nat)
    }
}

/// Every index taken from a virtual address lies in `[0, 511]`.
pub proof fn lemma_vpn_in_range(va: u64, level: u64)
    requires
        level < 5,
    ensures
        spec_vpn(va, level) < ENTRIES,
{
    assert((va >> (12 + 9 * level)) & 0x1ff <= 0x1ff) by (bit_vector);
}

/// A leaf built from a page-aligned address holds exactly that address and
/// the full permission pattern.
pub proof fn lemma_leaf_pte(pa: u64)
    requires
        page_addr_ok(pa),
    ensures
        spec_pte_addr(spec_leaf_pte(pa)) == pa,
        spec_pte_ppn(spec_leaf_pte(pa)) == pa >> 12,
        spec_pte_flags(spec_leaf_pte(pa)) == PTE_FULL,
        spec_pte_valid(spec_leaf_pte(pa)),
        spec_pte_is_leaf(spec_leaf_pte(pa)),
{
    let e = spec_leaf_pte(pa);
    assert(pa % 4096 == 0 && pa < 0x100_0000_0000_0000 ==> ((((pa >> 12) << 10) | 0xef) >> 10)
        & 0xfff_ffff_ffff == pa >> 12) by (bit_vector);
    assert(pa % 4096 == 0 ==> (pa >> 12) * 4096 == pa) by (bit_vector);
    assert(((((pa >> 12) << 10) | 0xef) & 0x3ff) == 0xef) by (bit_vector);
    assert(((((pa >> 12) << 10) | 0xef) & 0x1) != 0) by (bit_vector);
    assert(((((pa >> 12) << 10) | 0xef) & 0xe) != 0) by (bit_vector);
}

/// A branch built from a page-aligned address holds exactly that address
/// and no flag but the valid bit.
pub proof fn lemma_branch_pte(pa: u64)
    requires
        page_addr_ok(pa),
    ensures
        spec_pte_addr(spec_branch_pte(pa)) == pa,
        spec_pte_ppn(spec_branch_pte(pa)) == pa >> 12,
        spec_pte_flags(spec_branch_pte(pa)) == PTE_V,
        spec_pte_valid(spec_branch_pte(pa)),
        !spec_pte_is_leaf(spec_branch_pte(pa)),
{
    assert(pa % 4096 == 0 && pa < 0x100_0000_0000_0000 ==> ((((pa >> 12) << 10) | 0x1) >> 10)
        & 0xfff_ffff_ffff == pa >> 12) by (bit_vector);
    assert(pa % 4096 == 0 ==> (pa >> 12) * 4096 == pa) by (bit_vector);
    assert(((((pa >> 12) << 10) | 0x1) & 0x3ff) == 0x1) by (bit_vector);
    assert(((((pa >> 12) << 10) | 0x1) & 0x1) != 0) by (bit_vector);
    assert(((((pa >> 12) << 10) | 0x1) & 0xe) == 0) by (bit_vector);
}

/// Encodes a leaf entry with the full permission pattern for `pa`.
pub fn leaf_pte(pa: u64) -> (r: u64)
    requires
        page_addr_ok(pa),
    ensures
        r == spec_leaf_pte(pa),
        spec_pte_addr(r) == pa,
        spec_pte_flags(r) == PTE_FULL,
{
    proof {
        lemma_leaf_pte(pa);
    }
    ((pa >> PAGE_SHIFT) << PTE_FLAG_BITS) | PTE_FULL
}

/// Encodes a branch entry pointing at the table at `pa`.
pub fn branch_pte(pa: u64) -> (r: u64)
    requires
        page_addr_ok(pa),
    ensures
        r == spec_branch_pte(pa),
        spec_pte_addr(r) == pa,
        spec_pte_flags(r) == PTE_V,
{
    proof {
        lemma_branch_pte(pa);
    }
    ((pa >> PAGE_SHIFT) << PTE_FLAG_BITS) | PTE_V
}

/// The table index that `va` selects at `level`.
pub fn vpn(va: u64, level: u64) -> (r: usize)
    requires
        level < 5,
    ensures
        r as u64 == spec_vpn(va, level),
        r < ENTRIES,
{
    proof {
        lemma_vpn_in_range(va, level);
    }
    ((va >> (PAGE_SHIFT + 9 * level)) & 0x1ff) as usize
}

} // verus!
