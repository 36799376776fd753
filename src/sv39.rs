//! The Sv39 boot scheme: a single 512-entry root table whose entries
//! are 1 GiB leaves.
use vstd::prelude::*;
use crate::pte::{
    PTE_FULL, ENTRIES, spec_pte_addr, spec_pte_flags, spec_pte_ppn, spec_pte_valid,
    spec_pte_is_leaf, spec_leaf_pte, spec_vpn, leaf_pte, vpn, lemma_leaf_pte,
};

verus! {

/// Virtual address at which the kernel runs once relocated: the last
/// gigabyte of the address space.
pub const KERNEL_BASE: u64 = 0xffff_ffff_c000_0000;

/// Difference between a physical address and its kernel virtual address in
/// the direct-map region.
pub const PHYS_VIRT_OFFSET: u64 = 0xffff_ffc0_0000_0000;

/// Physical address at which the kernel image is loaded.
pub const PHYS_KERNEL_BASE: u64 = 0x8000_0000;

/// Size of the region covered by one root entry.
pub const GIB: u64 = 0x4000_0000;

/// Physical addresses below this bound are reachable through the lower
/// half of the Sv39 address space, and so can be identity mapped.
pub const SV39_LOW_HALF: u64 = 0x40_0000_0000;

/// A physical window that the boot table can map: gigabyte aligned and
/// identity-mappable.
pub open spec fn sv39_window_ok(phys_base: u64) -> bool {
    phys_base % GIB == 0 && phys_base < SV39_LOW_HALF
}

/// The root index of a virtual address.
pub open spec fn sv39_index(va: u64) -> int {
    spec_vpn(va, 2) as int
}

/// What the boot builder makes of `root` for the window at `phys_base`:
/// the identity window, its direct-map alias and the kernel's own
/// gigabyte each get a full-permission leaf to `phys_base`; the rest stays.
pub open spec fn sv39_boot_table(root: Seq<u64>, phys_base: u64) -> Seq<u64> {
    let e = spec_leaf_pte(phys_base);
    root.update(sv39_index(phys_base), e).update(
        sv39_index((phys_base + PHYS_VIRT_OFFSET) as u64),
        e,
    ).update(sv39_index(KERNEL_BASE), e)
}

/// Translation of `va` through a root table of 1 GiB leaves: `None` where
/// the entry is invalid or not a leaf.
pub open spec fn sv39_translate(root: Seq<u64>, va: u64) -> Option<int> {
    let e = root[sv39_index(va)];
    if spec_pte_valid(e) && spec_pte_is_leaf(e) {
        Some(spec_pte_addr(e) + va % GIB)
    } else {
        None
    }
}

proof fn lemma_sv39_indices(phys_base: u64)
    requires
        sv39_window_ok(phys_base),
    ensures
        sv39_index(phys_base) == phys_base / GIB,
        sv39_index((phys_base + PHYS_VIRT_OFFSET) as u64) == 0x100 + phys_base / GIB,
        sv39_index(KERNEL_BASE) == 0x1ff,
        phys_base / GIB < 0x100,
{
    assert(phys_base < 0x40_0000_0000 ==> (phys_base >> (12 + 9 * 2u64)) & 0x1ff == phys_base
        / 0x4000_0000) by (bit_vector);
    assert(phys_base % 0x4000_0000 == 0 && phys_base < 0x40_0000_0000 ==> ((vstd::prelude::add(
        phys_base,
        0xffff_ffc0_0000_0000u64,
    )) >> (12 + 9 * 2u64)) & 0x1ff == 0x100 + phys_base / 0x4000_0000) by (bit_vector);
    assert((0xffff_ffff_c000_0000u64 >> (12 + 9 * 2u64)) & 0x1ff == 0x1ff) by (bit_vector);
}

/// The three entries that the builder writes sit at the index that each
/// mapped virtual range selects (the identity gigabyte, the direct-map
/// alias 0x100 entries above it, the last entry for the kernel), and each
/// holds the frame of the window with the full permission pattern.
pub proof fn lemma_sv39_boot_entries(root: Seq<u64>, phys_base: u64)
    requires
        root.len() == ENTRIES,
        sv39_window_ok(phys_base),
    ensures
        sv39_index(phys_base) == phys_base / GIB,
        sv39_index((phys_base + PHYS_VIRT_OFFSET) as u64) == 0x100 + phys_base / GIB,
        sv39_index(KERNEL_BASE) == 0x1ff,
        spec_pte_ppn(spec_leaf_pte(phys_base)) == phys_base >> 12,
        spec_pte_flags(spec_leaf_pte(phys_base)) == PTE_FULL,
        ({
            let t = sv39_boot_table(root, phys_base);
            &&& t.len() == ENTRIES
            &&& t[(phys_base / GIB) as int] == spec_leaf_pte(phys_base)
            &&& t[0x100 + (phys_base / GIB) as int] == spec_leaf_pte(phys_base)
            &&& t[0x1ff] == spec_leaf_pte(phys_base)
            &&& forall|i: int|
                0 <= i < ENTRIES && i != phys_base / GIB && i != 0x100 + phys_base / GIB && i
                    != 0x1ff ==> t[i] == root[i]
        }),
{
    lemma_sv39_indices(phys_base);
    lemma_leaf_pte(phys_base);
}

/// Every physical address of the window is reached both through the
/// identity mapping and through the direct map at `pa + PHYS_VIRT_OFFSET`,
/// and the kernel's gigabyte maps onto the window from its start.
pub proof fn lemma_sv39_direct_map(root: Seq<u64>, phys_base: u64, pa: u64)
    requires
        root.len() == ENTRIES,
        sv39_window_ok(phys_base),
        phys_base <= pa < phys_base + GIB,
    ensures
        pa + PHYS_VIRT_OFFSET < 0x1_0000_0000_0000_0000,
        sv39_translate(sv39_boot_table(root, phys_base), pa) == Some(pa as int),
        sv39_translate(sv39_boot_table(root, phys_base), (pa + PHYS_VIRT_OFFSET) as u64) == Some(
            pa as int,
        ),
        sv39_translate(sv39_boot_table(root, phys_base), (KERNEL_BASE + (pa - phys_base)) as u64)
            == Some(pa as int),
{
    lemma_sv39_indices(phys_base);
    lemma_leaf_pte(phys_base);
    assert(phys_base % 0x4000_0000 == 0 && phys_base < 0x40_0000_0000 && phys_base <= pa && pa
        < vstd::prelude::add(phys_base, 0x4000_0000u64) ==> (pa >> (12 + 9 * 2u64)) & 0x1ff == phys_base
        / 0x4000_0000 && pa % 0x4000_0000 == vstd::prelude::sub(pa, phys_base)) by (bit_vector);
    assert(phys_base % 0x4000_0000 == 0 && phys_base < 0x40_0000_0000 && phys_base <= pa && pa
        < vstd::prelude::add(phys_base, 0x4000_0000u64) ==> (vstd::prelude::add(pa, 0xffff_ffc0_0000_0000u64) >> (12 + 9 * 2u64))
        & 0x1ff == 0x100 + phys_base / 0x4000_0000 && vstd::prelude::add(pa, 0xffff_ffc0_0000_0000u64)
        % 0x4000_0000 == vstd::prelude::sub(pa, phys_base)) by (bit_vector);
    assert(phys_base % 0x4000_0000 == 0 && phys_base < 0x40_0000_0000 && phys_base <= pa && pa
        < vstd::prelude::add(phys_base, 0x4000_0000u64) ==> (vstd::prelude::add(0xffff_ffff_c000_0000u64, vstd::prelude::sub(pa, phys_base))
        >> (12 + 9 * 2u64)) & 0x1ff == 0x1ff && vstd::prelude::add(0xffff_ffff_c000_0000u64, vstd::prelude::sub(pa, phys_base))
        % 0x4000_0000 == vstd::prelude::sub(pa, phys_base)) by (bit_vector);
}

/// Building twice gives the same table as building once, and the result
/// depends on nothing but the table it started from and the window.
pub proof fn lemma_sv39_boot_idempotent(root: Seq<u64>, phys_base: u64)
    requires
        root.len() == ENTRIES,
        sv39_window_ok(phys_base),
    ensures
        sv39_boot_table(sv39_boot_table(root, phys_base), phys_base) == sv39_boot_table(
            root,
            phys_base,
        ),
{
    lemma_sv39_indices(phys_base);
    assert(sv39_boot_table(sv39_boot_table(root, phys_base), phys_base) =~= sv39_boot_table(
        root,
        phys_base,
    ));
}

/// Fills the Sv39 root table for the window at `phys_base`: the identity
/// gigabyte, its direct-map alias and the kernel's gigabyte.
pub fn build_sv39(root: &mut [u64; 512], phys_base: u64)
    requires
        sv39_window_ok(phys_base),
    ensures
        final(root)@ == sv39_boot_table(old(root)@, phys_base),
{
    proof {
        lemma_sv39_indices(phys_base);
    }
    let e = leaf_pte(phys_base);
    root[vpn(phys_base, 2)] = e;
    root[vpn(phys_base + PHYS_VIRT_OFFSET, 2)] = e;
    root[vpn(KERNEL_BASE, 2)] = e;
}

} // verus!
