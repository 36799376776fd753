//! The four-level boot scheme: a root table and three subordinate tables
//! that together map one virtual page onto one physical page.
use vstd::prelude::*;
use crate::pte::{
    PTE_V, spec_pte_addr, spec_pte_flags, spec_pte_valid, spec_pte_is_leaf, spec_leaf_pte,
    spec_branch_pte, spec_vpn, page_addr_ok, level_size, leaf_pte, branch_pte, vpn,
    lemma_leaf_pte, lemma_branch_pte, lemma_vpn_in_range,
};

verus! {

broadcast use vstd::array::group_array_axioms;

/// The physical addresses of the four tables are page aligned, within the
/// physical address space, and pairwise distinct.
pub open spec fn sv48_layout_ok(table_pa: [u64; 4]) -> bool {
    &&& forall|k: int| 0 <= k < 4 ==> page_addr_ok(#[trigger] table_pa[k])
    &&& forall|j: int, k: int|
        0 <= j < 4 && 0 <= k < 4 && j != k ==> #[trigger] table_pa[j] != #[trigger] table_pa[k]
}

/// The translation level that table `k` of the set serves: the root
/// (table 0) is level 3, the last table (table 3) is the 4 KiB leaf level.
pub open spec fn sv48_level(k: int) -> u64 {
    (3 - k) as u64
}

/// The entry that the builder writes in table `k`: a branch to table
/// `k + 1`, or in the last table the leaf for `pa`.
pub open spec fn sv48_boot_entry(table_pa: [u64; 4], pa: u64, k: int) -> u64 {
    if k < 3 {
        spec_branch_pte(table_pa[k + 1])
    } else {
        spec_leaf_pte(pa)
    }
}

/// `after` is `before` with, in each table, the entry that `va` selects at
/// that table's level set to the boot entry, and nothing else changed.
pub open spec fn sv48_built(
    before: [[u64; 512]; 4],
    after: [[u64; 512]; 4],
    table_pa: [u64; 4],
    va: u64,
    pa: u64,
) -> bool {
    forall|k: int|
        0 <= k < 4 ==> (#[trigger] after[k])@ == before[k]@.update(
            spec_vpn(va, sv48_level(k)) as int,
            sv48_boot_entry(table_pa, pa, k),
        )
}

/// The table of the set that lies at physical address `addr`, if any.
pub open spec fn sv48_table_at(tables: [[u64; 512]; 4], table_pa: [u64; 4], addr: int) -> Option<
    Seq<u64>,
> {
    if table_pa[0] == addr {
        Some(tables[0]@)
    } else if table_pa[1] == addr {
        Some(tables[1]@)
    } else if table_pa[2] == addr {
        Some(tables[2]@)
    } else if table_pa[3] == addr {
        Some(tables[3]@)
    } else {
        None
    }
}

/// Hardware-style walk of `va` starting at the table at `addr` on `level`:
/// an invalid entry or a missing table ends in `None`, a leaf gives its
/// address plus the offset of `va` within the region it covers, and a
/// branch continues one level down at the table it points to.
pub open spec fn sv48_walk(
    tables: [[u64; 512]; 4],
    table_pa: [u64; 4],
    addr: int,
    va: u64,
    level: nat,
) -> Option<int>
    decreases level,
{
    match sv48_table_at(tables, table_pa, addr) {
        None => None,
        Some(t) => {
            let e = t[spec_vpn(va, level as u64) as int];
            if !spec_pte_valid(e) {
                None
            } else if spec_pte_is_leaf(e) {
                Some(spec_pte_addr(e) + (va as int) % (level_size(level) as int))
            } else if level == 0 {
                None
            } else {
                sv48_walk(tables, table_pa, spec_pte_addr(e), va, (level - 1) as nat)
            }
        }
    }
}

/// Walking the built chain from the root reaches `pa` (plus the offset of
/// `va` in its page), and every entry on the way above the leaf carries the
/// valid bit and no other flag.
pub proof fn lemma_sv48_walk(
    before: [[u64; 512]; 4],
    after: [[u64; 512]; 4],
    table_pa: [u64; 4],
    va: u64,
    pa: u64,
)
    requires
        sv48_layout_ok(table_pa),
        page_addr_ok(pa),
        sv48_built(before, after, table_pa, va, pa),
    ensures
        sv48_walk(after, table_pa, table_pa[0] as int, va, 3) == Some(pa + va % 4096),
        forall|k: int|
            0 <= k < 3 ==> spec_pte_flags(#[trigger] after[k]@[spec_vpn(va, sv48_level(k)) as int])
                == PTE_V,
{
    assert forall|k: int| 0 <= k < 4 implies {
        &&& spec_vpn(va, sv48_level(k)) < 512
        &&& after[k]@[spec_vpn(va, sv48_level(k)) as int] == sv48_boot_entry(table_pa, pa, k)
    } by {
        lemma_vpn_in_range(va, sv48_level(k));
        assert(after[k]@ == before[k]@.update(
            spec_vpn(va, sv48_level(k)) as int,
            sv48_boot_entry(table_pa, pa, k),
        ));
    }
    assert(page_addr_ok(table_pa[1]));
    assert(page_addr_ok(table_pa[2]));
    assert(page_addr_ok(table_pa[3]));
    lemma_branch_pte(table_pa[1]);
    lemma_branch_pte(table_pa[2]);
    lemma_branch_pte(table_pa[3]);
    lemma_leaf_pte(pa);
    assert(level_size(0) == 4096);
    assert(sv48_table_at(after, table_pa, table_pa[1] as int) == Some(after[1]@));
    assert(sv48_table_at(after, table_pa, table_pa[2] as int) == Some(after[2]@));
    assert(sv48_table_at(after, table_pa, table_pa[3] as int) == Some(after[3]@));
    assert(sv48_walk(after, table_pa, table_pa[3] as int, va, 0) == Some(pa + va % 4096));
    assert(sv48_walk(after, table_pa, table_pa[2] as int, va, 1) == Some(pa + va % 4096));
    assert(sv48_walk(after, table_pa, table_pa[1] as int, va, 2) == Some(pa + va % 4096));
}

/// Building on a set already built with the same arguments leaves it as it
/// is, and two builds from equal sets give equal sets.
pub proof fn lemma_sv48_boot_idempotent(
    before: [[u64; 512]; 4],
    once: [[u64; 512]; 4],
    twice: [[u64; 512]; 4],
    other: [[u64; 512]; 4],
    table_pa: [u64; 4],
    va: u64,
    pa: u64,
)
    requires
        sv48_built(before, once, table_pa, va, pa),
        sv48_built(once, twice, table_pa, va, pa),
        sv48_built(before, other, table_pa, va, pa),
    ensures
        twice == once,
        other == once,
{
    assert forall|k: int| 0 <= k < 4 implies twice[k] == once[k] && other[k] == once[k] by {
        lemma_vpn_in_range(va, sv48_level(k));
        assert(twice[k]@ =~= once[k]@);
        assert(other[k]@ =~= once[k]@);
        assert(twice[k] =~= once[k]);
        assert(other[k] =~= once[k]);
    }
    assert(twice =~= once);
    assert(other =~= once);
}

/// Fills the Sv48 boot set so that `va` translates to `pa`: the root, the
/// two intermediate tables each get a branch to the next table, and the
/// last table gets a full-permission 4 KiB leaf. `table_pa` gives where
/// each table lies in physical memory.
pub fn build_sv48(tables: &mut [[u64; 512]; 4], table_pa: [u64; 4], va: u64, pa: u64)
    requires
        sv48_layout_ok(table_pa),
        page_addr_ok(pa),
    ensures
        sv48_built(*old(tables), *final(tables), table_pa, va, pa),
{
    assert(page_addr_ok(table_pa[1]));
    assert(page_addr_ok(table_pa[2]));
    assert(page_addr_ok(table_pa[3]));
    let i0 = vpn(va, 3);
    tables[0][i0] = branch_pte(table_pa[1]);
    let i1 = vpn(va, 2);
    tables[1][i1] = branch_pte(table_pa[2]);
    let i2 = vpn(va, 1);
    tables[2][i2] = branch_pte(table_pa[3]);
    let i3 = vpn(va, 0);
    tables[3][i3] = leaf_pte(pa);
    assert forall|k: int| 0 <= k < 4 implies (#[trigger] tables[k])@ == old(tables)[k]@.update(
        spec_vpn(va, sv48_level(k)) as int,
        sv48_boot_entry(table_pa, pa, k),
    ) by {
        assert(tables[k]@ =~= old(tables)[k]@.update(
            spec_vpn(va, sv48_level(k)) as int,
            sv48_boot_entry(table_pa, pa, k),
        ));
    }
}

} // verus!
