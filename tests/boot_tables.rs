use mmu_scheme::{
    activation_ops, branch_pte, build_sv39, build_sv48, leaf_pte, relocate, relocate_context,
    root_frame, vpn, ControlOp, ReturnContext, SatpSetting, Scheme, ENTRIES, GIB, KERNEL_BASE,
    PHYS_KERNEL_BASE, PHYS_VIRT_OFFSET, PTE_FULL, PTE_V,
};

const FULL_LEAF_AT_2G: u64 = ((0x8000_0000u64 >> 12) << 10) | 0xef;

fn pte_flags(e: u64) -> u64 {
    e & 0x3ff
}

fn pte_addr(e: u64) -> u64 {
    ((e >> 10) & 0xfff_ffff_ffff) << 12
}

/// Walks an Sv48 set whose tables lie at `table_pa`, as the hardware would.
fn walk_sv48(tables: &[[u64; 512]; 4], table_pa: [u64; 4], va: u64) -> Option<u64> {
    let mut addr = table_pa[0];
    let mut level: u64 = 3;
    loop {
        let k = table_pa.iter().position(|&p| p == addr)?;
        let e = tables[k][((va >> (12 + 9 * level)) & 0x1ff) as usize];
        if e & 1 == 0 {
            return None;
        }
        if e & 0xe != 0 {
            let size = 1u64 << (12 + 9 * level);
            return Some(pte_addr(e) + va % size);
        }
        if level == 0 {
            return None;
        }
        addr = pte_addr(e);
        level -= 1;
    }
}

#[test]
fn sv39_boot_table_at_two_gib_holds_literal_words() {
    let mut root = [0u64; 512];
    build_sv39(&mut root, PHYS_KERNEL_BASE);
    assert_eq!(FULL_LEAF_AT_2G, 0x2000_00ef);
    assert_eq!(root[2], 0x2000_00ef);
    assert_eq!(root[0x102], 0x2000_00ef);
    assert_eq!(root[0x1ff], 0x2000_00ef);
    assert_eq!(root[2] >> 10, 0x8000_0000u64 >> 12);
    assert_eq!(pte_flags(root[2]), PTE_FULL);
    for i in 0..ENTRIES {
        if i != 2 && i != 0x102 && i != 0x1ff {
            assert_eq!(root[i], 0, "entry {} should stay empty", i);
        }
    }
}

#[test]
fn sv39_indices_of_the_three_ranges() {
    assert_eq!(vpn(0x8000_0000, 2), 2);
    assert_eq!(vpn(0xffff_ffc0_8000_0000, 2), 0x102);
    assert_eq!(vpn(KERNEL_BASE, 2), 0x1ff);
    assert_eq!(vpn(0xbfff_ffff, 2), 2);
    assert_eq!(vpn(0xffff_ffc0_bfff_ffff, 2), 0x102);
    assert_eq!(vpn(u64::MAX, 2), 0x1ff);
}

#[test]
fn sv39_other_window_lands_on_matching_indices() {
    let mut root = [0u64; 512];
    build_sv39(&mut root, 0x4000_0000);
    let e = ((0x4000_0000u64 >> 12) << 10) | 0xef;
    assert_eq!(root[1], e);
    assert_eq!(root[0x101], e);
    assert_eq!(root[0x1ff], e);
    assert_eq!(root.iter().filter(|&&x| x != 0).count(), 3);
}

#[test]
fn sv39_highest_window_shares_the_kernel_entry() {
    let mut root = [0u64; 512];
    let base = 0x3f_c000_0000u64;
    build_sv39(&mut root, base);
    let e = ((base >> 12) << 10) | 0xef;
    assert_eq!(root[0xff], e);
    assert_eq!(root[0x1ff], e);
    assert_eq!(root.iter().filter(|&&x| x != 0).count(), 2);
}

#[test]
fn sv39_keeps_unrelated_entries() {
    let mut root = [0u64; 512];
    root[7] = 0x1234;
    build_sv39(&mut root, PHYS_KERNEL_BASE);
    assert_eq!(root[7], 0x1234);
    assert_eq!(root[2], FULL_LEAF_AT_2G);
}

#[test]
fn sv39_build_twice_is_byte_identical() {
    let mut first = [0u64; 512];
    let mut second = [0u64; 512];
    build_sv39(&mut first, PHYS_KERNEL_BASE);
    build_sv39(&mut second, PHYS_KERNEL_BASE);
    assert_eq!(first, second);
    let once = first;
    build_sv39(&mut first, PHYS_KERNEL_BASE);
    assert_eq!(first, once);
}

const TABLE_PA: [u64; 4] = [0x8020_0000, 0x8020_1000, 0x8020_2000, 0x8020_3000];

#[test]
fn sv48_walk_reaches_the_target() {
    let mut tables = [[0u64; 512]; 4];
    let va = KERNEL_BASE + 0x5000;
    let pa = 0x8000_5000u64;
    build_sv48(&mut tables, TABLE_PA, va, pa);
    assert_eq!(walk_sv48(&tables, TABLE_PA, va), Some(pa));
    assert_eq!(walk_sv48(&tables, TABLE_PA, va + 0x123), Some(pa + 0x123));
    assert_eq!(walk_sv48(&tables, TABLE_PA, va + 0x1000), None);
}

#[test]
fn sv48_branches_carry_only_the_valid_bit() {
    let mut tables = [[0u64; 512]; 4];
    let va = 0x0000_1234_5678_9000u64;
    let pa = 0x9abc_d000u64;
    build_sv48(&mut tables, TABLE_PA, va, pa);
    let idx = [vpn(va, 3), vpn(va, 2), vpn(va, 1), vpn(va, 0)];
    assert_eq!(idx, [0x24, 0xd1, 0x0b3, 0x189]);
    for k in 0..3 {
        let e = tables[k][idx[k]];
        assert_eq!(pte_flags(e), PTE_V);
        assert_eq!(pte_addr(e), TABLE_PA[k + 1]);
    }
    assert_eq!(pte_flags(tables[3][idx[3]]), PTE_FULL);
    assert_eq!(pte_addr(tables[3][idx[3]]), pa);
    assert_eq!(walk_sv48(&tables, TABLE_PA, va), Some(pa));
    let written: usize = tables.iter().map(|t| t.iter().filter(|&&x| x != 0).count()).sum();
    assert_eq!(written, 4);
}

#[test]
fn sv48_build_twice_is_byte_identical() {
    let mut first = [[0u64; 512]; 4];
    let mut second = [[0u64; 512]; 4];
    build_sv48(&mut first, TABLE_PA, KERNEL_BASE, PHYS_KERNEL_BASE);
    build_sv48(&mut second, TABLE_PA, KERNEL_BASE, PHYS_KERNEL_BASE);
    assert_eq!(first, second);
    let once = first;
    build_sv48(&mut first, TABLE_PA, KERNEL_BASE, PHYS_KERNEL_BASE);
    assert_eq!(first, once);
}

#[test]
fn indices_stay_in_range() {
    for level in 0..5 {
        assert_eq!(vpn(u64::MAX, level), 511);
        assert_eq!(vpn(0, level), 0);
        assert!(vpn(0xdead_beef_cafe_f00d, level) < ENTRIES);
    }
    assert_eq!(vpn(0x0000_0000_0000_1000, 0), 1);
    assert_eq!(vpn(0x0000_0000_0020_0000, 1), 1);
    assert_eq!(vpn(0x0000_0080_0000_0000, 3), 1);
}

#[test]
fn entry_encodings() {
    assert_eq!(leaf_pte(0x8000_0000), 0x2000_00ef);
    assert_eq!(leaf_pte(0), 0xef);
    assert_eq!(branch_pte(0x8020_1000), 0x2008_0401);
    assert_eq!(branch_pte(0x1000), 0x401);
}

#[test]
fn relocation_adds_the_direct_map_offset() {
    let pa = 0x8000_1234u64;
    let va = relocate(pa, PHYS_VIRT_OFFSET);
    assert_eq!(va, 0xffff_ffc0_8000_1234);
    assert_eq!(va, pa + PHYS_VIRT_OFFSET);
    assert_eq!(vpn(va, 2), 0x102);
    assert_eq!(va % GIB, pa % GIB);
    let top = PHYS_KERNEL_BASE + GIB - 8;
    assert_eq!(relocate(top, PHYS_VIRT_OFFSET), 0xffff_ffc0_bfff_fff8);
}

#[test]
fn relocation_wraps_like_the_add_instruction() {
    assert_eq!(relocate(u64::MAX, 1), 0);
    assert_eq!(relocate(0x40_0000_0000, PHYS_VIRT_OFFSET), 0);
}

#[test]
fn context_relocation_moves_sp_and_ra() {
    let ctx = ReturnContext { sp: 0x8020_8000, ra: 0x8000_0420 };
    let r = relocate_context(ctx);
    assert_eq!(r, ReturnContext { sp: 0xffff_ffc0_8020_8000, ra: 0xffff_ffc0_8000_0420 });
}

#[test]
fn activation_writes_satp_then_invalidates() {
    let ops = activation_ops(Scheme::Sv39, 0x8020_0000);
    assert_eq!(
        ops,
        [
            ControlOp::SetSatp(SatpSetting { mode: Scheme::Sv39, asid: 0, root_ppn: 0x80200 }),
            ControlOp::InvalidateAll,
        ]
    );
    let ops = activation_ops(Scheme::Sv48, 0x8020_0000);
    assert_eq!(
        ops[0],
        ControlOp::SetSatp(SatpSetting { mode: Scheme::Sv48, asid: 0, root_ppn: 0x80200 })
    );
    assert_eq!(ops.len(), 2);
}

#[test]
fn satp_fields() {
    assert_eq!(Scheme::Sv39.mode_code(), 8);
    assert_eq!(Scheme::Sv48.mode_code(), 9);
    assert_eq!(root_frame(0x8020_0000), 0x80200);
    assert_eq!(root_frame(0xff_ffff_ffff_f000), 0xfff_ffff_ffff);
}

/// Translates through a root table of 1 GiB leaves.
fn translate_sv39(root: &[u64; 512], va: u64) -> Option<u64> {
    let e = root[((va >> 30) & 0x1ff) as usize];
    if e & 1 != 0 && e & 0xe != 0 {
        Some(pte_addr(e) + va % GIB)
    } else {
        None
    }
}

#[test]
fn relocated_addresses_translate_back_to_the_window() {
    let mut root = [0u64; 512];
    build_sv39(&mut root, PHYS_KERNEL_BASE);
    for pa in [0x8000_0000u64, 0x8000_1234, 0x9fff_f000, 0xbfff_ffff] {
        assert_eq!(translate_sv39(&root, pa), Some(pa));
        assert_eq!(translate_sv39(&root, relocate(pa, PHYS_VIRT_OFFSET)), Some(pa));
        assert_eq!(translate_sv39(&root, KERNEL_BASE + (pa - PHYS_KERNEL_BASE)), Some(pa));
    }
    assert_eq!(translate_sv39(&root, 0xc000_0000), None);
    assert_eq!(translate_sv39(&root, 0x7fff_ffff), None);
}
