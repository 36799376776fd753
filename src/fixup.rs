//! Address-space fixup: registers that still hold physical addresses when
//! translation turns on are moved to their direct-map virtual addresses.
use vstd::prelude::*;
use crate::pte::ENTRIES;
use crate::sv39::{
    PHYS_VIRT_OFFSET, GIB, sv39_window_ok, sv39_boot_table, sv39_translate,
    lemma_sv39_direct_map,
};

verus! {

/// The registers that are live across the switch: the stack pointer and
/// the return address.
#[derive(Clone, Copy, Debug, PartialEq, Eq, Structural)]
pub struct ReturnContext {
    pub sp: u64,
    pub ra: u64,
}

/// A register value moved by `offset`, wrapping as the processor's `add`
/// does.
pub open spec fn spec_relocate(value: u64, offset: u64) -> u64 {
    ((value + offset) % 0x1_0000_0000_0000_0000) as u64
}

/// Moves a register value by `offset`.
pub fn relocate(value: u64, offset: u64) -> (r: u64)
    ensures
        r == spec_relocate(value, offset),
{
    value.wrapping_add(offset)
}

/// Moves the stack pointer and the return address into the direct map.
pub fn relocate_context(ctx: ReturnContext) -> (r: ReturnContext)
    ensures
        r.sp == spec_relocate(ctx.sp, PHYS_VIRT_OFFSET),
        r.ra == spec_relocate(ctx.ra, PHYS_VIRT_OFFSET),
{
    ReturnContext { sp: relocate(ctx.sp, PHYS_VIRT_OFFSET), ra: relocate(ctx.ra, PHYS_VIRT_OFFSET) }
}

/// For every physical address of the identity-mapped window, what the
/// fixup adds is exactly `PHYS_VIRT_OFFSET`, without wrapping, and the
/// address it yields translates through the Sv39 boot table back to the
/// same physical address, as the identity mapping does.
pub proof fn lemma_relocate_into_direct_map(root: Seq<u64>, phys_base: u64, pa: u64)
    requires
        root.len() == ENTRIES,
        sv39_window_ok(phys_base),
        phys_base <= pa < phys_base + GIB,
    ensures
        spec_relocate(pa, PHYS_VIRT_OFFSET) == pa + PHYS_VIRT_OFFSET,
        sv39_translate(sv39_boot_table(root, phys_base), spec_relocate(pa, PHYS_VIRT_OFFSET))
            == Some(pa as int),
        sv39_translate(sv39_boot_table(root, phys_base), pa) == Some(pa as int),
{
    lemma_sv39_direct_map(root, phys_base, pa);
}

} // verus!
