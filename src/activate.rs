//! Translation activation: what the processor's translation-control
//! register receives for a built boot set, and in which order the control
//! operations run.
use vstd::prelude::*;
use crate::pte::page_addr_ok;

verus! {

/// The page-based translation scheme the boot set is built for.
#[derive(Clone, Copy, Debug, PartialEq, Eq, Structural)]
pub enum Scheme {
    /// Three-level, 39-bit virtual addresses; the boot set is one root table
    /// of 1 GiB leaves.
    Sv39,
    /// Four-level, 48-bit virtual addresses; the boot set is a root and
    /// three subordinate tables.
    Sv48,
}

/// Largest physical page number (exclusive) that the `satp` PPN field holds.
pub const SATP_PPN_LIMIT: u64 = 0x1000_0000_0000;

impl Scheme {
    /// The value of the `satp` MODE field that selects the scheme.
    pub open spec fn spec_mode_code(self) -> u64 {
        match self {
            Scheme::Sv39 => 8,
            Scheme::Sv48 => 9,
        }
    }

    /// The value of the `satp` MODE field that selects the scheme.
    pub fn mode_code(&self) -> (r: u64)
        ensures
            r == self.spec_mode_code(),
    {
        match self {
            Scheme::Sv39 => 8,
            Scheme::Sv48 => 9,
        }
    }
}

/// The fields written to `satp` to turn translation on.
#[derive(Clone, Copy, Debug, PartialEq, Eq, Structural)]
pub struct SatpSetting {
    pub mode: Scheme,
    pub asid: u64,
    pub root_ppn: u64,
}

/// One operation on the translation-control hardware.
#[derive(Clone, Copy, Debug, PartialEq, Eq, Structural)]
pub enum ControlOp {
    /// Write `satp` with the given mode, address space and root frame.
    SetSatp(SatpSetting),
    /// Invalidate every cached translation for every address space.
    InvalidateAll,
}

/// The `satp` setting that selects `scheme` with the root table at
/// `root_pa`, in address space 0.
pub open spec fn spec_satp_setting(scheme: Scheme, root_pa: u64) -> SatpSetting {
    SatpSetting { mode: scheme, asid: 0, root_ppn: root_pa >> 12 }
}

/// The frame number of a page-aligned root table; it fits the `satp` PPN
/// field and gives back the table's address.
pub fn root_frame(root_pa: u64) -> (r: u64)
    requires
        page_addr_ok(root_pa),
    ensures
        r == root_pa >> 12,
        r < SATP_PPN_LIMIT,
        r * 4096 == root_pa,
{
    assert(root_pa % 4096 == 0 && root_pa < 0x100_0000_0000_0000 ==> root_pa >> 12
        < 0x1000_0000_0000 && (root_pa >> 12) * 4096 == root_pa) by (bit_vector);
    root_pa >> 12
}

/// The operations that switch the processor onto the boot set rooted at
/// `root_pa`: first the `satp` write, then the full invalidation, so no
/// translation cached before the switch survives it.
pub fn activation_ops(scheme: Scheme, root_pa: u64) -> (r: [ControlOp; 2])
    requires
        page_addr_ok(root_pa),
    ensures
        r@ == seq![ControlOp::SetSatp(spec_satp_setting(scheme, root_pa)), ControlOp::InvalidateAll],
        spec_satp_setting(scheme, root_pa).root_ppn < SATP_PPN_LIMIT,
{
    let ppn = root_frame(root_pa);
    let setting = SatpSetting { mode: scheme, asid: 0, root_ppn: ppn };
    let ops = [ControlOp::SetSatp(setting), ControlOp::InvalidateAll];
    assert(ops@ =~= seq![ControlOp::SetSatp(setting), ControlOp::InvalidateAll]);
    ops
}

} // verus!
