//! Boot-time page-table construction and translation activation for a
//! RISC-V kernel: the pure table-building logic, the choice of what to
//! install in `satp`, and the register relocation applied after the switch.
use vstd::prelude::*;

pub mod pte;
pub mod sv39;
pub mod sv48;
pub mod activate;
pub mod fixup;

pub use activate::{Scheme, SatpSetting, ControlOp, activation_ops, root_frame};
pub use fixup::{ReturnContext, relocate, relocate_context};
pub use pte::{PTE_FULL, PTE_V, ENTRIES, leaf_pte, branch_pte, vpn};
pub use sv39::{KERNEL_BASE, PHYS_VIRT_OFFSET, PHYS_KERNEL_BASE, GIB, build_sv39};
pub use sv48::build_sv48;

verus! {

} // verus!
