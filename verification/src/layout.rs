//! Layout constants for the aarch64 guest-physical address space.
//!
//! Every other component depends on these bounds being correct: an
//! off-by-one here corrupts guest memory silently.

use vstd::prelude::*;

verus! {

/// Start of guest DRAM: RAM is mapped from 2 GiB upward, below it lies the
/// space the architecture keeps for MMIO and firmware.
pub const DRAM_MEM_START: u64 = 0x8000_0000;

/// The architecture's addressable DRAM ceiling: no RAM may be mapped at or
/// past this guest-physical address, however much memory was requested.
pub const DRAM_MEM_END: u64 = 0x00FF_8000_0000;

/// Maximum size of the flattened device tree blob.
pub const FDT_MAX_SIZE: u64 = 0x20_0000;

} // verus!
