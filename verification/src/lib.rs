//! Architecture-specific memory layout and boot configuration for a
//! virtual-machine monitor.
//!
//! Given a requested guest memory size, this crate decides which
//! guest-physical address ranges are valid DRAM, where architecture-reserved
//! structures (such as the flattened device tree) must be placed inside the
//! allocated guest memory, and validates the boot configuration before the
//! first virtual CPU runs.

pub mod layout;
pub mod memory;
pub mod aarch64;
