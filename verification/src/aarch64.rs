//! Memory layout and boot configuration for the aarch64 architecture
//! profile: the DRAM region calculator, the reserved-structure locator and
//! the boot configurator.

use vstd::prelude::*;

use crate::layout::{DRAM_MEM_END, DRAM_MEM_START, FDT_MAX_SIZE};
use crate::memory::{
    addr_in_regions, end_of, lemma_total_size_singleton, total_size, wf_regions, GuestAddress,
    GuestMemory, MemoryRegion,
};

verus! {

/// The requested guest memory size clamped to the architecture's addressable
/// DRAM ceiling: a VM may ask for more memory than fits between
/// `DRAM_MEM_START` and `DRAM_MEM_END`, and is then silently truncated to
/// the architecture maximum rather than rejected.
pub open spec fn clamped_dram_size(size: u64) -> u64 {
    if size <= DRAM_MEM_END - DRAM_MEM_START {
        size
    } else {
        (DRAM_MEM_END - DRAM_MEM_START) as u64
    }
}

/// The regions that `arch_memory_regions` returns: aarch64 reserves no MMIO
/// gap below its DRAM ceiling, so guest RAM is a single region starting at
/// `DRAM_MEM_START` with the clamped size.
pub open spec fn spec_arch_memory_regions(size: u64) -> Seq<MemoryRegion> {
    seq![(GuestAddress(DRAM_MEM_START), clamped_dram_size(size))]
}

/// Returns the valid DRAM regions for aarch64: one region starting at
/// `DRAM_MEM_START`, sized as requested but clamped to what fits below the
/// architecture's DRAM ceiling.
pub fn arch_memory_regions(size: u64) -> (r: Vec<MemoryRegion>)
    ensures
        r@ == spec_arch_memory_regions(size),
        r@.len() == 1,
        r@[0].0.0 == DRAM_MEM_START,
        size <= DRAM_MEM_END - DRAM_MEM_START ==> r@[0].1 == size,
        size > DRAM_MEM_END - DRAM_MEM_START ==> r@[0].1 == DRAM_MEM_END - DRAM_MEM_START,
        total_size(r@) == clamped_dram_size(size),
{
    let dram_size = if size <= DRAM_MEM_END - DRAM_MEM_START {
        size
    } else {
        DRAM_MEM_END - DRAM_MEM_START
    };
    let mut regions: Vec<MemoryRegion> = Vec::new();
    regions.push((GuestAddress(DRAM_MEM_START), dram_size));
    proof {
        assert(regions@ =~= spec_arch_memory_regions(size));
        lemma_total_size_singleton(regions@);
    }
    regions
}

/// Computing the memory regions is a pure function of the requested size:
/// two results for the same request are the same regions.
pub proof fn lemma_arch_memory_regions_idempotent(
    size: u64,
    r1: Seq<MemoryRegion>,
    r2: Seq<MemoryRegion>,
)
    requires
        r1 == spec_arch_memory_regions(size),
        r2 == spec_arch_memory_regions(size),
    ensures
        r1 == r2,
{
}

/// Where `locate_reserved` places a structure of at most `max_size` bytes:
/// immediately below the end of guest memory when that start address is
/// mapped, and at `DRAM_MEM_START` otherwise.
pub open spec fn spec_locate_reserved(rs: Seq<MemoryRegion>, max_size: u64) -> int {
    if max_size <= end_of(rs) && addr_in_regions(rs, end_of(rs) - max_size) {
        end_of(rs) - max_size
    } else {
        DRAM_MEM_START as int
    }
}

/// Places a reserved structure of at most `max_size` bytes at the top of
/// guest memory, provided the resulting start address lies in mapped memory;
/// if memory is too small for that (including subtraction underflow), falls
/// back to `DRAM_MEM_START` as a best-effort placement rather than failing.
pub fn locate_reserved(memory: &GuestMemory, max_size: u64) -> (r: GuestAddress)
    ensures
        r.0 == spec_locate_reserved(memory@, max_size),
{
    if let Some(offset) = memory.end_addr().checked_sub(max_size) {
        if memory.address_in_range(offset) {
            return offset;
        }
    }
    GuestAddress(DRAM_MEM_START)
}

/// Whenever guest memory is a single region of at least `max_size` bytes,
/// with `max_size >= 1`, the reserved-structure locator returns a mapped
/// address. (With `max_size == 0` the top-of-memory placement is the
/// unmapped end address, and over several regions it can land in a gap; the
/// fallback `DRAM_MEM_START` is then mapped only if some region covers it,
/// as the next lemma states.)
pub proof fn lemma_locate_reserved_in_range(rs: Seq<MemoryRegion>, max_size: u64)
    requires
        wf_regions(rs),
        rs.len() == 1,
        1 <= max_size,
        total_size(rs) >= max_size,
    ensures
        addr_in_regions(rs, spec_locate_reserved(rs, max_size)),
{
    lemma_total_size_singleton(rs);
    let a = end_of(rs) - max_size;
    assert(rs[0].0.0 <= a < rs[0].0.0 + rs[0].1);
    assert(addr_in_regions(rs, a));
}

/// For guest memory whose lowest region starts at `DRAM_MEM_START` — as all
/// memory built over `arch_memory_regions` does — the reserved-structure
/// locator returns a mapped address for every `max_size`: either the
/// top-of-memory placement is mapped, or the fallback `DRAM_MEM_START` is.
pub proof fn lemma_locate_reserved_in_range_from_dram_start(
    rs: Seq<MemoryRegion>,
    max_size: u64,
)
    requires
        wf_regions(rs),
        rs[0].0.0 == DRAM_MEM_START,
    ensures
        addr_in_regions(rs, spec_locate_reserved(rs, max_size)),
{
    if !(max_size <= end_of(rs) && addr_in_regions(rs, end_of(rs) - max_size)) {
        assert(rs[0].1 != 0);
        assert(rs[0].0.0 <= DRAM_MEM_START < rs[0].0.0 + rs[0].1);
        assert(addr_in_regions(rs, DRAM_MEM_START as int));
    }
}

/// The guest address where the flattened device tree blob is loaded: the
/// top-of-memory placement for `FDT_MAX_SIZE` bytes, or `DRAM_MEM_START`
/// when memory is too small for that placement, so that loading the blob can
/// still be attempted.
pub fn get_fdt_addr(mem: &GuestMemory) -> (r: u64)
    ensures
        r == spec_locate_reserved(mem@, FDT_MAX_SIZE),
{
    locate_reserved(mem, FDT_MAX_SIZE).offset()
}

/// A typed failure of boot configuration; any of these is fatal and aborts
/// the VM boot.
#[derive(Clone, Copy, Debug, PartialEq, Eq, Structural)]
pub enum BootConfigError {
    /// A computed or requested address falls outside mapped guest memory.
    MemoryOverflow,
    /// A generated reserved structure exceeds its architecture's maximum
    /// size.
    StructureTooLarge,
    /// The requested vCPU count exceeds the architecture's maximum.
    UnsupportedCpuCount,
}

/// Validates the boot configuration for this architecture profile. A
/// command-line address outside mapped guest memory is a fatal
/// `MemoryOverflow`, reported before anything is written. Writing the boot
/// structures themselves (the flattened device tree) is not part of this
/// profile yet, so a valid configuration succeeds without touching memory.
pub fn configure_system(
    guest_mem: &GuestMemory,
    cmdline_addr: GuestAddress,
    _cmdline_size: u64,
    _num_cpus: u8,
) -> (r: Result<(), BootConfigError>)
    ensures
        addr_in_regions(guest_mem@, cmdline_addr.0 as int) ==> r == Ok::<(), BootConfigError>(()),
        !addr_in_regions(guest_mem@, cmdline_addr.0 as int) ==> r == Err::<(), BootConfigError>(
            BootConfigError::MemoryOverflow,
        ),
{
    if guest_mem.address_in_range(cmdline_addr) {
        Ok(())
    } else {
        Err(BootConfigError::MemoryOverflow)
    }
}

/// The architecture's fixed low-memory reservation address, used for device
/// pass-through or firmware regions. This profile reserves no low-memory
/// range yet, so the reservation sits at address zero.
pub fn get_reserved_mem_addr() -> (r: u64)
    ensures
        r == 0,
{
    0
}

} // verus!
