use arch::aarch64::{
    arch_memory_regions, configure_system, get_fdt_addr, get_reserved_mem_addr, locate_reserved,
    BootConfigError,
};
use arch::layout::{DRAM_MEM_END, DRAM_MEM_START, FDT_MAX_SIZE};
use arch::memory::{GuestAddress, GuestMemory, MemoryError};

#[test]
fn test_regions_lt_1024gb() {
    let regions = arch_memory_regions(1u64 << 29);
    assert_eq!(1, regions.len());
    assert_eq!(GuestAddress(DRAM_MEM_START), regions[0].0);
    assert_eq!(1u64 << 29, regions[0].1);
}

#[test]
fn test_regions_gt_1024gb() {
    let regions = arch_memory_regions(1u64 << 41);
    assert_eq!(1, regions.len());
    assert_eq!(GuestAddress(DRAM_MEM_START), regions[0].0);
    assert_eq!(DRAM_MEM_END - DRAM_MEM_START, regions[0].1);
}

#[test]
fn test_get_fdt_addr() {
    let regions = arch_memory_regions(FDT_MAX_SIZE - 0x1000);
    let mem = GuestMemory::new(&regions).expect("Cannot initialize memory");
    assert_eq!(get_fdt_addr(&mem), DRAM_MEM_START);

    let regions = arch_memory_regions(FDT_MAX_SIZE);
    let mem = GuestMemory::new(&regions).expect("Cannot initialize memory");
    assert_eq!(get_fdt_addr(&mem), DRAM_MEM_START);

    let regions = arch_memory_regions(FDT_MAX_SIZE + 0x1000);
    let mem = GuestMemory::new(&regions).expect("Cannot initialize memory");
    assert_eq!(get_fdt_addr(&mem), 0x1000 + DRAM_MEM_START);
}

#[test]
fn test_regions_idempotent() {
    let first = arch_memory_regions(1u64 << 29);
    let second = arch_memory_regions(1u64 << 29);
    assert_eq!(first, second);
    let first = arch_memory_regions(1u64 << 41);
    let second = arch_memory_regions(1u64 << 41);
    assert_eq!(first, second);
}

#[test]
fn test_regions_zero_size_request() {
    let regions = arch_memory_regions(0);
    assert_eq!(1, regions.len());
    assert_eq!(0, regions[0].1);
    assert!(matches!(
        GuestMemory::new(&regions),
        Err(MemoryError::ZeroSizedRegion)
    ));
}

#[test]
fn test_locate_reserved_in_mapped_memory() {
    let regions = arch_memory_regions(1u64 << 29);
    let mem = GuestMemory::new(&regions).expect("Cannot initialize memory");
    let max_size = 0x10_0000u64;
    let addr = locate_reserved(&mem, max_size);
    assert!(mem.address_in_range(addr));
    assert_eq!(addr, GuestAddress(DRAM_MEM_START + (1u64 << 29) - max_size));
}

#[test]
fn test_locate_reserved_fallback() {
    let regions = vec![(GuestAddress(0x9000_0000), 0x1000u64)];
    let mem = GuestMemory::new(&regions).expect("Cannot initialize memory");
    let addr = locate_reserved(&mem, 0x2000);
    assert_eq!(addr, GuestAddress(DRAM_MEM_START));
    assert!(!mem.address_in_range(addr));
}

#[test]
fn test_configure_system_cmdline_out_of_range() {
    let regions = arch_memory_regions(1u64 << 29);
    let mem = GuestMemory::new(&regions).expect("Cannot initialize memory");
    assert_eq!(
        configure_system(&mem, GuestAddress(0x1000), 256, 1),
        Err(BootConfigError::MemoryOverflow)
    );
    let past_end = GuestAddress(DRAM_MEM_START + (1u64 << 29));
    assert_eq!(
        configure_system(&mem, past_end, 256, 1),
        Err(BootConfigError::MemoryOverflow)
    );
}

#[test]
fn test_configure_system_cmdline_in_range() {
    let regions = arch_memory_regions(1u64 << 29);
    let mem = GuestMemory::new(&regions).expect("Cannot initialize memory");
    assert_eq!(configure_system(&mem, GuestAddress(DRAM_MEM_START), 256, 1), Ok(()));
}

#[test]
fn test_get_reserved_mem_addr() {
    assert_eq!(get_reserved_mem_addr(), 0);
}

#[test]
fn test_guest_memory_new_errors() {
    let empty: Vec<(GuestAddress, u64)> = Vec::new();
    assert!(matches!(GuestMemory::new(&empty), Err(MemoryError::NoMemRegions)));

    let zero = vec![(GuestAddress(0x1000), 0u64)];
    assert!(matches!(GuestMemory::new(&zero), Err(MemoryError::ZeroSizedRegion)));

    let past_end = vec![(GuestAddress(u64::MAX - 10), 100u64)];
    assert!(matches!(
        GuestMemory::new(&past_end),
        Err(MemoryError::RegionPastAddressSpace)
    ));

    let overlapping = vec![
        (GuestAddress(0x1000), 0x2000u64),
        (GuestAddress(0x2000), 0x1000u64),
    ];
    assert!(matches!(
        GuestMemory::new(&overlapping),
        Err(MemoryError::RegionOverlap)
    ));

    let unordered = vec![
        (GuestAddress(0x5000), 0x1000u64),
        (GuestAddress(0x1000), 0x1000u64),
    ];
    assert!(matches!(GuestMemory::new(&unordered), Err(MemoryError::RegionOverlap)));
}

#[test]
fn test_guest_memory_two_regions() {
    let regions = vec![
        (GuestAddress(0x1000), 0x1000u64),
        (GuestAddress(0x4000), 0x1000u64),
    ];
    let mem = GuestMemory::new(&regions).expect("Cannot initialize memory");
    assert_eq!(mem.end_addr(), GuestAddress(0x5000));
    assert!(mem.address_in_range(GuestAddress(0x1000)));
    assert!(mem.address_in_range(GuestAddress(0x1FFF)));
    assert!(!mem.address_in_range(GuestAddress(0x2000)));
    assert!(!mem.address_in_range(GuestAddress(0xFFF)));
    assert!(mem.address_in_range(GuestAddress(0x4000)));
    assert!(!mem.address_in_range(GuestAddress(0x5000)));
}

#[test]
fn test_guest_address_checked_arithmetic() {
    let a = GuestAddress(0x2000);
    assert_eq!(a.offset(), 0x2000);
    assert_eq!(a.checked_sub(0x1000), Some(GuestAddress(0x1000)));
    assert_eq!(a.checked_sub(0x2000), Some(GuestAddress(0)));
    assert_eq!(a.checked_sub(0x2001), None);
    assert_eq!(a.checked_add(0x1000), Some(GuestAddress(0x3000)));
    assert_eq!(GuestAddress(u64::MAX).checked_add(1), None);
    assert_eq!(GuestAddress(u64::MAX - 1).checked_add(1), Some(GuestAddress(u64::MAX)));
}
