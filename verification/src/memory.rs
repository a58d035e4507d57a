//! The guest memory abstraction: guest-physical addresses with checked
//! arithmetic, and guest memory as an ordered set of disjoint DRAM regions.

use vstd::prelude::*;

verus! {

/// A guest-physical address: an address in the address space the guest
/// kernel perceives as its own RAM. It never aliases a host pointer.
#[derive(Clone, Copy, Debug, PartialEq, Eq, PartialOrd, Ord, Structural)]
pub struct GuestAddress(pub u64);

impl GuestAddress {
    /// The raw numeric value of the address.
    pub fn offset(&self) -> (r: u64)
        ensures
            r == self.0,
    {
        self.0
    }

    /// Checked address subtraction: `None` on underflow, never wraps.
    pub fn checked_sub(&self, other: u64) -> (r: Option<GuestAddress>)
        ensures
            other <= self.0 ==> r == Some(GuestAddress((self.0 - other) as u64)),
            other > self.0 ==> r is None,
    {
        if other <= self.0 {
            Some(GuestAddress(self.0 - other))
        } else {
            None
        }
    }

    /// Checked address addition: `None` on overflow, never wraps.
    pub fn checked_add(&self, other: u64) -> (r: Option<GuestAddress>)
        ensures
            self.0 + other <= u64::MAX ==> r == Some(GuestAddress((self.0 + other) as u64)),
            self.0 + other > u64::MAX ==> r is None,
    {
        if other <= u64::MAX - self.0 {
            Some(GuestAddress(self.0 + other))
        } else {
            None
        }
    }
}

/// One region of guest DRAM: its start address and its size in bytes.
pub type MemoryRegion = (GuestAddress, u64);

/// Whether some region of `rs` has size zero.
pub open spec fn has_zero_sized(rs: Seq<MemoryRegion>) -> bool {
    exists|i: int| 0 <= i < rs.len() && (#[trigger] rs[i]).1 == 0
}

/// Whether some region of `rs` runs past the top of the address space.
pub open spec fn has_end_past_address_space(rs: Seq<MemoryRegion>) -> bool {
    exists|i: int| 0 <= i < rs.len() && (#[trigger] rs[i]).0.0 + rs[i].1 > u64::MAX
}

/// Whether the regions of `rs` are in ascending address order and pairwise
/// disjoint: each region ends at or before the next one starts.
pub open spec fn well_ordered(rs: Seq<MemoryRegion>) -> bool {
    forall|i: int| 0 <= i < rs.len() - 1 ==> (#[trigger] rs[i]).0.0 + rs[i].1 <= rs[i + 1].0.0
}

/// A sequence of regions that can form a guest memory: at least one region,
/// none empty, none past the top of the address space, all in ascending
/// order and pairwise disjoint.
pub open spec fn wf_regions(rs: Seq<MemoryRegion>) -> bool {
    &&& rs.len() > 0
    &&& !has_zero_sized(rs)
    &&& !has_end_past_address_space(rs)
    &&& well_ordered(rs)
}

/// The address one past the highest mapped byte of `rs`.
pub open spec fn end_of(rs: Seq<MemoryRegion>) -> int {
    rs[rs.len() - 1].0.0 + rs[rs.len() - 1].1
}

/// Whether guest-physical address `a` falls inside one of the regions of `rs`.
pub open spec fn addr_in_regions(rs: Seq<MemoryRegion>, a: int) -> bool {
    exists|i: int| 0 <= i < rs.len() && (#[trigger] rs[i]).0.0 <= a < rs[i].0.0 + rs[i].1
}

/// Total bytes of guest DRAM over all regions of `rs`.
pub open spec fn total_size(rs: Seq<MemoryRegion>) -> int
    decreases rs.len(),
{
    if rs.len() == 0 {
        0
    } else {
        total_size(rs.drop_last()) + rs.last().1
    }
}

/// A single region's total size is that region's size.
pub proof fn lemma_total_size_singleton(rs: Seq<MemoryRegion>)
    requires
        rs.len() == 1,
    ensures
        total_size(rs) == rs[0].1,
{
    assert(rs.drop_last().len() == 0);
    assert(total_size(rs.drop_last()) == 0);
    assert(rs.last() == rs[0]);
}

/// Why a sequence of regions cannot form a guest memory.
#[derive(Clone, Copy, Debug, PartialEq, Eq, Structural)]
pub enum MemoryError {
    /// No region was given: a VM cannot run with no memory.
    NoMemRegions,
    /// A region had size zero.
    ZeroSizedRegion,
    /// A region runs past the top of the address space.
    RegionPastAddressSpace,
    /// The regions are not in ascending address order, or overlap.
    RegionOverlap,
}

/// Guest memory: an ordered set of disjoint DRAM regions, constructed once
/// per VM boot and immutable for the duration of layout computation.
pub struct GuestMemory {
    regions: Vec<MemoryRegion>,
}

impl View for GuestMemory {
    type V = Seq<MemoryRegion>;

    closed spec fn view(&self) -> Seq<MemoryRegion> {
        self.regions@
    }
}

impl GuestMemory {
    /// Every guest memory value is well formed: at least one region, none
    /// empty, all in ascending order and pairwise disjoint. Exec code holding
    /// a guest memory obtains this through `use_type_invariant`.
    #[verifier::type_invariant]
    pub open spec fn inv(&self) -> bool {
        wf_regions(self@)
    }

    /// Builds a guest memory over `ranges`. Fails if `ranges` is empty or
    /// holds a zero-sized, out-of-bounds, unordered or overlapping region.
    pub fn new(ranges: &Vec<MemoryRegion>) -> (r: Result<GuestMemory, MemoryError>)
        ensures
            r is Ok <==> wf_regions(ranges@),
            r matches Ok(m) ==> m@ == ranges@,
            ranges@.len() == 0 ==> r == Err::<GuestMemory, MemoryError>(MemoryError::NoMemRegions),
            ranges@.len() > 0 && has_zero_sized(ranges@) ==> r == Err::<GuestMemory, MemoryError>(
                MemoryError::ZeroSizedRegion,
            ),
            ranges@.len() > 0 && !has_zero_sized(ranges@) && has_end_past_address_space(ranges@)
                ==> r == Err::<GuestMemory, MemoryError>(MemoryError::RegionPastAddressSpace),
            ranges@.len() > 0 && !has_zero_sized(ranges@) && !has_end_past_address_space(ranges@)
                && !well_ordered(ranges@) ==> r == Err::<GuestMemory, MemoryError>(
                MemoryError::RegionOverlap,
            ),
    {
        let n = ranges.len();
        if n == 0 {
            return Err(MemoryError::NoMemRegions);
        }
        let mut i: usize = 0;
        while i < n
            invariant
                i <= n,
                n == ranges@.len(),
                forall|j: int| 0 <= j < i ==> (#[trigger] ranges@[j]).1 != 0,
            decreases n - i,
        {
            if ranges[i].1 == 0 {
                proof {
                    assert(has_zero_sized(ranges@));
                }
                return Err(MemoryError::ZeroSizedRegion);
            }
            i += 1;
        }
        proof {
            assert(!has_zero_sized(ranges@));
        }
        let mut i: usize = 0;
        while i < n
            invariant
                i <= n,
                n == ranges@.len(),
                !has_zero_sized(ranges@),
                forall|j: int| 0 <= j < i ==> (#[trigger] ranges@[j]).0.0 + ranges@[j].1
                    <= u64::MAX,
            decreases n - i,
        {
            if ranges[i].0.checked_add(ranges[i].1).is_none() {
                proof {
                    assert(has_end_past_address_space(ranges@));
                }
                return Err(MemoryError::RegionPastAddressSpace);
            }
            i += 1;
        }
        proof {
            assert(!has_end_past_address_space(ranges@));
        }
        let mut i: usize = 1;
        while i < n
            invariant
                1 <= i <= n,
                n == ranges@.len(),
                !has_zero_sized(ranges@),
                !has_end_past_address_space(ranges@),
                forall|j: int| 0 <= j < i - 1 ==> (#[trigger] ranges@[j]).0.0 + ranges@[j].1
                    <= ranges@[j + 1].0.0,
            decreases n - i,
        {
            proof {
                assert(ranges@[i - 1].0.0 + ranges@[i - 1].1 <= u64::MAX);
            }
            if ranges[i - 1].0.0 + ranges[i - 1].1 > ranges[i].0.0 {
                proof {
                    assert(!well_ordered(ranges@));
                }
                return Err(MemoryError::RegionOverlap);
            }
            i += 1;
        }
        proof {
            assert(well_ordered(ranges@));
        }
        let mut regions: Vec<MemoryRegion> = Vec::new();
        let mut i: usize = 0;
        while i < n
            invariant
                i <= n,
                n == ranges@.len(),
                regions@ == ranges@.subrange(0, i as int),
            decreases n - i,
        {
            regions.push(ranges[i]);
            proof {
                assert(regions@ =~= ranges@.subrange(0, i + 1));
            }
            i += 1;
        }
        proof {
            assert(regions@ =~= ranges@);
        }
        Ok(GuestMemory { regions })
    }

    /// The address immediately past the highest mapped byte.
    pub fn end_addr(&self) -> (r: GuestAddress)
        ensures
            r.0 == end_of(self@),
    {
        proof {
            use_type_invariant(self);
        }
        let n = self.regions.len();
        let last = self.regions[n - 1];
        GuestAddress(last.0.0 + last.1)
    }

    /// True iff `addr` falls inside one of the mapped regions.
    pub fn address_in_range(&self, addr: GuestAddress) -> (r: bool)
        ensures
            r == addr_in_regions(self@, addr.0 as int),
    {
        let n = self.regions.len();
        let mut i: usize = 0;
        while i < n
            invariant
                i <= n,
                n == self.regions@.len(),
                self@ == self.regions@,
                forall|j: int| 0 <= j < i ==> !((#[trigger] self.regions@[j]).0.0 <= addr.0
                    < self.regions@[j].0.0 + self.regions@[j].1),
            decreases n - i,
        {
            let region = self.regions[i];
            if region.0.0 <= addr.0 && addr.0 - region.0.0 < region.1 {
                return true;
            }
            i += 1;
        }
        false
    }
}

} // verus!
