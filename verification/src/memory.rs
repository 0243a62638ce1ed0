//! Where the guest's memory regions lie in its physical address space.

use vstd::prelude::*;

verus! {

/// The size of a page of guest memory.
pub const PAGE_SIZE: u64 = 0x1000;

/// The slot of the region that holds the guest's code and data.
pub const PRIMARY_SLOT: u32 = 0;

/// The slot of the region that holds the guest's stack.
pub const STACK_SLOT: u32 = 1;

/// A range of guest-physical addresses that is backed by host memory, and
/// the slot under which it is registered.
#[derive(Clone, Copy, Debug, PartialEq, Eq, Structural)]
pub struct GuestMemoryRegion {
    pub slot: u32,
    /// The first address of the region.
    pub guest_phys_addr: u64,
    /// The number of bytes in the region.
    pub memory_size: u64,
}

impl GuestMemoryRegion {
    /// The address that follows the last byte of the region.
    pub open spec fn end(self) -> int {
        self.guest_phys_addr + self.memory_size
    }

    /// Whether every address of the region is one that 64 bits can hold.
    pub open spec fn addressable(self) -> bool {
        self.end() <= u64::MAX
    }

    /// Whether the two regions share no address.
    pub open spec fn apart_from(self, other: GuestMemoryRegion) -> bool {
        self.end() <= other.guest_phys_addr || other.end() <= self.guest_phys_addr
    }

    /// The region for the guest's code and data: `mem_size` bytes from `base`
    /// on. `None` where the region would reach beyond the last address.
    pub fn primary(mem_size: usize, base: u64) -> (res: Option<GuestMemoryRegion>)
        ensures
            res is Some <==> base + mem_size <= u64::MAX,
            res matches Some(region) ==> region == (GuestMemoryRegion {
                slot: PRIMARY_SLOT,
                guest_phys_addr: base,
                memory_size: mem_size as u64,
            }),
    {
        let memory_size: u64 = mem_size as u64;
        if memory_size <= u64::MAX - base {
            Some(GuestMemoryRegion { slot: PRIMARY_SLOT, guest_phys_addr: base, memory_size })
        } else {
            None
        }
    }

    /// The region for the guest's stack: as large as this region, and one
    /// page beyond its end. `None` where the stack would reach beyond the last
    /// address.
    pub fn stack_beyond(&self) -> (res: Option<GuestMemoryRegion>)
        ensures
            res is Some <==> self.end() + PAGE_SIZE + self.memory_size <= u64::MAX,
            res matches Some(stack) ==> stack == (GuestMemoryRegion {
                slot: STACK_SLOT,
                guest_phys_addr: (self.end() + PAGE_SIZE) as u64,
                memory_size: self.memory_size,
            }),
    {
        if self.memory_size > u64::MAX - self.guest_phys_addr {
            return None;
        }
        let end: u64 = self.guest_phys_addr + self.memory_size;
        if end <= u64::MAX - PAGE_SIZE && self.memory_size <= u64::MAX - PAGE_SIZE - end {
            Some(
                GuestMemoryRegion {
                    slot: STACK_SLOT,
                    guest_phys_addr: end + PAGE_SIZE,
                    memory_size: self.memory_size,
                },
            )
        } else {
            None
        }
    }
}

/// Whether the regions can be registered together: each is addressable, no
/// two have the same slot, and no two share an address.
pub open spec fn well_laid_out(regions: Seq<GuestMemoryRegion>) -> bool {
    &&& forall|i: int| 0 <= i < regions.len() ==> (#[trigger] regions[i]).addressable()
    &&& forall|i: int, j: int|
        0 <= i < j < regions.len() ==> (#[trigger] regions[i]).slot != (#[trigger] regions[j]).slot
            && regions[i].apart_from(regions[j])
}

/// The regions of a guest that is loaded from a flat program at `base`: the
/// primary region alone.
pub open spec fn flat_regions(mem_size: usize, base: u64) -> Seq<GuestMemoryRegion> {
    seq![
        GuestMemoryRegion {
            slot: PRIMARY_SLOT,
            guest_phys_addr: base,
            memory_size: mem_size as u64,
        },
    ]
}

/// The regions of a guest that is loaded from a sectioned image: the primary
/// region at address zero, and a stack of the same size one page beyond it.
pub open spec fn image_regions(mem_size: usize) -> Seq<GuestMemoryRegion> {
    seq![
        GuestMemoryRegion { slot: PRIMARY_SLOT, guest_phys_addr: 0, memory_size: mem_size as u64 },
        GuestMemoryRegion {
            slot: STACK_SLOT,
            guest_phys_addr: (mem_size + PAGE_SIZE) as u64,
            memory_size: mem_size as u64,
        },
    ]
}

/// Lays out the memory of a guest that is loaded from a flat program.
/// `None` where the region does not fit into the address space.
pub fn layout_flat(mem_size: usize, base: u64) -> (res: Option<Vec<GuestMemoryRegion>>)
    ensures
        res is Some <==> base + mem_size <= u64::MAX,
        res matches Some(regions) ==> regions@ == flat_regions(mem_size, base) && well_laid_out(
            regions@,
        ),
{
    match GuestMemoryRegion::primary(mem_size, base) {
        Some(primary) => {
            let mut regions: Vec<GuestMemoryRegion> = Vec::new();
            regions.push(primary);
            Some(regions)
        },
        None => None,
    }
}

/// Lays out the memory of a guest that is loaded from a sectioned image.
/// `None` where the regions do not fit into the address space.
pub fn layout_image(mem_size: usize) -> (res: Option<Vec<GuestMemoryRegion>>)
    ensures
        res is Some <==> 2 * mem_size + PAGE_SIZE <= u64::MAX,
        res matches Some(regions) ==> regions@ == image_regions(mem_size) && well_laid_out(
            regions@,
        ),
{
    match GuestMemoryRegion::primary(mem_size, 0) {
        Some(primary) => match primary.stack_beyond() {
            Some(stack) => {
                let mut regions: Vec<GuestMemoryRegion> = Vec::new();
                regions.push(primary);
                regions.push(stack);
                Some(regions)
            },
            None => None,
        },
        None => None,
    }
}

} // verus!
