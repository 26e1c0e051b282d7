//! Physical and virtual addresses, and the memory zones of physical frames.

use vstd::prelude::*;

verus! {

/// A physical address.
#[derive(Clone, Copy, Debug)]
pub struct Paddr(usize);

/// A virtual address.
#[derive(Clone, Copy, Debug)]
pub struct Vaddr(usize);

impl Paddr {
    /// The address as a number.
    pub closed spec fn raw(self) -> usize {
        self.0
    }

    /// The address `r`.
    pub fn from_raw(r: usize) -> (a: Paddr)
        ensures
            a.raw() == r,
    {
        Paddr(r)
    }

    /// The address as a number.
    pub fn to_raw(self) -> (r: usize)
        ensures
            r == self.raw(),
    {
        self.0
    }
}

impl Vaddr {
    /// The address as a number.
    pub closed spec fn raw(self) -> usize {
        self.0
    }

    /// The address `r`.
    pub fn from_raw(r: usize) -> (a: Vaddr)
        ensures
            a.raw() == r,
    {
        Vaddr(r)
    }

    /// The address as a number.
    pub fn to_raw(self) -> (r: usize)
        ensures
            r == self.raw(),
    {
        self.0
    }
}

/// The size of a page frame in bytes.
pub const PAGE_SIZE: usize = 4096;

/// The end of the DMA zone: 16 MiB.
pub const DMA_END: usize = 16777216;

/// The end of the 32-bit DMA zone: 4 GiB (beyond a 32-bit `usize`).
pub const DMA32_END: u64 = 4294967296;

/// A zone of physical memory.
#[derive(Debug, Clone, Copy, PartialEq, Eq, Structural)]
pub enum Zone {
    /// Below 16 MiB.
    Dma,
    /// Below 4 GiB.
    Dma32,
    /// Everything above.
    Normal,
}

/// The zone of the physical address `paddr`.
pub open spec fn zone_of(paddr: int) -> Zone {
    if paddr < DMA_END {
        Zone::Dma
    } else if paddr < DMA32_END {
        Zone::Dma32
    } else {
        Zone::Normal
    }
}

/// The index of `z` among the zones, in address order.
pub open spec fn zone_index(z: Zone) -> usize {
    match z {
        Zone::Dma => 0,
        Zone::Dma32 => 1,
        Zone::Normal => 2,
    }
}

impl Zone {
    /// The zone of the page frame `pfn`, by the address it starts at. The
    /// address must fit in a `usize`.
    pub fn from_pfn(pfn: usize) -> (z: Zone)
        requires
            pfn * PAGE_SIZE <= usize::MAX,
        ensures
            z == zone_of(pfn * PAGE_SIZE),
    {
        let paddr = pfn * PAGE_SIZE;
        if paddr < DMA_END {
            Zone::Dma
        } else if (paddr as u64) < DMA32_END {
            Zone::Dma32
        } else {
            Zone::Normal
        }
    }

    /// The index of the zone, in address order.
    pub fn index(self) -> (i: usize)
        ensures
            i == zone_index(self),
    {
        match self {
            Zone::Dma => 0,
            Zone::Dma32 => 1,
            Zone::Normal => 2,
        }
    }
}

/// Zones follow addresses: a frame at a higher address is never in a zone
/// of lower index.
pub proof fn lemma_zone_monotone(a: int, b: int)
    requires
        a <= b,
    ensures
        zone_index(zone_of(a)) <= zone_index(zone_of(b)),
{
}

/// Each zone's index names it.
pub proof fn lemma_zone_index_injective(x: Zone, y: Zone)
    requires
        zone_index(x) == zone_index(y),
    ensures
        x == y,
{
}

} // verus!
