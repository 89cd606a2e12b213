//! Resolving virtual addresses to physical ones from page map entries.
use vstd::prelude::*;

verus! {

/// Size of a page map entry in bytes.
pub const PFN_MASK_SIZE: u64 = 8;

/// The page frame number occupies bits 0-54 of a page map entry.
pub const PFN_MASK: u64 = 0x007f_ffff_ffff_ffff;

/// Bit of a page map entry telling whether the page is present in memory.
pub const PAGE_PRESENT_BIT: u64 = 63;

/// The physical address a page map entry gives for `virt_addr`, if the page is present.
pub open spec fn spec_decode_entry(entry: u64, virt_addr: u64) -> Option<u64> {
    if (entry >> 63u64) & 1 == 0 {
        None
    } else {
        Some((((entry & PFN_MASK) << 12u64) + (virt_addr & 0xfffu64)) as u64)
    }
}

/// The byte offset of the page map entry of `virt_addr`.
pub fn pagemap_offset(virt_addr: u64) -> (r: u64)
    ensures
        r == 8 * (virt_addr >> 12u64),
{
    proof {
        assert((virt_addr >> 12u64) <= 0x000f_ffff_ffff_ffff) by (bit_vector);
    }
    PFN_MASK_SIZE * (virt_addr >> 12u64)
}

/// Decodes a page map entry into the physical address of `virt_addr`; `None` when the page
/// is not present.
pub fn decode_pagemap_entry(entry: u64, virt_addr: u64) -> (r: Option<u64>)
    ensures
        r == spec_decode_entry(entry, virt_addr),
        r matches Some(pa) ==> pa % 4096 == virt_addr % 4096,
{
    if (entry >> PAGE_PRESENT_BIT) & 1 == 0 {
        return None;
    }
    let phy_pfn = entry & PFN_MASK;
    proof {
        assert((phy_pfn << 12u64) <= 0xffff_ffff_ffff_f000u64) by (bit_vector);
        assert((virt_addr & 0xfffu64) <= 0xfffu64) by (bit_vector);
        assert((virt_addr & 0xfffu64) == virt_addr % 4096) by (bit_vector);
        assert(((phy_pfn << 12u64) + (virt_addr & 0xfffu64)) % 4096 == (virt_addr & 0xfffu64))
            by (bit_vector);
    }
    Some((phy_pfn << 12u64) + (virt_addr & 0xfff))
}

/// Resolves each address of `virt_addrs` with the page map entry read for it.
pub fn virt_to_phy(virt_addrs: &Vec<u64>, entries: &Vec<u64>) -> (r: Vec<Option<u64>>)
    requires
        virt_addrs.len() == entries.len(),
    ensures
        r.len() == virt_addrs.len(),
        forall|i: int|
            0 <= i < r.len() ==> #[trigger] r[i] == spec_decode_entry(entries[i], virt_addrs[i]),
{
    let mut phy_addrs: Vec<Option<u64>> = Vec::new();
    let mut i: usize = 0;
    while i < virt_addrs.len()
        invariant
            virt_addrs.len() == entries.len(),
            i <= virt_addrs.len(),
            phy_addrs.len() == i,
            forall|j: int|
                0 <= j < i ==> #[trigger] phy_addrs[j] == spec_decode_entry(
                    entries[j],
                    virt_addrs[j],
                ),
        decreases virt_addrs.len() - i,
    {
        phy_addrs.push(decode_pagemap_entry(entries[i], virt_addrs[i]));
        i = i + 1;
    }
    phy_addrs
}

/// Resolves the pages starting at `start_addr` with the page map entries read for them.
///
/// Every present page gets the in-page offset of `start_addr`.
pub fn virt_to_phy_range(start_addr: u64, entries: &Vec<u64>) -> (r: Vec<Option<u64>>)
    ensures
        r.len() == entries.len(),
        forall|i: int|
            0 <= i < r.len() ==> #[trigger] r[i] == spec_decode_entry(entries[i], start_addr),
{
    let mut phy_addrs: Vec<Option<u64>> = Vec::new();
    let mut i: usize = 0;
    while i < entries.len()
        invariant
            i <= entries.len(),
            phy_addrs.len() == i,
            forall|j: int|
                0 <= j < i ==> #[trigger] phy_addrs[j] == spec_decode_entry(entries[j], start_addr),
        decreases entries.len() - i,
    {
        phy_addrs.push(decode_pagemap_entry(entries[i], start_addr));
        i = i + 1;
    }
    phy_addrs
}

/// Resolves addresses of the emulated device: physical addresses count from the start of
/// the shared heap.
#[derive(Debug, Clone, Copy)]
pub struct PhysAddrResolverEmulated {
    /// Virtual address at which physical address 0 is mapped
    pub heap_start_addr: u64,
}

impl PhysAddrResolverEmulated {
    /// Creates a resolver for a heap mapped at `heap_start_addr`.
    pub fn new(heap_start_addr: u64) -> (r: Self)
        ensures
            r.heap_start_addr == heap_start_addr,
    {
        Self { heap_start_addr }
    }

    /// The physical address of `virt_addr`; `None` below the heap.
    pub fn virt_to_phys(&self, virt_addr: u64) -> (r: Option<u64>)
        ensures
            r == (if virt_addr >= self.heap_start_addr {
                Some((virt_addr - self.heap_start_addr) as u64)
            } else {
                None
            }),
    {
        virt_addr.checked_sub(self.heap_start_addr)
    }

    /// The physical addresses of `num_pages` pages starting at `start_addr`.
    pub fn virt_to_phys_range(&self, start_addr: u64, num_pages: usize) -> (r: Vec<Option<u64>>)
        ensures
            r.len() == num_pages,
            forall|i: int|
                0 <= i < num_pages ==> {
                    let va = if start_addr + ((i as u64) << 12u64) > u64::MAX {
                        u64::MAX
                    } else {
                        (start_addr + ((i as u64) << 12u64)) as u64
                    };
                    #[trigger] r[i] == (if va >= self.heap_start_addr {
                        Some((va - self.heap_start_addr) as u64)
                    } else {
                        None
                    })
                },
    {
        let mut out: Vec<Option<u64>> = Vec::new();
        let mut x: usize = 0;
        while x < num_pages
            invariant
                x <= num_pages,
                out.len() == x,
                forall|i: int|
                    0 <= i < x ==> {
                        let va = if start_addr + ((i as u64) << 12u64) > u64::MAX {
                            u64::MAX
                        } else {
                            (start_addr + ((i as u64) << 12u64)) as u64
                        };
                        #[trigger] out[i] == (if va >= self.heap_start_addr {
                            Some((va - self.heap_start_addr) as u64)
                        } else {
                            None
                        })
                    },
            decreases num_pages - x,
        {
            let va = start_addr.saturating_add((x as u64) << 12u64);
            out.push(self.virt_to_phys(va));
            x = x + 1;
        }
        out
    }
}

} // verus!
