//! Virtual-to-physical address resolution: the pure decoding of kernel
//! pagemap entries, and the emulated resolver used without hardware.

use vstd::prelude::*;

verus! {

/// Size of a PFN (Page Frame Number) entry in bytes.
pub const PFN_MASK_SIZE: usize = 8;

/// PFN are bits 0-54 of a pagemap entry.
pub const PFN_MASK: u64 = 0x7F_FFFF_FFFF_FFFF;

/// Bit of a pagemap entry indicating that the page is resident.
pub const PAGE_PRESENT_BIT: u8 = 63;

/// Error of address resolution.
#[derive(Clone, Copy, Debug, PartialEq, Eq, Structural)]
pub struct ResolveError;

/// The physical address a pagemap entry maps `virt_addr` to: `None` when
/// the present bit is clear or the address would not fit in 64 bits;
/// otherwise the frame base plus the in-page offset.
pub open spec fn pagemap_phys_spec(entry: u64, page_size: u64, virt_addr: u64) -> Option<u64> {
    if (entry >> PAGE_PRESENT_BIT) & 1 == 0 {
        None
    } else {
        let phys = (entry & PFN_MASK) * page_size + virt_addr % page_size;
        if phys <= u64::MAX {
            Some(phys as u64)
        } else {
            None
        }
    }
}

/// Decodes one kernel pagemap entry into the physical address of
/// `virt_addr`.
pub fn decode_pagemap_entry(entry: u64, page_size: u64, virt_addr: u64) -> (r: Option<u64>)
    requires
        page_size > 0,
    ensures
        r == pagemap_phys_spec(entry, page_size, virt_addr),
{
    if (entry >> (PAGE_PRESENT_BIT as u64)) & 1 == 0 {
        return None;
    }
    let pfn = entry & PFN_MASK;
    let off = virt_addr % page_size;
    match pfn.checked_mul(page_size) {
        None => None,
        Some(base) => base.checked_add(off),
    }
}

/// Decodes one pagemap entry per page of a contiguous range starting at
/// `start_addr`; every page shares the range start's in-page offset.
pub fn decode_pagemap_entries(entries: &Vec<u64>, page_size: u64, start_addr: u64) -> (r: Vec<
    Option<u64>,
>)
    requires
        page_size > 0,
    ensures
        r@.len() == entries@.len(),
        forall|i: int|
            0 <= i < r@.len() ==> r@[i] == pagemap_phys_spec(entries@[i], page_size, start_addr),
{
    let mut out: Vec<Option<u64>> = Vec::new();
    let mut i: usize = 0;
    while i < entries.len()
        invariant
            page_size > 0,
            i <= entries@.len(),
            out@.len() == i,
            forall|j: int|
                0 <= j < i ==> out@[j] == pagemap_phys_spec(entries@[j], page_size, start_addr),
        decreases entries@.len() - i,
    {
        out.push(decode_pagemap_entry(entries[i], page_size, start_addr));
        i = i + 1;
    }
    out
}

/// Resolves virtual addresses of this process to physical addresses.
pub trait AddressResolver {
    /// Size in bytes of the pages the resolver works on.
    fn page_size(&self) -> (r: u64)
        ensures
            r > 0,
    ;

    /// Converts a virtual address to a physical address; `None` indicates
    /// the page is not present in physical memory.
    fn virt_to_phys(&self, virt_addr: u64) -> Result<Option<u64>, ResolveError>;

    /// Converts each page start of a contiguous range of `num_pages`
    /// pages to a physical address.
    fn virt_to_phys_range(&self, start_addr: u64, num_pages: usize) -> (r: Result<
        Vec<Option<u64>>,
        ResolveError,
    >)
        ensures
            r matches Ok(v) ==> v@.len() == num_pages,
    {
        let page_size = self.page_size();
        let mut out: Vec<Option<u64>> = Vec::new();
        let mut i: usize = 0;
        while i < num_pages
            invariant
                i <= num_pages,
                out@.len() == i,
            decreases num_pages - i,
        {
            let addr = start_addr.saturating_add((i as u64).wrapping_mul(page_size));
            match self.virt_to_phys(addr) {
                Ok(p) => out.push(p),
                Err(e) => {
                    return Err(e);
                },
            }
            i = i + 1;
        }
        Ok(out)
    }
}

/// Resolver for the emulated device: the heap is mapped one-to-one from
/// its start address.
pub struct PhysAddrResolverEmulated {
    /// Virtual address the emulated heap starts at.
    pub heap_start_addr: u64,
}

impl PhysAddrResolverEmulated {
    /// Creates a resolver for an emulated heap starting at
    /// `heap_start_addr`.
    pub fn new(heap_start_addr: u64) -> (r: Self)
        ensures
            r.heap_start_addr == heap_start_addr,
    {
        Self { heap_start_addr }
    }
}

impl AddressResolver for PhysAddrResolverEmulated {
    fn page_size(&self) -> (r: u64)
        ensures
            r > 0,
    {
        4096
    }

    /// The physical address is the offset from the heap start; an address
    /// below the heap start resolves to no page.
    fn virt_to_phys(&self, virt_addr: u64) -> (r: Result<Option<u64>, ResolveError>)
        ensures
            r == Ok::<Option<u64>, ResolveError>(
                if virt_addr >= self.heap_start_addr {
                    Some((virt_addr - self.heap_start_addr) as u64)
                } else {
                    None
                },
            ),
    {
        Ok(virt_addr.checked_sub(self.heap_start_addr))
    }
}

} // verus!
