//! Memory Translation Table: issues region keys, places each registered
//! region in the on-card page table, and tracks the key-to-region mapping.

use vstd::prelude::*;

use std::collections::HashMap;

verus! {

broadcast use vstd::std_specs::hash::group_hash_axioms;

/// Size in bytes of a page of a registered memory region.
pub const PAGE_SIZE: usize = 4096;

/// Number of entries the on-card page table provides.
pub const PGT_ENTRY_CNT: u32 = 0x2_0000;

/// Errors of the memory translation table.
#[derive(Clone, Copy, Debug, PartialEq, Eq, Structural)]
pub enum MttError {
    /// No page-table space or key is left for the region.
    OutOfMemory,
    /// The parameters do not describe a registrable region, or the key is
    /// unknown.
    InvalidInput,
}

/// One page-table region: first entry index and entry count.
#[derive(Clone, Copy, Debug, PartialEq, Eq, Structural)]
pub struct PgtEntry {
    /// Index of the region's first page-table entry.
    pub index: u32,
    /// Number of page-table entries the region occupies.
    pub count: u32,
}

/// Bump allocator for page-table regions and region keys: regions are
/// carved off an ever-growing prefix of the table, and keys are issued in
/// increasing order, so neither is ever reused.
pub struct Alloc {
    /// First page-table index not yet handed out.
    pub next_index: u32,
    /// Next region key to issue.
    pub next_key: u32,
}

impl Alloc {
    /// The allocated prefix never runs past the table.
    pub open spec fn wf(self) -> bool {
        self.next_index <= PGT_ENTRY_CNT
    }

    /// Creates an allocator with the whole table free.
    pub fn new() -> (r: Self)
        ensures
            r.wf(),
            r.next_index == 0,
            r.next_key == 0,
    {
        Self { next_index: 0, next_key: 0 }
    }

    /// Carves a region of `num_pages` entries off the table and issues a
    /// fresh key for it, or returns `None` when the request is empty, no
    /// table space is left, or the key space is used up.
    pub fn allocate(&mut self, num_pages: usize) -> (r: Option<(u32, PgtEntry)>)
        requires
            old(self).wf(),
        ensures
            final(self).wf(),
            r is Some <==> (0 < num_pages && old(self).next_index + num_pages <= PGT_ENTRY_CNT
                && old(self).next_key < u32::MAX),
            r matches Some((key, entry)) ==> key == old(self).next_key && entry.index == old(self).next_index && entry.count == num_pages && final(self).next_key == old(self).next_key
                + 1 && final(self).next_index == old(self).next_index + num_pages,
            r is None ==> *final(self) == *old(self),
    {
        if num_pages == 0 || self.next_key == u32::MAX {
            return None;
        }
        if num_pages > (PGT_ENTRY_CNT - self.next_index) as usize {
            return None;
        }
        let key = self.next_key;
        let entry = PgtEntry { index: self.next_index, count: num_pages as u32 };
        self.next_key = self.next_key + 1;
        self.next_index = self.next_index + num_pages as u32;
        Some((key, entry))
    }

    /// Checks that a region being released was issued by this allocator:
    /// its key has been handed out and its entries lie in the allocated
    /// prefix. The prefix itself is never shrunk.
    pub fn deallocate(&mut self, mr_key: u32, index: usize, count: usize) -> (r: bool)
        ensures
            *final(self) == *old(self),
            r == (mr_key < old(self).next_key && index + count <= old(self).next_index),
    {
        mr_key < self.next_key && count <= self.next_index as usize && index <= self.next_index
            as usize - count
    }
}

/// Memory Translation Table implementation
pub struct Mtt {
    /// Table memory allocator
    pub allocator: Alloc,
    /// Table tracks `mr_key` to `PgtEntry` mapping
    pub mrkey_map: HashMap<u32, PgtEntry>,
}

impl Mtt {
    /// Every issued mapping's key and region were handed out by the
    /// allocator.
    pub open spec fn wf(self) -> bool {
        &&& self.allocator.wf()
        &&& forall|k: u32|
            #[trigger] self.mrkey_map@.contains_key(k) ==> self.mrkey_map@[k].index
                + self.mrkey_map@[k].count <= self.allocator.next_index && k
                < self.allocator.next_key
    }

    /// Creates a new `Mtt`
    pub fn new() -> (r: Self)
        ensures
            r.wf(),
            r.mrkey_map@ == Map::<u32, PgtEntry>::empty(),
            r.allocator.next_index == 0,
            r.allocator.next_key == 0,
    {
        Self { allocator: Alloc::new(), mrkey_map: HashMap::new() }
    }

    /// Registers a memory region of `num_pages` pages: places it in the
    /// page table and returns its fresh key and region. Fails with
    /// `OutOfMemory` exactly when the request is empty or table space or
    /// keys are used up.
    pub fn register(&mut self, num_pages: usize) -> (r: Result<(u32, PgtEntry), MttError>)
        requires
            old(self).wf(),
        ensures
            final(self).wf(),
            r is Ok <==> (0 < num_pages && old(self).allocator.next_index + num_pages <= PGT_ENTRY_CNT
                && old(self).allocator.next_key < u32::MAX),
            r matches Ok((key, entry)) ==> !old(self).mrkey_map@.contains_key(key) && entry.count
                == num_pages && final(self).mrkey_map@ == old(self).mrkey_map@.insert(key, entry),
            r is Err ==> r == Err::<(u32, PgtEntry), MttError>(MttError::OutOfMemory) && final(self).mrkey_map@ == old(self).mrkey_map@,
    {
        let (mr_key, pgt_entry) = match self.allocator.allocate(num_pages) {
            Some(v) => v,
            None => {
                return Err(MttError::OutOfMemory);
            },
        };
        let prev = self.mrkey_map.insert(mr_key, pgt_entry);
        Ok((mr_key, pgt_entry))
    }

    /// Releases the region registered under `mr_key`. Fails with
    /// `InvalidInput` exactly when the key is unknown.
    pub fn deregister(&mut self, mr_key: u32) -> (r: Result<(), MttError>)
        requires
            old(self).wf(),
        ensures
            final(self).wf(),
            r is Ok <==> old(self).mrkey_map@.contains_key(mr_key),
            r is Ok ==> final(self).mrkey_map@ == old(self).mrkey_map@.remove(mr_key),
            r is Err ==> r == Err::<(), MttError>(MttError::InvalidInput) && final(self).mrkey_map@
                == old(self).mrkey_map@,
    {
        let entry = match self.mrkey_map.remove(&mr_key) {
            Some(entry) => entry,
            None => {
                return Err(MttError::InvalidInput);
            },
        };
        if !self.allocator.deallocate(mr_key, entry.index as usize, entry.count as usize) {
            return Err(MttError::InvalidInput);
        }
        Ok(())
    }

    /// Validates memory region parameters: the region must not run past
    /// the address space, must be no longer than `u32::MAX`, and must not
    /// be empty.
    pub fn ensure_valid(addr: u64, length: usize) -> (r: Result<(), MttError>)
        ensures
            r is Ok <==> (addr + length <= u64::MAX && length <= u32::MAX && 0 < length),
            r is Err ==> r == Err::<(), MttError>(MttError::InvalidInput),
    {
        if u64::MAX - addr < length as u64 || length > u32::MAX as usize || length == 0 {
            return Err(MttError::InvalidInput);
        }
        Ok(())
    }

    /// Number of pages a region of `length` bytes spans.
    pub open spec fn page_count_spec(length: usize) -> int {
        length as int / PAGE_SIZE as int + if length as int % PAGE_SIZE as int != 0 {
            1int
        } else {
            0int
        }
    }

    /// Gets the starting virtual address of each page of the region, or
    /// `None` when the region runs past the address space.
    pub fn get_page_start_virt_addrs(addr: u64, length: usize) -> (r: Option<Vec<u64>>)
        ensures
            r is Some <==> addr + length <= u64::MAX,
            r matches Some(v) ==> v@.len() == Self::page_count_spec(length) && (forall|i: int|
                0 <= i < v@.len() ==> v@[i] == addr + i * PAGE_SIZE),
    {
        if addr.checked_add(length as u64).is_none() {
            return None;
        }
        let n: usize = length / PAGE_SIZE + (if length % PAGE_SIZE != 0 {
            1
        } else {
            0
        });
        proof {
            vstd::arithmetic::div_mod::lemma_fundamental_div_mod(length as int, PAGE_SIZE as int);
        }
        let mut v: Vec<u64> = Vec::new();
        let mut cur: u64 = addr;
        let mut i: usize = 0;
        while i < n
            invariant
                i <= n,
                n == Self::page_count_spec(length),
                addr + length <= u64::MAX,
                (n as int - 1) * PAGE_SIZE < length as int,
                v@.len() == i,
                forall|j: int| 0 <= j < i ==> v@[j] == addr + j * PAGE_SIZE,
                i < n ==> cur == addr + i * PAGE_SIZE,
                i < n ==> cur <= addr + length,
            decreases n - i,
        {
            v.push(cur);
            proof {
                if i + 1 < n {
                    assert((i + 1) * PAGE_SIZE < length as int) by {
                        vstd::arithmetic::mul::lemma_mul_inequality(
                            i + 1,
                            n as int - 1,
                            PAGE_SIZE as int,
                        );
                    }
                }
            }
            if i + 1 < n {
                cur = cur + PAGE_SIZE as u64;
            }
            i = i + 1;
        }
        Some(v)
    }
}

} // verus!
