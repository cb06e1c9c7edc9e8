use rdma_transport::constants::MAX_PSN_WINDOW;
use rdma_transport::device::CsrBaseAddrAdaptor;
use rdma_transport::device::CsrWriterAdaptor;
use rdma_transport::device::DeviceAdaptor;
use rdma_transport::device::DeviceError;
use rdma_transport::device::RingBufferCsrAddr;
use rdma_transport::device::TestDevice;
use rdma_transport::device::ToCard;
use rdma_transport::mem::dma_pool_offset;
use rdma_transport::mem::parse_radix_u64;
use rdma_transport::mem::PAGE_SIZE_2MB;
use rdma_transport::psn::msn_before;
use rdma_transport::psn::msn_wrapping_add;
use rdma_transport::psn::psn_before;
use rdma_transport::psn::psn_wrapping_add;
use rdma_transport::virt_to_phy::decode_pagemap_entries;
use rdma_transport::virt_to_phy::decode_pagemap_entry;
use rdma_transport::virt_to_phy::AddressResolver;
use rdma_transport::virt_to_phy::PhysAddrResolverEmulated;

use std::cell::RefCell;
use std::collections::HashMap;

#[test]
fn psn_advance_wraps_modulo_24_bits() {
    assert_eq!(psn_wrapping_add(0, 3), 3);
    // A 24-bit PSN starting at 0xFFFFFE advanced by 3 wraps to 0x000001.
    assert_eq!(psn_wrapping_add(0xFF_FFFE, 3), 0x00_0001);
    assert_eq!(psn_wrapping_add(0xFF_FFFF, 1), 0);
}

#[test]
fn psn_order_accounts_for_wraparound() {
    assert!(psn_before(0, 1));
    assert!(psn_before(0xFF_FFFE, 1));
    // The forward distance must be strictly below the window.
    assert!(!psn_before(0, MAX_PSN_WINDOW as u32));
    assert!(psn_before(0, MAX_PSN_WINDOW as u32 - 1));
    assert!(!psn_before(1, 0));
}

#[test]
fn msn_advance_and_order_wrap_modulo_16_bits() {
    assert_eq!(msn_wrapping_add(0xFFFE, 3), 1);
    assert!(msn_before(0xFFFE, 1));
    assert!(!msn_before(0, 0x8000));
    assert!(msn_before(0, 0x7FFF));
}

#[test]
fn pagemap_entry_decodes_present_pages() {
    let pfn: u64 = 0x12345;
    let present = 1u64 << 63;
    assert_eq!(
        decode_pagemap_entry(present | pfn, 4096, 0x7000_1234),
        Some(pfn * 4096 + 0x234)
    );
    // The present bit clear means the page is not resident.
    assert_eq!(decode_pagemap_entry(pfn, 4096, 0x7000_1234), None);
    // Soft-dirty and exclusive bits above the PFN are ignored.
    let noisy = present | (1u64 << 55) | pfn;
    assert_eq!(decode_pagemap_entry(noisy, 4096, 0), Some(pfn * 4096));
}

#[test]
fn pagemap_entries_share_the_range_offset() {
    let present = 1u64 << 63;
    let entries = vec![present | 0x10, 0, present | 0x11];
    let r = decode_pagemap_entries(&entries, 4096, 0x5123);
    assert_eq!(r, vec![Some(0x10 * 4096 + 0x123), None, Some(0x11 * 4096 + 0x123)]);
}

#[test]
fn emulated_resolver_offsets_from_heap_start() {
    let r = PhysAddrResolverEmulated::new(0x10_0000);
    assert_eq!(r.virt_to_phys(0x10_4000), Ok(Some(0x4000)));
    assert_eq!(r.virt_to_phys(0x10_0000), Ok(Some(0)));
    // An address below the heap start resolves to no page.
    assert_eq!(r.virt_to_phys(0xF_FFFF), Ok(None));
    let v = r.virt_to_phys_range(0x10_0000, 3).unwrap();
    assert_eq!(v, vec![Some(0), Some(4096), Some(8192)]);
}

#[test]
fn parses_pool_attributes_in_both_radixes() {
    assert_eq!(parse_radix_u64(b"4096", 10), Some(4096));
    assert_eq!(parse_radix_u64(b"0", 10), Some(0));
    assert_eq!(parse_radix_u64(b"18446744073709551615", 10), Some(u64::MAX));
    // One past the largest 64-bit value no longer fits.
    assert_eq!(parse_radix_u64(b"18446744073709551616", 10), None);
    assert_eq!(parse_radix_u64(b"", 10), None);
    assert_eq!(parse_radix_u64(b"12a", 10), None);
    assert_eq!(parse_radix_u64(b"1F4", 16), Some(500));
    assert_eq!(parse_radix_u64(b"ff", 16), Some(255));
    assert_eq!(parse_radix_u64(b"ff", 10), None);
    assert_eq!(parse_radix_u64(b"g", 16), None);
    assert_eq!(parse_radix_u64(b"FFFFFFFFFFFFFFFF", 16), Some(u64::MAX));
    assert_eq!(parse_radix_u64(b"10000000000000000", 16), None);
}

#[test]
fn dma_pool_offset_checks_capacity() {
    assert_eq!(dma_pool_offset(0, 1, 3 * PAGE_SIZE_2MB), Some(0));
    assert_eq!(dma_pool_offset(2, 1, 3 * PAGE_SIZE_2MB), Some(2 * PAGE_SIZE_2MB));
    // The allocation must lie entirely inside the pool.
    assert_eq!(dma_pool_offset(2, 2, 3 * PAGE_SIZE_2MB), None);
    assert_eq!(dma_pool_offset(usize::MAX, 2, usize::MAX), None);
}

struct MockDevice {
    regs: RefCell<HashMap<usize, u32>>,
}

impl DeviceAdaptor for MockDevice {
    fn read_csr(&self, addr: usize) -> Result<u32, DeviceError> {
        Ok(*self.regs.borrow().get(&addr).unwrap_or(&0))
    }

    fn write_csr(&self, addr: usize, data: u32) -> Result<(), DeviceError> {
        self.regs.borrow_mut().insert(addr, data);
        Ok(())
    }
}

impl RingBufferCsrAddr for MockDevice {
    fn head_addr(&self) -> usize {
        0x00
    }

    fn tail_addr(&self) -> usize {
        0x04
    }

    fn base_addr_low(&self) -> usize {
        0x08
    }

    fn base_addr_high(&self) -> usize {
        0x0C
    }
}

impl ToCard for MockDevice {}

#[test]
fn base_address_splits_and_rejoins() {
    let dev = MockDevice { regs: RefCell::new(HashMap::new()) };
    dev.write_base_addr(0x1234_5678_9ABC_DEF0).unwrap();
    assert_eq!(dev.read_csr(0x08), Ok(0x9ABC_DEF0));
    assert_eq!(dev.read_csr(0x0C), Ok(0x1234_5678));
    assert_eq!(dev.read_base_addr(), Ok(0x1234_5678_9ABC_DEF0));
}

#[test]
fn writer_adaptor_uses_head_and_tail_registers() {
    let dev = MockDevice { regs: RefCell::new(HashMap::new()) };
    dev.write_head(7).unwrap();
    assert_eq!(dev.read_csr(0x00), Ok(7));
    dev.write_csr(0x04, 9).unwrap();
    assert_eq!(dev.read_tail(), Ok(9));
    let _marker: Option<TestDevice> = None;
}
