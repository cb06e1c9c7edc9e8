use rdma_transport::mtt::Mtt;
use rdma_transport::mtt::MttError;
use rdma_transport::mtt::PGT_ENTRY_CNT;

#[test]
fn register_and_deregister_roundtrip() {
    let mut mtt = Mtt::new();
    let (key, entry) = mtt.register(4).unwrap();
    assert_eq!(entry.count, 4);
    assert!(mtt.deregister(key).is_ok());
    // The key is gone afterwards.
    assert_eq!(mtt.deregister(key), Err(MttError::InvalidInput));
}

#[test]
fn register_issues_fresh_keys_and_disjoint_regions() {
    let mut mtt = Mtt::new();
    let (k1, e1) = mtt.register(4).unwrap();
    let (k2, e2) = mtt.register(8).unwrap();
    assert_ne!(k1, k2);
    // Regions do not overlap.
    assert!(e1.index + e1.count <= e2.index || e2.index + e2.count <= e1.index);
}

#[test]
fn register_rejects_empty_and_oversized_regions() {
    let mut mtt = Mtt::new();
    assert_eq!(mtt.register(0), Err(MttError::OutOfMemory));
    assert_eq!(mtt.register(PGT_ENTRY_CNT as usize + 1), Err(MttError::OutOfMemory));
    // The whole table in one region still fits.
    assert!(mtt.register(PGT_ENTRY_CNT as usize).is_ok());
    // Nothing is left afterwards.
    assert_eq!(mtt.register(1), Err(MttError::OutOfMemory));
}

#[test]
fn deregister_unknown_key_fails() {
    let mut mtt = Mtt::new();
    assert_eq!(mtt.deregister(12), Err(MttError::InvalidInput));
}

#[test]
fn ensure_valid_checks_region_parameters() {
    assert!(Mtt::ensure_valid(0x1000, 4096).is_ok());
    assert_eq!(Mtt::ensure_valid(0x1000, 0), Err(MttError::InvalidInput));
    // The region must not run past the 64-bit address space.
    assert_eq!(Mtt::ensure_valid(u64::MAX, 1), Err(MttError::InvalidInput));
    assert!(Mtt::ensure_valid(u64::MAX - 4096, 4096).is_ok());
    // The length must fit in 32 bits.
    assert_eq!(
        Mtt::ensure_valid(0, u32::MAX as usize + 1),
        Err(MttError::InvalidInput)
    );
}

#[test]
fn page_start_addresses_cover_the_region() {
    let v = Mtt::get_page_start_virt_addrs(0x1000, 8192).unwrap();
    assert_eq!(v, vec![0x1000, 0x2000]);
    // A partial trailing page still gets a starting address.
    let v = Mtt::get_page_start_virt_addrs(0x1000, 5000).unwrap();
    assert_eq!(v, vec![0x1000, 0x2000]);
    // An empty region spans no page.
    let v = Mtt::get_page_start_virt_addrs(0x1000, 0).unwrap();
    assert!(v.is_empty());
    // A region past the address space is refused.
    assert!(Mtt::get_page_start_virt_addrs(u64::MAX, 2).is_none());
}
