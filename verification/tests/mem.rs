use blue_rdma_driver::mem::page::{
    ensure_consecutive, reserve_len, EmulatedPageAllocator, HostPageAllocator, PageError,
};
use blue_rdma_driver::mem::sim_alloc::{heap_size, heap_start_addr, page_start_addr, shm_start_addr};
use blue_rdma_driver::mem::virt_to_phy::{
    decode_pagemap_entry, pagemap_offset, virt_to_phy, virt_to_phy_range, PhysAddrResolverEmulated,
};
use blue_rdma_driver::mem::{get_num_page, PAGE_SIZE};

#[test]
fn emulated_pages_come_last_first() {
    let mut a = EmulatedPageAllocator::new(0x1000, 0x4000);
    assert_eq!(a.alloc_page(), Ok(0x3000));
    assert_eq!(a.alloc_page(), Ok(0x2000));
    assert_eq!(a.alloc_page(), Ok(0x1000));
    assert_eq!(a.alloc_page(), Err(PageError::OutOfMemory));
    let mut b = EmulatedPageAllocator::new(0x1000, 0x1001);
    assert_eq!(b.alloc_page(), Ok(0x1000));
    assert_eq!(b.alloc_page(), Err(PageError::OutOfMemory));
    let mut c = EmulatedPageAllocator::new(0x2000, 0x1000);
    assert_eq!(c.alloc_page(), Err(PageError::OutOfMemory));
}

#[test]
fn consecutive_physical_pages() {
    let _host = HostPageAllocator::new();
    assert_eq!(ensure_consecutive(&vec![Some(0x1000), Some(0x2000), Some(0x3000)]), Ok(true));
    assert_eq!(ensure_consecutive(&vec![Some(0x2000), Some(0x1000)]), Ok(false));
    assert_eq!(ensure_consecutive(&vec![Some(0x1000), None]), Err(PageError::NotFound));
    assert_eq!(ensure_consecutive(&vec![]), Ok(true));
    assert_eq!(ensure_consecutive(&vec![Some(5)]), Ok(true));
}

#[test]
fn mapping_length() {
    assert_eq!(reserve_len(2), Ok(2 * PAGE_SIZE));
    assert_eq!(reserve_len(usize::MAX), Err(PageError::Unsupported));
}

#[test]
fn shared_memory_layout() {
    assert_eq!(shm_start_addr(), 0x7f7e_8e60_0000);
    assert_eq!(page_start_addr(), 0x7f7e_8e60_0000 + 128 * 1024 * 1024);
    assert_eq!(heap_start_addr(), 0x7f7e_8e60_0000 + 192 * 1024 * 1024);
    assert_eq!(heap_size(), 64 * 1024 * 1024);
}

#[test]
fn pages_spanned() {
    assert_eq!(get_num_page(0, 0), 0);
    assert_eq!(get_num_page(0, 4096), 1);
    assert_eq!(get_num_page(0xfff, 2), 2);
    assert_eq!(get_num_page(0x1000, 4097), 2);
    assert_eq!(get_num_page(u64::MAX - 1, 10), 1);
}

#[test]
fn page_map_entries() {
    assert_eq!(pagemap_offset(0x5000), 40);
    assert_eq!(decode_pagemap_entry((1 << 63) | 0x1234, 0x5678), Some(0x123_4678));
    assert_eq!(decode_pagemap_entry(0x1234, 0x5678), None);
    let r = virt_to_phy(&vec![0x1001, 0x2002], &vec![(1 << 63) | 7, 0]);
    assert_eq!(r, vec![Some(0x7001), None]);
    let r = virt_to_phy_range(0x1010, &vec![(1 << 63) | 1, (1 << 63) | 2]);
    assert_eq!(r, vec![Some(0x1010), Some(0x2010)]);
}

#[test]
fn emulated_physical_addresses() {
    let r = PhysAddrResolverEmulated::new(0x1000);
    assert_eq!(r.virt_to_phys(0x1800), Some(0x800));
    assert_eq!(r.virt_to_phys(0x800), None);
    assert_eq!(r.virt_to_phys_range(0x1000, 2), vec![Some(0), Some(0x1000)]);
}
