use blue_rdma_driver::mem::slot_alloc::SlotAlloc;

#[test]
fn slot_alloc_dealloc_ok() {
    let mem = [0u8; 1024];
    let mut alloc = SlotAlloc::new(mem, 16);
    let slot_size = alloc.slot_size();
    let total = alloc.num_slots_total();
    assert_eq!(slot_size, 16);
    assert_eq!(total, 1024 / 16);
    assert!(!alloc.is_empty());
    let slot = alloc.alloc_one().unwrap();
    let slot1 = alloc.alloc_one().unwrap();
    assert_ne!(slot.index(), slot1.index());
}

#[test]
fn slots_do_not_overlap_and_run_out() {
    let mut alloc = SlotAlloc::new(vec![0u8; 100], 30);
    assert_eq!(alloc.num_slots_total(), 3);
    let mut got = Vec::new();
    while let Some(s) = alloc.alloc_one() {
        assert_eq!(s.len(), 30);
        assert_eq!(s.offset(), s.index() * 30);
        got.push(s);
    }
    assert_eq!(got.len(), 3);
    assert!(alloc.is_empty());
    let s = got.pop().unwrap();
    let idx = s.index();
    assert!(alloc.dealloc(s).is_none());
    assert!(!alloc.is_empty());
    assert_eq!(alloc.alloc_one().unwrap().index(), idx);
}

#[test]
fn dealloc_foreign_slot_is_returned() {
    let mut a = SlotAlloc::new(vec![0u8; 64], 16);
    let mut b = SlotAlloc::new(vec![0u8; 64], 16);
    let s = b.alloc_one().unwrap();
    let back = a.dealloc(s);
    assert!(back.is_some());
    assert_eq!(a.slot_num_max(), 3);
}

#[test]
fn foreign_slot_goes_back_to_its_owner() {
    let mut a = SlotAlloc::new(vec![1u8; 64], 16);
    let mut b = SlotAlloc::new(vec![2u8; 64], 16);
    let s = a.alloc_one().unwrap();
    let idx = s.index();
    let s2 = b.dealloc(s).unwrap();
    assert_eq!(s2.index(), idx);
    assert!(a.dealloc(s2).is_none());
    // the slot is free again and handed out first, then the three others
    assert_eq!(a.alloc_one().unwrap().index(), idx);
    let mut n = 0;
    while a.alloc_one().is_some() {
        n += 1;
    }
    assert_eq!(n, 3);
    let mut m = 0;
    while b.alloc_one().is_some() {
        m += 1;
    }
    assert_eq!(m, 4);
}

#[test]
fn dealloc_by_region_answer() {
    let mut a = SlotAlloc::new(vec![0u8; 64], 16);
    let s = a.alloc_one().unwrap();
    let idx = s.index();
    // a slot said to be of another region comes back unchanged
    let s = a.dealloc_checked(s, false).unwrap();
    assert_eq!(s.index(), idx);
    // a slot of this region that is not free is taken back
    assert!(a.dealloc_checked(s, true).is_none());
    assert_eq!(a.alloc_one().unwrap().index(), idx);
}
