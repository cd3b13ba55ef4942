use slint_surface_core::allocator::{
    allocated_pointer, freed_pointer, malloc_request, over_aligned_shift, recorded_shift, MallocRequest,
};

#[test]
fn allocator_shift_reaches_next_aligned_address() {
    assert_eq!(over_aligned_shift(0x1000, 16), 16);
    assert_eq!(over_aligned_shift(0x1003, 16), 13);
    assert_eq!(over_aligned_shift(0x100f, 32), 17);
    for address in 0x2000usize..0x2100 {
        let shift = over_aligned_shift(address, 64);
        assert!((1..=64).contains(&shift));
        assert_eq!((address + shift) % 64, 0);
        assert_eq!(recorded_shift(shift) as usize, shift);
    }
    assert_eq!(recorded_shift(256), 0);
}

#[test]
fn allocator_free_finds_the_malloc_block() {
    assert_eq!(malloc_request(40, 8, 8), MallocRequest::Plain { size: 40 });
    assert_eq!(malloc_request(40, 64, 8), MallocRequest::OverAligned { size: 104 });
    assert_eq!(allocated_pointer(0x1000, 8, 8), (0x1000, None));
    assert_eq!(freed_pointer(0x1000, 8, 8, 0), 0x1000);
    let (pointer, recorded) = allocated_pointer(0x1008, 64, 8);
    assert_eq!(pointer, 0x1040);
    assert_eq!(recorded, Some(0x38));
    assert_eq!(freed_pointer(pointer, 64, 8, recorded.unwrap()), 0x1008);
    assert_eq!(allocated_pointer(0, 64, 8), (0, None));
    assert_eq!(allocated_pointer(0, 8, 8), (0, None));
}
