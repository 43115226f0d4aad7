use virtio_forwarder::errors::MemoryReservationError;
use virtio_forwarder::memory_handle::MemoryHandle;

#[test]
fn allocations_follow_each_other() {
    let mut memory = MemoryHandle::new(0x4600_0000, 0x100_0000);
    assert_eq!(memory.allocate(0x1000, 16), Ok(0x4600_0000));
    assert_eq!(memory.allocate(0x20, 16), Ok(0x4600_1000));
    assert_eq!(memory.allocate(1, 16), Ok(0x4600_1020));
    assert_eq!(memory.allocate(8, 16), Ok(0x4600_1030));
}

#[test]
fn later_allocation_starts_behind_the_earlier_one() {
    let mut memory = MemoryHandle::new(0x1003, 0x1000);
    let lengths: [usize; 6] = [7, 1, 64, 0, 33, 100];
    let alignments: [u32; 6] = [1, 8, 64, 2, 0, 16];
    let mut ends: Vec<usize> = Vec::new();
    for i in 0..lengths.len() {
        let address = memory.allocate(lengths[i], alignments[i]).unwrap();
        for end in ends.iter() {
            assert!(address >= *end);
        }
        ends.push(address + lengths[i]);
    }
}

#[test]
fn address_is_rounded_up_to_the_alignment() {
    let mut memory = MemoryHandle::new(0x1003, 0x1000);
    assert_eq!(memory.allocate(1, 1), Ok(0x1003));
    assert_eq!(memory.allocate(1, 4), Ok(0x1004));
    assert_eq!(memory.allocate(1, 4), Ok(0x1008));
    assert_eq!(memory.allocate(2, 0x100), Ok(0x1100));
    assert_eq!(memory.allocate(2, 3), Ok(0x1104));
    assert_eq!(memory.allocate(2, 0), Ok(0x1106));
}

#[test]
fn padding_counts_against_the_capacity() {
    let mut memory = MemoryHandle::new(0x1001, 0x10);
    assert_eq!(memory.allocate(2, 16), Err(MemoryReservationError::MemoryExhausted));
    assert_eq!(memory.allocate(1, 16), Ok(0x1010));
    assert_eq!(memory.allocate(1, 1), Err(MemoryReservationError::MemoryExhausted));
}

#[test]
fn exhausted_arena_refuses_and_keeps_its_cursor() {
    let mut memory = MemoryHandle::new(0x1000, 0x100);
    assert_eq!(memory.allocate(0x101, 1), Err(MemoryReservationError::MemoryExhausted));
    assert_eq!(memory.allocate(0x100, 1), Ok(0x1000));
    assert_eq!(memory.allocate(1, 1), Err(MemoryReservationError::MemoryExhausted));
    assert_eq!(memory.allocate(0, 1), Ok(0x1100));
}

#[test]
fn region_at_the_end_of_the_address_space_does_not_wrap() {
    let mut memory = MemoryHandle::new(usize::MAX - 0x10, 0x100);
    assert!(memory.fits(0x10, 1));
    assert!(!memory.fits(0x11, 1));
    assert_eq!(memory.allocate(0x11, 1), Err(MemoryReservationError::MemoryExhausted));
    assert_eq!(memory.allocate(0x10, 1), Ok(usize::MAX - 0x10));
    assert_eq!(memory.allocate(1, 1), Err(MemoryReservationError::MemoryExhausted));
    assert_eq!(memory.allocate(0, 16), Err(MemoryReservationError::MemoryExhausted));
}

#[test]
fn fits_agrees_with_allocate() {
    let mut memory = MemoryHandle::new(0x2000, 0x40);
    assert!(memory.fits(0x40, 16));
    assert!(!memory.fits(0x41, 16));
    assert_eq!(memory.allocate(0x30, 16), Ok(0x2000));
    assert!(memory.fits(0x10, 16));
    assert!(!memory.fits(0x11, 1));
}
