use virtio_forwarder::access::Access;
use virtio_forwarder::errors::MemoryReservationError;
use virtio_forwarder::memory_handle::MemoryHandle;
use virtio_forwarder::virtqueue::{AvailableRingHandle, UsedRingHandle, VirtQueueHandle};

#[test]
fn available_ring_words_follow_each_other() {
    let ring = AvailableRingHandle::from_address(0x5000, 8);
    assert_eq!(ring.idx(), Access::Load16 { addr: 0x5002 });
    assert_eq!(
        ring.advance(0, 3),
        vec![
            Access::Store16 { addr: 0x5004, value: 3 },
            Access::Fence,
            Access::Store16 { addr: 0x5002, value: 1 },
            Access::Fence,
        ]
    );
}

#[test]
fn advance_picks_the_slot_by_index_modulo_queue_size() {
    let ring = AvailableRingHandle::from_address(0x5000, 8);
    assert_eq!(ring.advance(7, 1)[0], Access::Store16 { addr: 0x5004 + 2 * 7, value: 1 });
    assert_eq!(ring.advance(8, 2)[0], Access::Store16 { addr: 0x5004, value: 2 });
    assert_eq!(ring.advance(13, 5)[0], Access::Store16 { addr: 0x5004 + 2 * 5, value: 5 });
    assert_eq!(ring.advance(0xffff, 0)[0], Access::Store16 { addr: 0x5004 + 2 * 7, value: 0 });
}

#[test]
fn advance_wraps_the_index_at_16_bits() {
    let ring = AvailableRingHandle::from_address(0x5000, 8);
    assert_eq!(ring.advance(0xfffe, 0)[2], Access::Store16 { addr: 0x5002, value: 0xffff });
    assert_eq!(ring.advance(0xffff, 0)[2], Access::Store16 { addr: 0x5002, value: 0 });
}

fn peeked(ring: &UsedRingHandle, used_idx: u16) -> Option<Access> {
    ring.peek(used_idx).map(|element| element.get_id())
}

#[test]
fn used_ring_elements_are_eight_bytes() {
    let mut ring = UsedRingHandle::from_address(0x6000, 4);
    assert_eq!(ring.idx(), Access::Load16 { addr: 0x6002 });
    assert_eq!(peeked(&ring, 1), Some(Access::Load32 { addr: 0x6004 }));
    assert_eq!(ring.try_remove(1, 2), Some(2));
    assert_eq!(peeked(&ring, 1), None);
    assert_eq!(peeked(&ring, 3), Some(Access::Load32 { addr: 0x600c }));
    assert_eq!(ring.try_remove(3, 0), Some(0));
    assert_eq!(peeked(&ring, 3), Some(Access::Load32 { addr: 0x6014 }));
    assert_eq!(ring.try_remove(3, 1), Some(1));
    assert_eq!(peeked(&ring, 3), None);
    assert_eq!(peeked(&ring, 4), Some(Access::Load32 { addr: 0x601c }));
    assert_eq!(ring.try_remove(3, 1), None);
    assert_eq!(ring.try_remove(4, 3), Some(3));
    assert_eq!(peeked(&ring, 5), Some(Access::Load32 { addr: 0x6004 }));
}

#[test]
fn try_remove_reduces_the_id_modulo_queue_size() {
    let mut ring = UsedRingHandle::from_address(0x6000, 4);
    assert_eq!(ring.try_remove(1, 7), Some(3));
    assert_eq!(ring.try_remove(2, 0x1_0002), Some(2));
    assert_eq!(ring.try_remove(3, 0xffff_ffff), Some(3));
    let mut odd = UsedRingHandle::from_address(0x6000, 1000);
    assert_eq!(odd.try_remove(1, 70_001), Some(1));
}

#[test]
fn drained_used_ring_gives_nothing_and_stays_as_it_is() {
    let mut ring = UsedRingHandle::from_address(0x6000, 4);
    for id in 0..5 {
        assert_eq!(peeked(&ring, 0), None);
        assert_eq!(ring.try_remove(0, id), None);
        assert_eq!(peeked(&ring, 9), Some(Access::Load32 { addr: 0x6004 }));
    }
    assert_eq!(ring.try_remove(1, 1), Some(1));
    for id in 0..5 {
        assert_eq!(peeked(&ring, 1), None);
        assert_eq!(ring.try_remove(1, id), None);
        assert_eq!(peeked(&ring, 9), Some(Access::Load32 { addr: 0x600c }));
    }
}

#[test]
fn used_ring_position_wraps_at_16_bits() {
    let mut ring = UsedRingHandle::from_address(0x6000, 4);
    let mut taken: u32 = 0;
    while taken < 0xffff {
        assert_eq!(ring.try_remove(0xffff, 0), Some(0));
        taken += 1;
    }
    assert_eq!(ring.try_remove(0xffff, 0), None);
    assert_eq!(peeked(&ring, 0), Some(Access::Load32 { addr: 0x6004 + 8 * 3 }));
    assert_eq!(ring.try_remove(0, 2), Some(2));
    assert_eq!(ring.try_remove(0, 1), None);
    assert_eq!(peeked(&ring, 1), Some(Access::Load32 { addr: 0x6004 }));
}

#[test]
fn queue_parts_lie_where_the_layout_puts_them() {
    let mut memory = MemoryHandle::new(0x4600_0000, 0x100_0000);
    let (queue, _setup) = VirtQueueHandle::new(1024, &mut memory, true).unwrap();
    assert_eq!(queue.base_address(), 0x4600_0000);
    assert_eq!(queue.available_idx(), Access::Load16 { addr: 0x4600_0000 + 16384 + 2 });
    assert_eq!(
        queue.poll(),
        vec![Access::Fence, Access::Load16 { addr: 0x4600_0000 + 20480 + 2 }]
    );
    assert!(queue.pending(0).is_none());
    let element = queue.pending(1).unwrap();
    assert_eq!(element.get_id(), Access::Load32 { addr: 0x4600_0000 + 20480 + 4 });
    assert_eq!(element.get_len(), Access::Load32 { addr: 0x4600_0000 + 20480 + 8 });
    assert_eq!(queue.get_descriptor(0).get_addr(), Access::Load64 { addr: 0x4600_0000 });
    assert_eq!(queue.get_descriptor(5).get_addr(), Access::Load64 { addr: 0x4600_0050 });
    assert_eq!(queue.get_descriptor(5).get_len(), Access::Load32 { addr: 0x4600_0058 });
    assert_eq!(
        queue.get_descriptor(1023).get_len(),
        Access::Load32 { addr: 0x4600_0000 + 16 * 1023 + 8 }
    );
    assert_eq!(memory.allocate(1, 1), Ok(0x4600_0000 + 32768 + 1024 * 4096));
}

#[test]
fn descriptor_fields_are_written_in_order() {
    let mut memory = MemoryHandle::new(0x4600_0000, 0x100_0000);
    let (queue, _setup) = VirtQueueHandle::new(1024, &mut memory, true).unwrap();
    assert_eq!(
        queue.update_descriptor(3, 0x1122_3344_5566_7788, 0x99aa_bbcc, 0xddee, 0xff00),
        vec![
            Access::Store64 { addr: 0x4600_0030, value: 0x1122_3344_5566_7788 },
            Access::Store32 { addr: 0x4600_0038, value: 0x99aa_bbcc },
            Access::Store16 { addr: 0x4600_003c, value: 0xddee },
            Access::Store16 { addr: 0x4600_003e, value: 0xff00 },
        ]
    );
    let descriptor = queue.get_descriptor(3);
    assert_eq!(descriptor.set_addr(1), Access::Store64 { addr: 0x4600_0030, value: 1 });
    assert_eq!(descriptor.set_len(2), Access::Store32 { addr: 0x4600_0038, value: 2 });
    assert_eq!(descriptor.set_flags(3), Access::Store16 { addr: 0x4600_003c, value: 3 });
    assert_eq!(descriptor.set_next(4), Access::Store16 { addr: 0x4600_003e, value: 4 });
}

#[test]
fn offer_is_barrier_slot_barrier_index_barrier() {
    let mut memory = MemoryHandle::new(0x4600_0000, 0x100_0000);
    let (mut queue, _setup) = VirtQueueHandle::new(1024, &mut memory, false).unwrap();
    let ring = 0x4600_0000 + 16384;
    assert_eq!(
        queue.offer(1030, 17),
        vec![
            Access::Fence,
            Access::Store16 { addr: ring + 4 + 2 * 6, value: 17 },
            Access::Fence,
            Access::Store16 { addr: ring + 2, value: 1031 },
            Access::Fence,
        ]
    );
}

#[test]
fn new_queue_clears_then_describes_then_offers() {
    let mut memory = MemoryHandle::new(0x4600_0010, 0x100_0000);
    let (queue, setup) = VirtQueueHandle::new(4, &mut memory, true).unwrap();
    let base = 0x4600_0010;
    let buffers = base + 8192;
    assert_eq!(queue.base_address(), base);
    assert_eq!(setup.populate.len(), 1 + 4 * 4);
    assert_eq!(setup.populate[0], Access::Zero { addr: base, len: 8192 });
    for i in 0..4usize {
        assert_eq!(
            setup.populate[1 + 4 * i..1 + 4 * i + 4],
            [
                Access::Store64 { addr: base + 16 * i, value: (buffers + 4096 * i) as u64 },
                Access::Store32 { addr: base + 16 * i + 8, value: 4096 },
                Access::Store16 { addr: base + 16 * i + 12, value: 2 },
                Access::Store16 { addr: base + 16 * i + 14, value: 0 },
            ]
        );
    }
    assert_eq!(setup.publish.len(), 5 * 4 + 1);
    for i in 0..4usize {
        assert_eq!(
            setup.publish[5 * i..5 * i + 5],
            [
                Access::Fence,
                Access::Store16 { addr: base + 64 + 4 + 2 * i, value: i as u16 },
                Access::Fence,
                Access::Store16 { addr: base + 64 + 2, value: i as u16 + 1 },
                Access::Fence,
            ]
        );
    }
    assert_eq!(setup.publish[20], Access::Fence);
    assert_eq!(memory.allocate(0, 1), Ok(buffers + 4 * 4096));
}

#[test]
fn transmit_descriptors_are_not_flagged() {
    let mut memory = MemoryHandle::new(0x4600_0000, 0x100_0000);
    let (_queue, setup) = VirtQueueHandle::new(2, &mut memory, false).unwrap();
    assert_eq!(setup.populate[3], Access::Store16 { addr: 0x4600_000c, value: 0 });
    assert_eq!(setup.populate[7], Access::Store16 { addr: 0x4600_001c, value: 0 });
}

#[test]
fn queue_base_is_aligned_to_16() {
    let mut memory = MemoryHandle::new(0x4600_0001, 0x100_0000);
    let (queue, setup) = VirtQueueHandle::new(1, &mut memory, true).unwrap();
    assert_eq!(queue.base_address(), 0x4600_0010);
    assert_eq!(
        setup.populate[1],
        Access::Store64 { addr: 0x4600_0010, value: 0x4600_0010 + 8192 }
    );
}

#[test]
fn queue_that_does_not_fit_takes_nothing() {
    let footprint = 32768 + 1024 * 4096;
    let mut memory = MemoryHandle::new(0x4600_0000, footprint - 1);
    assert_eq!(
        VirtQueueHandle::new(1024, &mut memory, true).err(),
        Some(MemoryReservationError::MemoryExhausted)
    );
    assert_eq!(memory.allocate(0, 1), Ok(0x4600_0000));
    let mut exact = MemoryHandle::new(0x4600_0000, footprint);
    assert!(VirtQueueHandle::new(1024, &mut exact, true).is_ok());
    assert_eq!(exact.allocate(0, 1), Ok(0x4600_0000 + footprint));
    assert_eq!(exact.allocate(1, 1), Err(MemoryReservationError::MemoryExhausted));
}

#[test]
fn try_take_names_the_descriptor_and_its_place() {
    let mut memory = MemoryHandle::new(0x4600_0000, 0x100_0000);
    let (mut queue, _setup) = VirtQueueHandle::new(1024, &mut memory, true).unwrap();
    assert!(queue.try_take(0, 9).is_none());
    let element = queue.try_take(2, 1024 + 9).unwrap();
    assert_eq!(element.desc_idx, 9);
    assert_eq!(element.desc.get_addr(), Access::Load64 { addr: 0x4600_0090 });
    assert_eq!(
        queue.pending(2).unwrap().get_id(),
        Access::Load32 { addr: 0x4600_0000 + 20480 + 4 + 8 }
    );
    let element = queue.try_take(2, 1023).unwrap();
    assert_eq!(element.desc_idx, 1023);
    assert!(queue.try_take(2, 5).is_none());
    assert!(queue.try_take(2, 5).is_none());
    assert!(queue.pending(2).is_none());
    assert_eq!(
        queue.pending(3).unwrap().get_len(),
        Access::Load32 { addr: 0x4600_0000 + 20480 + 4 + 16 + 4 }
    );
}
