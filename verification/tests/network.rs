use virtio_forwarder::forwarder::{
    ethertype_of_word, holds_ethertype, verdict, Verdict, ETHERNET_HEADER_SIZE, ETHERTYPE_ARP,
    ETHERTYPE_IPV4, ETHERTYPE_IPV6, ETHERTYPE_OFFSET,
};
use virtio_forwarder::virtqueue_network::{RawVirtioNetHeaderShort, Span, NET_HEADER_SIZE};

#[test]
fn ethertype_is_the_loaded_word_with_its_bytes_swapped() {
    assert_eq!(ethertype_of_word(u16::from_le_bytes([0x08, 0x00])), 0x0800);
    assert_eq!(ethertype_of_word(u16::from_le_bytes([0x08, 0x06])), 0x0806);
    assert_eq!(ethertype_of_word(u16::from_le_bytes([0x86, 0xdd])), 0x86dd);
    assert_eq!(ethertype_of_word(0x3412), 0x1234);
    assert_eq!(ethertype_of_word(0), 0);
    assert_eq!(ethertype_of_word(0xffff), 0xffff);
    assert_eq!(ethertype_of_word(0x00ff), 0xff00);
    assert_eq!(ETHERTYPE_OFFSET, 12);
    assert_eq!(ETHERNET_HEADER_SIZE, 14);
}

#[test]
fn only_ipv4_is_forwarded() {
    assert_eq!(ETHERTYPE_IPV4, 0x0800);
    assert_eq!(ETHERTYPE_ARP, 0x0806);
    assert_eq!(ETHERTYPE_IPV6, 0x86dd);
    assert_eq!(verdict(ETHERTYPE_IPV4), Verdict::Forward);
    assert_eq!(verdict(ETHERTYPE_ARP), Verdict::Drop);
    assert_eq!(verdict(ETHERTYPE_IPV6), Verdict::Drop);
    assert_eq!(verdict(0x0008), Verdict::Drop);
    assert_eq!(verdict(0x88cc), Verdict::Drop);
    assert_eq!(verdict(0), Verdict::Drop);
    assert_eq!(verdict(0x0801), Verdict::Drop);
}

#[test]
fn ethertype_needs_24_bytes_written_into_24_bytes() {
    assert!(holds_ethertype(Span { address: 0x4600_8000, len: 4096 }, 74));
    assert!(holds_ethertype(Span { address: 0x4600_8000, len: 4096 }, 24));
    assert!(!holds_ethertype(Span { address: 0x4600_8000, len: 4096 }, 23));
    assert!(!holds_ethertype(Span { address: 0x4600_8000, len: 4096 }, 10));
    assert!(!holds_ethertype(Span { address: 0x4600_8000, len: 4096 }, 0));
    assert!(holds_ethertype(Span { address: 0x4600_8000, len: 24 }, 24));
    assert!(!holds_ethertype(Span { address: 0x4600_8000, len: 23 }, 24));
    assert!(!holds_ethertype(Span { address: 0x4600_8000, len: 0 }, 4096));
    assert!(holds_ethertype(Span { address: usize::MAX as u64 - 24, len: 24 }, 24));
    assert!(!holds_ethertype(Span { address: usize::MAX as u64 - 23, len: 24 }, 24));
}

#[test]
fn header_fields_are_little_endian() {
    let bytes: [u8; 12] = [0x01, 0x02, 0x34, 0x12, 0x78, 0x56, 0xbc, 0x9a, 0xf0, 0xde, 0xaa, 0xbb];
    assert_eq!(NET_HEADER_SIZE, 10);
    assert_eq!(
        RawVirtioNetHeaderShort::from_bytes(&bytes),
        RawVirtioNetHeaderShort {
            flags: 0x01,
            gso_type: 0x02,
            hdr_len: 0x1234,
            gso_size: 0x5678,
            csum_start: 0x9abc,
            csum_offset: 0xdef0,
        }
    );
    assert_eq!(
        RawVirtioNetHeaderShort::from_bytes(&[0xff; 10]),
        RawVirtioNetHeaderShort {
            flags: 0xff,
            gso_type: 0xff,
            hdr_len: 0xffff,
            gso_size: 0xffff,
            csum_start: 0xffff,
            csum_offset: 0xffff,
        }
    );
}
