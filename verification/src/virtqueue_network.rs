use vstd::prelude::*;
use crate::access::from_le16;
use crate::virtqueue::RawVirtQueueDescriptorPointer;

verus! {

/// Size in bytes of the header that precedes the Ethernet frame in every
/// buffer.
pub const NET_HEADER_SIZE: usize = 10;

/// The short virtio-net header, decoded. In the buffer it is packed and
/// little-endian, its fields in this order.
#[derive(Clone, Copy, Debug, PartialEq, Eq, Structural)]
pub struct RawVirtioNetHeaderShort {
    pub flags: u8,
    pub gso_type: u8,
    pub hdr_len: u16,
    pub gso_size: u16,
    pub csum_start: u16,
    pub csum_offset: u16,
}

impl RawVirtioNetHeaderShort {
    /// The header that the first ten bytes of a buffer hold.
    pub open spec fn decode(bytes: Seq<u8>) -> RawVirtioNetHeaderShort {
        RawVirtioNetHeaderShort {
            flags: bytes[0],
            gso_type: bytes[1],
            hdr_len: from_le16(bytes.subrange(2, 4)),
            gso_size: from_le16(bytes.subrange(4, 6)),
            csum_start: from_le16(bytes.subrange(6, 8)),
            csum_offset: from_le16(bytes.subrange(8, 10)),
        }
    }

    /// Decodes the header at the start of `data`.
    pub fn from_bytes(data: &[u8]) -> (r: RawVirtioNetHeaderShort)
        requires
            data.len() >= NET_HEADER_SIZE,
        ensures
            r == Self::decode(data@),
    {
        RawVirtioNetHeaderShort {
            flags: data[0],
            gso_type: data[1],
            hdr_len: data[2] as u16 + 0x100 * (data[3] as u16),
            gso_size: data[4] as u16 + 0x100 * (data[5] as u16),
            csum_start: data[6] as u16 + 0x100 * (data[7] as u16),
            csum_offset: data[8] as u16 + 0x100 * (data[9] as u16),
        }
    }
}

/// Where the header of a buffer lies.
#[derive(Clone, Copy, Debug, PartialEq, Eq, Structural)]
pub struct RawVirtioNetHeaderShortPointer {
    address: u64,
}

impl RawVirtioNetHeaderShortPointer {
    pub closed spec fn spec_address(&self) -> u64 {
        self.address
    }

    /// Address of the header's first byte.
    #[verifier::when_used_as_spec(spec_address)]
    pub fn address(&self) -> (r: u64)
        ensures
            r == self.address(),
    {
        self.address
    }
}

/// A run of bytes in physical memory, as a descriptor names it.
#[derive(Clone, Copy, Debug, PartialEq, Eq, Structural)]
pub struct Span {
    pub address: u64,
    pub len: u32,
}

impl RawVirtQueueDescriptorPointer {
    /// The buffer of this descriptor: `address` and `len` are what the loads
    /// of `get_addr` and `get_len` gave.
    pub fn data(&self, address: u64, len: u32) -> (r: Span)
        ensures
            r == (Span { address, len }),
    {
        Span { address, len }
    }

    /// Reads the buffer of this descriptor as a network packet: the header
    /// is its first ten bytes, the frame is all that follows.
    pub fn as_network_packet(&self, buffer: Span) -> (r: (RawVirtioNetHeaderShortPointer, Span))
        requires
            buffer.len >= NET_HEADER_SIZE,
            buffer.address + NET_HEADER_SIZE <= u64::MAX,
        ensures
            r.0.address() == buffer.address,
            r.1.address == buffer.address + NET_HEADER_SIZE,
            r.1.len == buffer.len - NET_HEADER_SIZE,
    {
        let header = RawVirtioNetHeaderShortPointer { address: buffer.address };
        let frame = Span {
            address: buffer.address + NET_HEADER_SIZE as u64,
            len: buffer.len - NET_HEADER_SIZE as u32,
        };
        (header, frame)
    }
}

} // verus!
