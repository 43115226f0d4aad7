use vstd::prelude::*;
use vstd::arithmetic::power2::pow2;
use crate::access::Access;
use crate::errors::MemoryReservationError;
use crate::memory_handle::{lemma_round_up, round_up, MemoryHandle};
use crate::virtqueue_network::{RawVirtioNetHeaderShortPointer, Span, NET_HEADER_SIZE};

verus! {

/// Alignment of the used ring, as a mask: one less than the page size that the
/// device is told.
pub const MMIO_QUEUE_ALIGN: usize = 4095;

/// Size in bytes of the buffer behind every descriptor.
pub const BUFFER_SIZE: u32 = 4096;

/// Size in bytes of one entry of the descriptor table.
pub const DESCRIPTOR_SIZE: usize = 16;

/// Size in bytes of one element of the used ring.
pub const USED_ELEMENT_SIZE: usize = 8;

/// Whether `mask` is one less than a power of two.
pub open spec fn is_alignment_mask(mask: usize) -> bool {
    exists|k: nat| k < usize::BITS && mask + 1 == #[trigger] pow2(k)
}

/// Offset of the available ring: it follows the `queue_size` descriptors.
pub open spec fn spec_available_ring_offset(queue_size: int) -> int {
    16 * queue_size
}

/// Offset of the used ring: the end of the available ring (three 16-bit
/// words and one per slot), rounded up to the alignment.
pub open spec fn spec_used_ring_offset(queue_size: int, queue_align: int) -> int {
    round_up(16 * queue_size + 2 * (3 + queue_size), queue_align + 1)
}

/// Size of a whole queue: the used ring (three 16-bit words and eight bytes
/// per slot) rounded up as well.
pub open spec fn spec_virtqueue_size(queue_size: int, queue_align: int) -> int {
    spec_used_ring_offset(queue_size, queue_align) + round_up(
        2 * 3 + 8 * queue_size,
        queue_align + 1,
    )
}

/// Clearing the low bits of `x + (m - 1)` rounds `x` up to a multiple of `m`.
proof fn lemma_round_up_by_remainder(x: int, m: int)
    requires
        m >= 1,
    ensures
        (x + m - 1) - (x + m - 1) % m == round_up(x, m),
{
    vstd::arithmetic::div_mod::lemma_fundamental_div_mod(x, m);
    let q = x / m;
    let e = x % m;
    if e == 0 {
        assert(x + m - 1 == q * m + (m - 1)) by (nonlinear_arith)
            requires
                x == m * q + e,
                e == 0,
        ;
        vstd::arithmetic::div_mod::lemma_fundamental_div_mod_converse(x + m - 1, m, q, m - 1);
    } else {
        assert(x + m - 1 == (q + 1) * m + (e - 1)) by (nonlinear_arith)
            requires
                x == m * q + e,
        ;
        vstd::arithmetic::div_mod::lemma_fundamental_div_mod_converse(
            x + m - 1,
            m,
            q + 1,
            e - 1,
        );
    }
}

/// Rounds `x` up to the next multiple of `queue_align + 1`.
#[verifier::rlimit(30)]
pub fn align(x: usize, queue_align: usize) -> (r: usize)
    requires
        is_alignment_mask(queue_align),
        x + queue_align <= usize::MAX,
    ensures
        r == round_up(x as int, queue_align + 1),
        r == (x + queue_align) as usize & !queue_align,
{
    let y: usize = x + queue_align;
    proof {
        let k = choose|k: nat| k < usize::BITS && queue_align + 1 == #[trigger] pow2(k);
        assert(y & !queue_align == y - (y & queue_align)) by (bit_vector);
        vstd::bits::lemma_usize_pow2_no_overflow(k);
        vstd::bits::lemma_usize_low_bits_mask_is_mod(y, k);
        assert(vstd::bits::low_bits_mask(k) as usize == queue_align);
        lemma_round_up_by_remainder(x as int, queue_align + 1);
    }
    y & !queue_align
}

/// Offset of the available ring in a queue of `queue_size` descriptors.
pub fn available_ring_offset(queue_size: usize) -> (r: usize)
    requires
        16 * queue_size <= usize::MAX,
    ensures
        r == spec_available_ring_offset(queue_size as int),
{
    0x10 * queue_size
}

/// Offset of the used ring in a queue of `queue_size` descriptors whose used
/// ring is aligned to `queue_align + 1` bytes.
pub fn used_ring_offset(queue_size: usize, queue_align: usize) -> (r: usize)
    requires
        is_alignment_mask(queue_align),
        18 * queue_size + 6 + queue_align <= usize::MAX,
    ensures
        r == spec_used_ring_offset(queue_size as int, queue_align as int),
{
    align(0x10 * queue_size + 2 * (3 + queue_size), queue_align)
}

/// Size in bytes of a queue of `queue_size` descriptors whose used ring is
/// aligned to `queue_align + 1` bytes.
pub fn virtqueue_size(queue_size: usize, queue_align: usize) -> (r: usize)
    requires
        is_alignment_mask(queue_align),
        26 * queue_size + 12 + 2 * queue_align <= usize::MAX,
    ensures
        r == spec_virtqueue_size(queue_size as int, queue_align as int),
{
    proof {
        lemma_round_up(18 * queue_size + 6, queue_align + 1);
        lemma_round_up(8 * queue_size + 6, queue_align + 1);
    }
    align(0x10 * queue_size + 2 * (3 + queue_size), queue_align) + align(
        2 * 3 + 8 * queue_size,
        queue_align,
    )
}

/// Where one entry of the descriptor table lies. The entry is 16 bytes,
/// little-endian: the buffer's address (64 bits), its length (32 bits), the
/// flags (16 bits) and the index of the next entry of a chain (16 bits).
#[derive(Clone, Copy, Debug)]
pub struct RawVirtQueueDescriptorPointer {
    ptr: usize,
}

impl RawVirtQueueDescriptorPointer {
    /// Address of the entry's first byte.
    pub closed spec fn address(&self) -> usize {
        self.ptr
    }

    /// The entry lies inside the address space.
    pub open spec fn wf(&self) -> bool {
        self.address() + DESCRIPTOR_SIZE <= usize::MAX
    }

    /// The load that reads the buffer's address.
    pub fn get_addr(&self) -> (r: Access)
        ensures
            r == (Access::Load64 { addr: self.address() }),
    {
        Access::Load64 { addr: self.ptr }
    }

    /// The load that reads the buffer's length.
    pub fn get_len(&self) -> (r: Access)
        requires
            self.wf(),
        ensures
            r == (Access::Load32 { addr: (self.address() + 8) as usize }),
    {
        Access::Load32 { addr: self.ptr + 8 }
    }

    /// The store that sets the buffer's address.
    pub fn set_addr(&self, addr: u64) -> (r: Access)
        ensures
            r == (Access::Store64 { addr: self.address(), value: addr }),
    {
        Access::Store64 { addr: self.ptr, value: addr }
    }

    /// The store that sets the buffer's length.
    pub fn set_len(&self, len: u32) -> (r: Access)
        requires
            self.wf(),
        ensures
            r == (Access::Store32 { addr: (self.address() + 8) as usize, value: len }),
    {
        Access::Store32 { addr: self.ptr + 8, value: len }
    }

    /// The store that sets the flags.
    pub fn set_flags(&self, flags: u16) -> (r: Access)
        requires
            self.wf(),
        ensures
            r == (Access::Store16 { addr: (self.address() + 12) as usize, value: flags }),
    {
        Access::Store16 { addr: self.ptr + 12, value: flags }
    }

    /// The store that sets the index of the next entry of the chain.
    pub fn set_next(&self, next: u16) -> (r: Access)
        requires
            self.wf(),
        ensures
            r == (Access::Store16 { addr: (self.address() + 14) as usize, value: next }),
    {
        Access::Store16 { addr: self.ptr + 14, value: next }
    }
}

/// Where one element of the used ring lies. The element is 8 bytes,
/// little-endian: the index of the descriptor that the device is done with
/// (32 bits) and the number of bytes it wrote (32 bits).
#[derive(Clone, Copy, Debug)]
pub struct RawVirtQueueUsedElementPointer {
    ptr: usize,
}

impl RawVirtQueueUsedElementPointer {
    /// Address of the element's first byte.
    pub closed spec fn address(&self) -> usize {
        self.ptr
    }

    /// The element lies inside the address space.
    pub open spec fn wf(&self) -> bool {
        self.address() + USED_ELEMENT_SIZE <= usize::MAX
    }

    /// The load that reads the descriptor index.
    pub fn get_id(&self) -> (r: Access)
        ensures
            r == (Access::Load32 { addr: self.address() }),
    {
        Access::Load32 { addr: self.ptr }
    }

    /// The load that reads the number of bytes that the device wrote into
    /// the buffer.
    pub fn get_len(&self) -> (r: Access)
        requires
            self.wf(),
        ensures
            r == (Access::Load32 { addr: (self.address() + 4) as usize }),
    {
        Access::Load32 { addr: self.ptr + 4 }
    }
}

/// The counter after `idx` in a free-running 16-bit ring index.
pub open spec fn next_index(idx: u16) -> u16 {
    if idx == u16::MAX {
        0
    } else {
        (idx + 1) as u16
    }
}

/// The ring through which the driver hands descriptors to the device: a
/// flags word, the index word, then one 16-bit slot per descriptor.
#[derive(Debug)]
pub struct AvailableRingHandle {
    queue_size: usize,
    flags: usize,
}

impl AvailableRingHandle {
    /// Address of the ring's first byte, the flags word.
    pub closed spec fn address(&self) -> usize {
        self.flags
    }

    /// Number of slots.
    pub closed spec fn queue_size(&self) -> usize {
        self.queue_size
    }

    /// The ring has between 1 and 65535 slots, and all of it lies inside the
    /// address space.
    pub open spec fn wf(&self) -> bool {
        &&& 0 < self.queue_size() <= u16::MAX
        &&& self.slot_address(self.queue_size() as int) <= usize::MAX
    }

    /// Address of the index word.
    pub open spec fn idx_address(&self) -> int {
        self.address() + 2
    }

    /// Address of slot `slot`.
    pub open spec fn slot_address(&self, slot: int) -> int {
        self.address() + 4 + 2 * slot
    }

    /// What publishing `descriptor_idx` asks of the machine when the index
    /// word holds `idx`: the slot is written, then, behind a barrier, the
    /// index is moved past it.
    pub open spec fn advance_accesses(&self, idx: u16, descriptor_idx: u16) -> Seq<Access> {
        seq![
            Access::Store16 {
                addr: self.slot_address(idx as int % self.queue_size() as int) as usize,
                value: descriptor_idx,
            },
            Access::Fence,
            Access::Store16 { addr: self.idx_address() as usize, value: next_index(idx) },
            Access::Fence,
        ]
    }

    /// The available ring of `queue_size` slots at `address`.
    pub fn from_address(address: usize, queue_size: usize) -> (r: AvailableRingHandle)
        requires
            0 < queue_size <= u16::MAX,
            address + 4 + 2 * queue_size <= usize::MAX,
        ensures
            r.wf(),
            r.address() == address,
            r.queue_size() == queue_size,
    {
        AvailableRingHandle { queue_size, flags: address }
    }

    /// The load that reads the index word.
    pub fn idx(&self) -> (r: Access)
        requires
            self.wf(),
        ensures
            r == (Access::Load16 { addr: self.idx_address() as usize }),
    {
        Access::Load16 { addr: self.flags + 2 }
    }

    /// Publishes `descriptor_idx` in the slot that the index word, read as
    /// `idx`, points at.
    pub fn advance(&self, idx: u16, descriptor_idx: u16) -> (r: Vec<Access>)
        requires
            self.wf(),
            descriptor_idx < self.queue_size(),
        ensures
            r@ == self.advance_accesses(idx, descriptor_idx),
    {
        let slot: usize = (idx % (self.queue_size as u16)) as usize;
        let mut accesses: Vec<Access> = Vec::new();
        accesses.push(Access::Store16 { addr: self.flags + 4 + 2 * slot, value: descriptor_idx });
        accesses.push(Access::Fence);
        accesses.push(Access::Store16 { addr: self.flags + 2, value: idx.wrapping_add(1) });
        accesses.push(Access::Fence);
        proof {
            assert(accesses@ =~= self.advance_accesses(idx, descriptor_idx));
        }
        accesses
    }
}

/// The ring through which the device hands descriptors back: a flags word,
/// the index word, then one 8-byte element per descriptor. The handle
/// remembers how far the driver has read.
#[derive(Debug)]
pub struct UsedRingHandle {
    queue_size: usize,
    flags: usize,
    last_seen_idx: u16,
}

impl UsedRingHandle {
    /// Address of the ring's first byte, the flags word.
    pub closed spec fn address(&self) -> usize {
        self.flags
    }

    /// Number of elements.
    pub closed spec fn queue_size(&self) -> usize {
        self.queue_size
    }

    /// Value of the index word up to which the driver has taken elements.
    pub closed spec fn last_seen_idx(&self) -> u16 {
        self.last_seen_idx
    }

    /// The ring has between 1 and 65535 elements, and all of it lies inside
    /// the address space.
    pub open spec fn wf(&self) -> bool {
        &&& 0 < self.queue_size() <= u16::MAX
        &&& self.slot_address(self.queue_size() as int) <= usize::MAX
    }

    /// Address of the index word.
    pub open spec fn idx_address(&self) -> int {
        self.address() + 2
    }

    /// Address of element `slot`.
    pub open spec fn slot_address(&self, slot: int) -> int {
        self.address() + 4 + 8 * slot
    }

    /// Whether the device, whose index word was read as `used_idx`, has
    /// handed back an element that the driver has not taken yet.
    pub open spec fn pending(&self, used_idx: u16) -> bool {
        used_idx != self.last_seen_idx()
    }

    /// The used ring of `queue_size` elements at `address`, none of them
    /// taken yet.
    pub fn from_address(address: usize, queue_size: usize) -> (r: UsedRingHandle)
        requires
            0 < queue_size <= u16::MAX,
            address + 4 + 8 * queue_size <= usize::MAX,
        ensures
            r.wf(),
            r.address() == address,
            r.queue_size() == queue_size,
            r.last_seen_idx() == 0,
    {
        UsedRingHandle { queue_size, flags: address, last_seen_idx: 0 }
    }

    /// The load that reads the index word.
    pub fn idx(&self) -> (r: Access)
        requires
            self.wf(),
        ensures
            r == (Access::Load16 { addr: self.idx_address() as usize }),
    {
        Access::Load16 { addr: self.flags + 2 }
    }

    /// The element that the driver takes next, where the device, whose index
    /// word was read as `used_idx`, has handed one back.
    pub fn peek(&self, used_idx: u16) -> (r: Option<RawVirtQueueUsedElementPointer>)
        requires
            self.wf(),
        ensures
            r is Some <==> self.pending(used_idx),
            r matches Some(element) ==> {
                &&& element.wf()
                &&& element.address() == self.slot_address(
                    self.last_seen_idx() as int % self.queue_size() as int,
                )
            },
    {
        if self.last_seen_idx != used_idx {
            let slot: usize = (self.last_seen_idx % (self.queue_size as u16)) as usize;
            Some(
                RawVirtQueueUsedElementPointer { ptr: self.flags + 4 + slot * USED_ELEMENT_SIZE },
            )
        } else {
            None
        }
    }

    /// Takes the next element if the device has handed one back. `used_idx`
    /// is what the index word held and `used_id` what the descriptor index of
    /// the element of `peek` held after that; it is not looked at where there
    /// is no element. An index that the device made up is not refused: the
    /// result is `used_id` reduced modulo the queue size.
    pub fn try_remove(&mut self, used_idx: u16, used_id: u32) -> (r: Option<u16>)
        requires
            old(self).wf(),
        ensures
            final(self).wf(),
            final(self).address() == old(self).address(),
            final(self).queue_size() == old(self).queue_size(),
            !old(self).pending(used_idx) ==> r is None && *final(self) == *old(self),
            old(self).pending(used_idx) ==> {
                &&& r == Some((used_id as int % old(self).queue_size() as int) as u16)
                &&& final(self).last_seen_idx() == next_index(old(self).last_seen_idx())
            },
    {
        if self.last_seen_idx != used_idx {
            self.last_seen_idx = self.last_seen_idx.wrapping_add(1);
            Some((used_id % (self.queue_size as u32)) as u16)
        } else {
            None
        }
    }
}

/// A descriptor that the device has handed back, with its place in the table.
#[derive(Clone, Copy, Debug)]
pub struct VirtQueueElement {
    /// Where the descriptor lies.
    pub desc: RawVirtQueueDescriptorPointer,
    /// Its index in the descriptor table.
    pub desc_idx: u16,
}

impl VirtQueueElement {
    /// Reads the element's buffer as a network packet: the header is its
    /// first ten bytes, the frame is all that follows. `buffer` is what the
    /// element's descriptor names.
    pub fn as_network_packet(&self, buffer: Span) -> (r: (RawVirtioNetHeaderShortPointer, Span))
        requires
            buffer.len >= NET_HEADER_SIZE,
            buffer.address + NET_HEADER_SIZE <= u64::MAX,
        ensures
            r.0.address() == buffer.address,
            r.1.address == buffer.address + NET_HEADER_SIZE,
            r.1.len == buffer.len - NET_HEADER_SIZE,
    {
        self.desc.as_network_packet(buffer)
    }

    /// The copy that fills `buffer`, the buffer of this element, with the
    /// bytes at the start of `source`, the buffer of another. The length of
    /// this element's buffer is the number of bytes copied.
    pub fn copy_from(&self, buffer: Span, source: Span) -> (r: Access)
        requires
            buffer.len <= source.len,
            buffer.address + buffer.len <= usize::MAX,
            source.address + buffer.len <= usize::MAX,
        ensures
            r == (Access::Copy {
                dst: buffer.address as usize,
                src: source.address as usize,
                len: buffer.len as usize,
            }),
    {
        Access::Copy {
            dst: buffer.address as usize,
            src: source.address as usize,
            len: buffer.len as usize,
        }
    }
}

/// What a fresh queue asks of the machine before the device may use it.
#[derive(Debug)]
pub struct QueueSetup {
    /// Clears the queue's memory and fills the descriptor table. To be
    /// performed before the device is told where the queue lies.
    pub populate: Vec<Access>,
    /// Hands every descriptor to the device. To be performed after the
    /// device was told where the queue lies.
    pub publish: Vec<Access>,
}

/// One split virtqueue: the descriptor table, the available ring and the used
/// ring in one region, and one buffer per descriptor behind it.
///
/// A descriptor and its buffer are the device's from the offer that puts the
/// descriptor into the available ring until the driver takes it from the
/// used ring, and the driver's otherwise. The handle keeps count of those
/// that are the driver's.
pub struct VirtQueueHandle {
    base_address: usize,
    queue_size: usize,
    descriptor_table: usize,
    available_ring: AvailableRingHandle,
    used_ring: UsedRingHandle,
    owned: Ghost<Set<u16>>,
}

/// The flag of a descriptor whose buffer the device writes.
pub const DESCRIPTOR_FLAG_WRITE: u16 = 2;

/// What filling the descriptor table asks of the machine depends on where
/// the queue lies, not on which descriptors are the driver's.
proof fn lemma_populate_of_same_layout(
    first: VirtQueueHandle,
    second: VirtQueueHandle,
    receive: bool,
    n: nat,
)
    requires
        first.base_address() == second.base_address(),
        first.table_address() == second.table_address(),
        first.queue_size() == second.queue_size(),
    ensures
        first.populate_accesses(receive, n) == second.populate_accesses(receive, n),
    decreases n,
{
    if n > 0 {
        lemma_populate_of_same_layout(first, second, receive, (n - 1) as nat);
    }
}

/// What offering asks of the machine depends on where the available ring
/// lies, not on which descriptors are the driver's.
proof fn lemma_accesses_of_same_rings(first: VirtQueueHandle, second: VirtQueueHandle, n: nat)
    requires
        first.available() == second.available(),
    ensures
        first.pre_offer_accesses(n) == second.pre_offer_accesses(n),
    decreases n,
{
    if n > 0 {
        lemma_accesses_of_same_rings(first, second, (n - 1) as nat);
    }
}

/// 4095 is one less than 2 to the 12th.
pub proof fn lemma_queue_align_is_mask()
    ensures
        is_alignment_mask(MMIO_QUEUE_ALIGN),
{
    vstd::arithmetic::power2::lemma2_to64();
    assert(12 < usize::BITS && MMIO_QUEUE_ALIGN + 1 == pow2(12));
}

impl VirtQueueHandle {
    pub closed spec fn spec_base_address(&self) -> usize {
        self.base_address
    }

    /// Number of descriptors.
    pub closed spec fn queue_size(&self) -> usize {
        self.queue_size
    }

    /// Address of the descriptor table.
    pub closed spec fn table_address(&self) -> usize {
        self.descriptor_table
    }

    /// The available ring.
    pub closed spec fn available(&self) -> AvailableRingHandle {
        self.available_ring
    }

    /// The used ring.
    pub closed spec fn used(&self) -> UsedRingHandle {
        self.used_ring
    }

    /// The descriptors that are the driver's: those that it has taken and not
    /// offered again.
    pub closed spec fn owned(&self) -> Set<u16> {
        self.owned@
    }

    /// The three parts lie where the layout puts them, all with the same
    /// number of entries, and the region lies inside the address space.
    pub open spec fn wf(&self) -> bool {
        &&& 0 < self.queue_size() <= u16::MAX
        &&& self.available().wf()
        &&& self.used().wf()
        &&& self.available().queue_size() == self.queue_size()
        &&& self.used().queue_size() == self.queue_size()
        &&& self.table_address() == self.base_address()
        &&& self.available().address() == self.base_address() + spec_available_ring_offset(
            self.queue_size() as int,
        )
        &&& self.used().address() == self.base_address() + spec_used_ring_offset(
            self.queue_size() as int,
            MMIO_QUEUE_ALIGN as int,
        )
        &&& self.base_address() + spec_virtqueue_size(
            self.queue_size() as int,
            MMIO_QUEUE_ALIGN as int,
        ) <= usize::MAX
        &&& forall|d: u16| self.owned().contains(d) ==> d < self.queue_size()
    }

    /// Whether `after` is this queue after the driver has taken descriptor
    /// `desc_idx` from its used ring.
    pub open spec fn took(&self, after: &VirtQueueHandle, desc_idx: u16) -> bool {
        &&& after.wf()
        &&& after.base_address() == self.base_address()
        &&& after.queue_size() == self.queue_size()
        &&& after.available() == self.available()
        &&& after.used().last_seen_idx() == next_index(self.used().last_seen_idx())
        &&& after.owned() == self.owned().insert(desc_idx)
    }

    /// Whether `after` is this queue after the driver has offered descriptor
    /// `desc_idx`.
    pub open spec fn offered(&self, after: &VirtQueueHandle, desc_idx: u16) -> bool {
        &&& after.wf()
        &&& after.base_address() == self.base_address()
        &&& after.queue_size() == self.queue_size()
        &&& after.available() == self.available()
        &&& after.used() == self.used()
        &&& after.owned() == self.owned().remove(desc_idx)
    }

    /// Address of descriptor `idx`.
    pub open spec fn descriptor_address(&self, idx: int) -> int {
        self.table_address() + 16 * idx
    }

    /// Address of the first buffer: the buffers follow the queue's region.
    pub open spec fn buffers_address(&self) -> int {
        self.base_address() + spec_virtqueue_size(self.queue_size() as int, MMIO_QUEUE_ALIGN as int)
    }

    /// Address of the buffer of descriptor `idx`.
    pub open spec fn buffer_address(&self, idx: int) -> int {
        self.buffers_address() + BUFFER_SIZE * idx
    }

    /// Number of bytes that a queue of `queue_size` descriptors takes from
    /// the arena: its region and its buffers.
    pub open spec fn footprint(queue_size: usize) -> int {
        spec_virtqueue_size(queue_size as int, MMIO_QUEUE_ALIGN as int) + BUFFER_SIZE * queue_size
    }

    /// The four stores that write descriptor `idx`, field by field.
    pub open spec fn descriptor_accesses(
        &self,
        idx: u16,
        addr: u64,
        len: u32,
        flags: u16,
        next: u16,
    ) -> Seq<Access> {
        seq![
            Access::Store64 { addr: self.descriptor_address(idx as int) as usize, value: addr },
            Access::Store32 {
                addr: (self.descriptor_address(idx as int) + 8) as usize,
                value: len,
            },
            Access::Store16 {
                addr: (self.descriptor_address(idx as int) + 12) as usize,
                value: flags,
            },
            Access::Store16 {
                addr: (self.descriptor_address(idx as int) + 14) as usize,
                value: next,
            },
        ]
    }

    /// Flags of every descriptor of a queue.
    pub open spec fn descriptor_flags(receive: bool) -> u16 {
        if receive {
            DESCRIPTOR_FLAG_WRITE
        } else {
            0
        }
    }

    /// Clearing the region, then writing the first `n` descriptors: each
    /// points at its own buffer, with the buffer's size, and chains to none.
    pub open spec fn populate_accesses(&self, receive: bool, n: nat) -> Seq<Access>
        decreases n,
    {
        if n == 0 {
            seq![
                Access::Zero {
                    addr: self.base_address(),
                    len: spec_virtqueue_size(
                        self.queue_size() as int,
                        MMIO_QUEUE_ALIGN as int,
                    ) as usize,
                },
            ]
        } else {
            self.populate_accesses(receive, (n - 1) as nat) + self.descriptor_accesses(
                (n - 1) as u16,
                self.buffer_address(n - 1) as u64,
                BUFFER_SIZE,
                Self::descriptor_flags(receive),
                0,
            )
        }
    }

    /// What the driver performs first to see whether the device has handed a
    /// descriptor back: a barrier, then the load of the used ring's index
    /// word.
    pub open spec fn poll_accesses(&self) -> Seq<Access> {
        seq![Access::Fence, Access::Load16 { addr: self.used().idx_address() as usize }]
    }

    /// Address of the element of the used ring that the driver takes next.
    pub open spec fn pending_address(&self) -> int {
        self.used().slot_address(self.used().last_seen_idx() as int % self.queue_size() as int)
    }

    /// What handing descriptor `desc_idx` to the device asks of the machine
    /// when the available ring's index word holds `avail_idx`: a barrier,
    /// then the slot, a barrier, the index, a barrier.
    pub open spec fn offer_accesses(&self, avail_idx: u16, desc_idx: u16) -> Seq<Access> {
        seq![Access::Fence] + self.available().advance_accesses(avail_idx, desc_idx)
    }

    /// Handing the first `n` descriptors to the device, in order, on a ring
    /// whose index word starts at zero.
    pub open spec fn pre_offer_accesses(&self, n: nat) -> Seq<Access>
        decreases n,
    {
        if n == 0 {
            Seq::empty()
        } else {
            self.pre_offer_accesses((n - 1) as nat) + self.offer_accesses(
                (n - 1) as u16,
                (n - 1) as u16,
            )
        }
    }

    /// Takes a queue of `queue_size` descriptors and their buffers from the
    /// arena, or nothing at all where the arena has no room for both.
    #[verifier::rlimit(50)]
    pub fn new(queue_size: usize, memory: &mut MemoryHandle, receive: bool) -> (r: Result<
        (VirtQueueHandle, QueueSetup),
        MemoryReservationError,
    >)
        requires
            old(memory).wf(),
            0 < queue_size <= u16::MAX,
        ensures
            final(memory).wf(),
            r is Ok <==> old(memory).has_room(Self::footprint(queue_size) as usize, 16),
            r matches Ok((queue, setup)) ==> {
                &&& queue.wf()
                &&& queue.queue_size() == queue_size
                &&& queue.base_address() == old(memory).next_address(16)
                &&& queue.used().last_seen_idx() == 0
                &&& queue.owned() == Set::<u16>::empty()
                &&& old(memory).allocated(final(memory), Self::footprint(queue_size) as usize, 16)
                &&& setup.populate@ == queue.populate_accesses(receive, queue_size as nat)
                &&& setup.publish@ == queue.pre_offer_accesses(queue_size as nat).push(
                    Access::Fence,
                )
            },
            r matches Err(e) ==> {
                &&& e == MemoryReservationError::MemoryExhausted
                &&& *final(memory) == *old(memory)
            },
    {
        proof {
            lemma_queue_align_is_mask();
            lemma_round_up(18 * queue_size + 6, MMIO_QUEUE_ALIGN + 1);
            lemma_round_up(8 * queue_size + 6, MMIO_QUEUE_ALIGN + 1);
            lemma_round_up(memory.base() + memory.cursor(), 16);
        }
        let total_size: usize = virtqueue_size(queue_size, MMIO_QUEUE_ALIGN);
        let buffer_size: usize = BUFFER_SIZE as usize;
        let footprint: usize = total_size + queue_size * buffer_size;
        if !memory.fits(footprint, 16) {
            return Err(MemoryReservationError::MemoryExhausted);
        }
        let virtqueue_address: usize = memory.allocate(total_size, 16).unwrap();
        let mut virtqueue = VirtQueueHandle {
            base_address: virtqueue_address,
            queue_size,
            descriptor_table: virtqueue_address,
            available_ring: AvailableRingHandle::from_address(
                virtqueue_address + available_ring_offset(queue_size),
                queue_size,
            ),
            used_ring: UsedRingHandle::from_address(
                virtqueue_address + used_ring_offset(queue_size, MMIO_QUEUE_ALIGN),
                queue_size,
            ),
            owned: Ghost(Set::new(|d: u16| d < queue_size)),
        };
        let ghost fresh = virtqueue;
        let mut populate: Vec<Access> = Vec::new();
        populate.push(Access::Zero { addr: virtqueue_address, len: total_size });
        let mut i: usize = 0;
        while i < queue_size
            invariant
                i <= queue_size,
                queue_size <= u16::MAX,
                virtqueue.wf(),
                virtqueue.queue_size() == queue_size,
                virtqueue.buffers_address() % 16 == 0,
                memory.wf(),
                memory.base() == old(memory).base(),
                memory.capacity() == old(memory).capacity(),
                memory.base() + memory.cursor() == virtqueue.buffer_address(i as int),
                virtqueue.buffer_address(queue_size as int) <= memory.base() + memory.capacity(),
                virtqueue.buffer_address(queue_size as int) <= usize::MAX,
                populate@ == virtqueue.populate_accesses(receive, i as nat),
                virtqueue == fresh,
            decreases queue_size - i,
        {
            let mut writes = virtqueue.describe_buffer(memory, i as u16, receive);
            populate.append(&mut writes);
            i += 1;
        }
        let mut publish: Vec<Access> = Vec::new();
        let mut i: usize = 0;
        while i < queue_size
            invariant
                i <= queue_size,
                queue_size <= u16::MAX,
                virtqueue.wf(),
                virtqueue.queue_size() == queue_size,
                virtqueue.base_address() == fresh.base_address(),
                virtqueue.available() == fresh.available(),
                virtqueue.used() == fresh.used(),
                virtqueue.owned() == Set::new(|d: u16| i <= d < queue_size),
                publish@ == virtqueue.pre_offer_accesses(i as nat),
            decreases queue_size - i,
        {
            let ghost before = virtqueue;
            let mut offer = virtqueue.offer(i as u16, i as u16);
            publish.append(&mut offer);
            i += 1;
            proof {
                assert(virtqueue.owned() =~= Set::new(|d: u16| i <= d < queue_size));
                assert(virtqueue.pre_offer_accesses(i as nat) == before.pre_offer_accesses(
                    i as nat,
                )) by {
                    lemma_accesses_of_same_rings(before, virtqueue, i as nat);
                }
            }
        }
        publish.push(Access::Fence);
        proof {
            assert(virtqueue.owned() =~= Set::<u16>::empty());
            lemma_populate_of_same_layout(fresh, virtqueue, receive, queue_size as nat);
        }
        Ok((virtqueue, QueueSetup { populate, publish }))
    }

    /// Takes the buffer of descriptor `idx` from the arena, whose cursor
    /// stands where that buffer belongs, and gives the stores that write the
    /// descriptor.
    #[verifier::rlimit(50)]
    fn describe_buffer(&self, memory: &mut MemoryHandle, idx: u16, receive: bool) -> (r: Vec<
        Access,
    >)
        requires
            self.wf(),
            idx < self.queue_size(),
            old(memory).wf(),
            old(memory).base() + old(memory).cursor() == self.buffer_address(idx as int),
            self.buffers_address() % 16 == 0,
            self.buffer_address(idx + 1) <= old(memory).base() + old(memory).capacity(),
            self.buffer_address(idx + 1) <= usize::MAX,
        ensures
            final(memory).wf(),
            final(memory).base() == old(memory).base(),
            final(memory).capacity() == old(memory).capacity(),
            final(memory).base() + final(memory).cursor() == self.buffer_address(idx + 1),
            r@ == self.descriptor_accesses(
                idx,
                self.buffer_address(idx as int) as u64,
                BUFFER_SIZE,
                Self::descriptor_flags(receive),
                0,
            ),
    {
        proof {
            let at = self.buffer_address(idx as int);
            assert(at == 16 * (256 * idx) + self.buffers_address());
            vstd::arithmetic::div_mod::lemma_mod_multiples_vanish(
                256 * idx,
                self.buffers_address(),
                16,
            );
            assert(at % 16 == 0);
            assert(memory.next_address(16) == at);
            assert(memory.has_room(BUFFER_SIZE as usize, 16));
        }
        let descriptor_address: u64 = memory.allocate(BUFFER_SIZE as usize, 16).unwrap() as u64;
        let flags: u16 = if receive {
            DESCRIPTOR_FLAG_WRITE
        } else {
            0
        };
        self.update_descriptor(idx, descriptor_address, BUFFER_SIZE, flags, 0)
    }

    /// What to perform first; the value loaded is the `used_idx` of `pending`
    /// and of `try_take`.
    pub fn poll(&self) -> (r: Vec<Access>)
        requires
            self.wf(),
        ensures
            r@ == self.poll_accesses(),
    {
        let mut accesses: Vec<Access> = Vec::new();
        accesses.push(Access::Fence);
        accesses.push(self.used_ring.idx());
        proof {
            assert(accesses@ =~= self.poll_accesses());
        }
        accesses
    }

    /// The element to read next, where the device has handed a descriptor
    /// back: the value that its `get_id` loads is the `used_id` of
    /// `try_take`. Where the device has handed none back, nothing is to be
    /// read.
    pub fn pending(&self, used_idx: u16) -> (r: Option<RawVirtQueueUsedElementPointer>)
        requires
            self.wf(),
        ensures
            r is Some <==> self.used().pending(used_idx),
            r matches Some(element) ==> {
                &&& element.wf()
                &&& element.address() == self.pending_address()
            },
    {
        self.used_ring.peek(used_idx)
    }

    /// Takes the next descriptor that the device has handed back, if there is
    /// one. `used_idx` is the value that the accesses of `poll` loaded, the
    /// used ring's index word, and `used_id` the descriptor index that the
    /// element of `pending` holds; where there is no element, `used_id` is
    /// not looked at. An index that the device made up is not refused: it is
    /// reduced modulo the queue size.
    #[verifier::rlimit(30)]
    pub fn try_take(&mut self, used_idx: u16, used_id: u32) -> (r: Option<VirtQueueElement>)
        requires
            old(self).wf(),
        ensures
            final(self).wf(),
            !old(self).used().pending(used_idx) ==> r is None && *final(self) == *old(self),
            old(self).used().pending(used_idx) ==> {
                &&& r matches Some(element)
                &&& element.desc_idx == used_id as int % old(self).queue_size() as int
                &&& element.desc.wf()
                &&& element.desc.address() == old(self).descriptor_address(
                    element.desc_idx as int,
                )
                &&& old(self).took(final(self), element.desc_idx)
            },
    {
        if let Some(descriptor_idx) = self.used_ring.try_remove(used_idx, used_id) {
            proof {
                self.owned@ = self.owned@.insert(descriptor_idx);
                assert forall|d: u16| self.owned().contains(d) implies d < self.queue_size() by {
                    assert(d == descriptor_idx || old(self).owned().contains(d));
                }
            }
            let desc_ptr = self.get_descriptor(descriptor_idx);
            Some(VirtQueueElement { desc: desc_ptr, desc_idx: descriptor_idx })
        } else {
            None
        }
    }

    /// The load that reads the available ring's index word, which `offer`
    /// needs.
    pub fn available_idx(&self) -> (r: Access)
        requires
            self.wf(),
        ensures
            r == (Access::Load16 { addr: self.available().idx_address() as usize }),
    {
        self.available_ring.idx()
    }

    /// Hands descriptor `desc_idx`, which is the driver's, to the device,
    /// and says what that asks of the machine. `avail_idx` is what the
    /// available ring's index word holds.
    pub fn offer(&mut self, avail_idx: u16, desc_idx: u16) -> (r: Vec<Access>)
        requires
            old(self).wf(),
            old(self).owned().contains(desc_idx),
        ensures
            old(self).offered(final(self), desc_idx),
            r@ == old(self).offer_accesses(avail_idx, desc_idx),
    {
        let mut accesses: Vec<Access> = Vec::new();
        accesses.push(Access::Fence);
        let mut publication = self.available_ring.advance(avail_idx, desc_idx);
        accesses.append(&mut publication);
        proof {
            self.owned@ = self.owned@.remove(desc_idx);
        }
        accesses
    }

    /// Where descriptor `descriptor_idx` lies.
    pub fn get_descriptor(&self, descriptor_idx: u16) -> (r: RawVirtQueueDescriptorPointer)
        requires
            self.wf(),
            descriptor_idx < self.queue_size(),
        ensures
            r.wf(),
            r.address() == self.descriptor_address(descriptor_idx as int),
    {
        proof {
            lemma_round_up(18 * self.queue_size + 6, MMIO_QUEUE_ALIGN + 1);
            lemma_round_up(8 * self.queue_size + 6, MMIO_QUEUE_ALIGN + 1);
        }
        RawVirtQueueDescriptorPointer {
            ptr: self.descriptor_table + (descriptor_idx as usize * DESCRIPTOR_SIZE),
        }
    }

    /// The stores that write all four fields of descriptor `descriptor_idx`.
    pub fn update_descriptor(
        &self,
        descriptor_idx: u16,
        addr: u64,
        len: u32,
        flags: u16,
        next: u16,
    ) -> (r: Vec<Access>)
        requires
            self.wf(),
            descriptor_idx < self.queue_size(),
        ensures
            r@ == self.descriptor_accesses(descriptor_idx, addr, len, flags, next),
    {
        let descriptor_ptr = self.get_descriptor(descriptor_idx);
        let mut accesses: Vec<Access> = Vec::new();
        accesses.push(descriptor_ptr.set_addr(addr));
        accesses.push(descriptor_ptr.set_len(len));
        accesses.push(descriptor_ptr.set_flags(flags));
        accesses.push(descriptor_ptr.set_next(next));
        proof {
            assert(accesses@ =~= self.descriptor_accesses(descriptor_idx, addr, len, flags, next));
        }
        accesses
    }

    /// Address of the queue's first byte.
    #[verifier::when_used_as_spec(spec_base_address)]
    pub fn base_address(&self) -> (r: usize)
        ensures
            r == self.base_address(),
    {
        self.base_address
    }
}

} // verus!
