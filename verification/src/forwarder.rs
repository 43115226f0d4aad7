use vstd::prelude::*;
use crate::access::{bytes_at, load16, Access, Memory};
use crate::virtio::{VirtioMMIONetworkDevice, RECEIVE_QUEUE, SEND_QUEUE};
use crate::virtio_device_register::Register;
use crate::virtqueue::VirtQueueElement;
use crate::virtqueue_network::{Span, NET_HEADER_SIZE};

verus! {

pub const ETHERTYPE_IPV4: u16 = 0x0800;

pub const ETHERTYPE_ARP: u16 = 0x0806;

pub const ETHERTYPE_IPV6: u16 = 0x86dd;

/// Size in bytes of the Ethernet header: two addresses of six bytes and the
/// EtherType.
pub const ETHERNET_HEADER_SIZE: usize = 14;

/// Offset of the EtherType in a frame.
pub const ETHERTYPE_OFFSET: usize = 12;

/// What becomes of a received frame.
#[derive(Clone, Copy, Debug, PartialEq, Eq, Structural)]
pub enum Verdict {
    /// The frame is copied to the other device.
    Forward,
    /// The frame is left alone.
    Drop,
}

/// The EtherType of a frame: bytes 12 and 13, the high byte first. A frame
/// too short to hold an Ethernet header has none.
pub open spec fn spec_ethertype(frame: Seq<u8>) -> Option<u16> {
    if frame.len() < ETHERNET_HEADER_SIZE {
        None
    } else {
        Some((frame[12] * 0x100 + frame[13]) as u16)
    }
}

pub open spec fn spec_ethertype_of_word(word: u16) -> u16 {
    (word % 0x100 * 0x100 + word / 0x100) as u16
}

/// The EtherType of a frame whose bytes 12 and 13, loaded as one
/// little-endian word, are `word`: the two bytes change places.
#[verifier::when_used_as_spec(spec_ethertype_of_word)]
pub fn ethertype_of_word(word: u16) -> (r: u16)
    ensures
        r == spec_ethertype_of_word(word),
{
    word % 0x100 * 0x100 + word / 0x100
}

pub open spec fn spec_verdict(ethertype: u16) -> Verdict {
    if ethertype == ETHERTYPE_IPV4 {
        Verdict::Forward
    } else {
        Verdict::Drop
    }
}

/// Only IPv4 frames are forwarded.
#[verifier::when_used_as_spec(spec_verdict)]
pub fn verdict(ethertype: u16) -> (r: Verdict)
    ensures
        r == spec_verdict(ethertype),
{
    if ethertype == ETHERTYPE_IPV4 {
        Verdict::Forward
    } else {
        Verdict::Drop
    }
}

/// The word that the forwarder loads at offset 12 of a frame gives the
/// EtherType of the frame as its bytes in memory spell it.
pub proof fn lemma_ethertype_of_frame(mem: Memory, frame: int, len: nat)
    requires
        len >= ETHERNET_HEADER_SIZE,
    ensures
        spec_ethertype(bytes_at(mem, frame, len)) == Some(
            ethertype_of_word(load16(mem, frame + ETHERTYPE_OFFSET)),
        ),
{
}

/// What the forwarder performs once, before its first round: the egress
/// device is told of its transmit queue, whose descriptors it then hands
/// back for the driver to fill.
pub fn start(egress: &VirtioMMIONetworkDevice) -> (r: Vec<Access>)
    requires
        egress.wf(),
    ensures
        r@ == seq![egress.register.set(Register::QueueNotify, SEND_QUEUE)],
{
    let mut accesses: Vec<Access> = Vec::new();
    accesses.push(egress.register.set(Register::QueueNotify, SEND_QUEUE));
    accesses
}

/// Gives a received buffer back to the ingress device: the descriptor is
/// offered on the receive queue, then the device is told of that queue.
/// `avail_idx` is what the index word of the queue's available ring holds.
pub fn recycle(ingress: &mut VirtioMMIONetworkDevice, avail_idx: u16, desc_idx: u16) -> (r: Vec<
    Access,
>)
    requires
        old(ingress).wf(),
        old(ingress).receiveq1.owned().contains(desc_idx),
    ensures
        final(ingress).wf(),
        final(ingress).register == old(ingress).register,
        final(ingress).sendq1 == old(ingress).sendq1,
        old(ingress).receiveq1.offered(&final(ingress).receiveq1, desc_idx),
        r@ == old(ingress).receiveq1.offer_accesses(avail_idx, desc_idx).push(
            old(ingress).register.set(Register::QueueNotify, RECEIVE_QUEUE),
        ),
{
    let mut accesses = ingress.receiveq1.offer(avail_idx, desc_idx);
    accesses.push(ingress.register.set(Register::QueueNotify, RECEIVE_QUEUE));
    accesses
}

/// Sends a filled buffer through the egress device: the descriptor is
/// offered on the transmit queue, then the device is told of that queue.
/// `avail_idx` is what the index word of the queue's available ring holds.
pub fn transmit(egress: &mut VirtioMMIONetworkDevice, avail_idx: u16, desc_idx: u16) -> (r: Vec<
    Access,
>)
    requires
        old(egress).wf(),
        old(egress).sendq1.owned().contains(desc_idx),
    ensures
        final(egress).wf(),
        final(egress).register == old(egress).register,
        final(egress).receiveq1 == old(egress).receiveq1,
        old(egress).sendq1.offered(&final(egress).sendq1, desc_idx),
        r@ == old(egress).sendq1.offer_accesses(avail_idx, desc_idx).push(
            old(egress).register.set(Register::QueueNotify, SEND_QUEUE),
        ),
{
    let mut accesses = egress.sendq1.offer(avail_idx, desc_idx);
    accesses.push(egress.register.set(Register::QueueNotify, SEND_QUEUE));
    accesses
}

/// Where the forwarder stands in a round. Every stage but the first waits
/// for the value of one load.
#[derive(Clone, Copy, Debug, PartialEq, Eq, Structural)]
pub enum Stage {
    /// Nothing was done yet.
    Start,
    /// Waits for the index word of the ingress used ring.
    Poll,
    /// The ingress device has handed a descriptor back; waits for its index.
    Take { used_idx: u16 },
    /// Waits for the number of bytes that the device wrote into the buffer
    /// of descriptor `used_id`.
    TakeLength { used_idx: u16, used_id: u32 },
    /// Descriptor `received` was taken, with `written` bytes in its buffer;
    /// waits for the buffer's address.
    LocateAddress { received: u16, written: u32 },
    /// Waits for the length of the received buffer.
    LocateLength { received: u16, written: u32, address: u64 },
    /// Waits for the two bytes at the EtherType's place.
    Inspect { received: u16, buffer: Span },
    /// The frame is to be forwarded; waits for the index word of the egress
    /// used ring.
    PollEgress { received: u16, buffer: Span },
    /// The egress device has handed a descriptor back; waits for its index.
    TakeEgress { received: u16, buffer: Span, used_idx: u16 },
    /// Descriptor `slot` of the transmit queue was taken; waits for its
    /// buffer's address.
    LocateEgressAddress { received: u16, buffer: Span, slot: u16 },
    /// Waits for the length of the buffer to send.
    LocateEgressLength { received: u16, buffer: Span, slot: u16, address: u64 },
    /// The frame was copied; waits for the index word of the egress available
    /// ring.
    Transmit { received: u16, slot: u16 },
    /// The round is over but for the received descriptor; waits for the index
    /// word of the ingress available ring.
    Recycle { received: u16 },
}

/// The forwarder: two devices in service and the place in the round.
pub struct Forwarder {
    pub ingress: VirtioMMIONetworkDevice,
    pub egress: VirtioMMIONetworkDevice,
    pub stage: Stage,
}

pub open spec fn spec_holds_ethertype(buffer: Span, written: u32) -> bool {
    &&& written >= NET_HEADER_SIZE + ETHERNET_HEADER_SIZE
    &&& buffer.len >= NET_HEADER_SIZE + ETHERNET_HEADER_SIZE
    &&& buffer.address + NET_HEADER_SIZE + ETHERNET_HEADER_SIZE <= usize::MAX
}

/// Whether a buffer into which the device wrote `written` bytes holds the
/// header of the device and an Ethernet header behind it: those 24 bytes
/// were written, the buffer is that long, and they lie inside the address
/// space.
#[verifier::when_used_as_spec(spec_holds_ethertype)]
pub fn holds_ethertype(buffer: Span, written: u32) -> (r: bool)
    ensures
        r == spec_holds_ethertype(buffer, written),
{
    written as u64 >= (NET_HEADER_SIZE + ETHERNET_HEADER_SIZE) as u64 && buffer.len as u64 >= (
    NET_HEADER_SIZE + ETHERNET_HEADER_SIZE) as u64 && buffer.address <= usize::MAX as u64 - (
    NET_HEADER_SIZE + ETHERNET_HEADER_SIZE) as u64
}

impl Forwarder {
    /// The descriptor, if any, that the forwarder has taken from the ingress
    /// device and not offered again.
    pub open spec fn received(&self) -> Option<u16> {
        match self.stage {
            Stage::Start | Stage::Poll | Stage::Take { .. } | Stage::TakeLength { .. } => None,
            Stage::LocateAddress { received, .. }
            | Stage::LocateLength { received, .. }
            | Stage::Inspect { received, .. }
            | Stage::PollEgress { received, .. }
            | Stage::TakeEgress { received, .. }
            | Stage::LocateEgressAddress { received, .. }
            | Stage::LocateEgressLength { received, .. }
            | Stage::Transmit { received, .. }
            | Stage::Recycle { received } => Some(received),
        }
    }

    /// The descriptor, if any, that the forwarder has taken from the egress
    /// device and not offered again.
    pub open spec fn slot(&self) -> Option<u16> {
        match self.stage {
            Stage::LocateEgressAddress { slot, .. }
            | Stage::LocateEgressLength { slot, .. }
            | Stage::Transmit { slot, .. } => Some(slot),
            _ => None,
        }
    }

    /// Both devices are well formed; the descriptors that the forwarder has
    /// taken are the driver's; and where it waits for an element of a used
    /// ring, or for an EtherType, there is one.
    pub open spec fn wf(&self) -> bool {
        &&& self.ingress.wf()
        &&& self.egress.wf()
        &&& self.received() matches Some(received) ==> self.ingress.receiveq1.owned().contains(
            received,
        )
        &&& self.slot() matches Some(slot) ==> self.egress.sendq1.owned().contains(slot)
        &&& match self.stage {
            Stage::Take { used_idx } => self.ingress.receiveq1.used().pending(used_idx),
            Stage::TakeLength { used_idx, .. } => self.ingress.receiveq1.used().pending(used_idx),
            Stage::TakeEgress { used_idx, .. } => self.egress.sendq1.used().pending(used_idx),
            Stage::Inspect { buffer, .. } => buffer.len >= NET_HEADER_SIZE + ETHERNET_HEADER_SIZE
                && buffer.address + NET_HEADER_SIZE + ETHERNET_HEADER_SIZE <= usize::MAX,
            _ => true,
        }
    }

    pub open spec fn spec_accepts(&self, reply: u64) -> bool {
        match self.stage {
            Stage::Start | Stage::LocateAddress { .. } | Stage::LocateEgressAddress { .. } => true,
            Stage::Poll
            | Stage::Inspect { .. }
            | Stage::PollEgress { .. }
            | Stage::Transmit { .. }
            | Stage::Recycle { .. } => reply <= u16::MAX,
            Stage::Take { .. }
            | Stage::TakeLength { .. }
            | Stage::TakeEgress { .. }
            | Stage::LocateLength { .. } => reply <= u32::MAX,
            Stage::LocateEgressLength { buffer, address, .. } => {
                &&& reply <= buffer.len
                &&& address + reply <= usize::MAX
                &&& buffer.address + reply <= usize::MAX
            },
        }
    }

    /// Whether `reply` can be what the last access loaded: a value of the
    /// width of that load; and, where it is the length of the buffer to send,
    /// not more than the length of the received buffer, and such that both
    /// ends of the copy lie inside the address space.
    #[verifier::when_used_as_spec(spec_accepts)]
    pub fn accepts(&self, reply: u64) -> (r: bool)
        ensures
            r == self.accepts(reply),
    {
        match self.stage {
            Stage::Start | Stage::LocateAddress { .. } | Stage::LocateEgressAddress { .. } => true,
            Stage::Poll
            | Stage::Inspect { .. }
            | Stage::PollEgress { .. }
            | Stage::Transmit { .. }
            | Stage::Recycle { .. } => reply <= 0xffff,
            Stage::Take { .. }
            | Stage::TakeLength { .. }
            | Stage::TakeEgress { .. }
            | Stage::LocateLength { .. } => reply <= 0xffff_ffff,
            Stage::LocateEgressLength { buffer, address, .. } => {
                reply <= buffer.len as u64 && address <= usize::MAX as u64 && reply
                    <= usize::MAX as u64 - address && buffer.address <= usize::MAX as u64 && reply
                    <= usize::MAX as u64 - buffer.address
            },
        }
    }

    /// The forwarder before its first round.
    pub fn new(ingress: VirtioMMIONetworkDevice, egress: VirtioMMIONetworkDevice) -> (r: Forwarder)
        requires
            ingress.wf(),
            egress.wf(),
        ensures
            r.wf(),
            r.ingress == ingress,
            r.egress == egress,
            r.stage == Stage::Start,
    {
        Forwarder { ingress, egress, stage: Stage::Start }
    }

    /// The load of the index word of the ingress available ring, with which
    /// the end of every round begins.
    pub open spec fn recycle_request(&self) -> Seq<Access> {
        seq![Access::Load16 { addr: self.ingress.receiveq1.available().idx_address() as usize }]
    }

    /// What ends the round for descriptor `received` once the index word of
    /// the ingress available ring is known, and begins the next round.
    pub open spec fn recycle_accesses(&self, avail_idx: u16, received: u16) -> Seq<Access> {
        self.ingress.receiveq1.offer_accesses(avail_idx, received).push(
            self.ingress.register.set(Register::QueueNotify, RECEIVE_QUEUE),
        ) + self.ingress.receiveq1.poll_accesses()
    }

    /// What sends descriptor `slot` once the index word of the egress
    /// available ring is known, and asks for what ends the round.
    pub open spec fn transmit_accesses(&self, avail_idx: u16, slot: u16) -> Seq<Access> {
        self.egress.sendq1.offer_accesses(avail_idx, slot).push(
            self.egress.register.set(Register::QueueNotify, SEND_QUEUE),
        ) + self.recycle_request()
    }

    /// The copy of the received buffer into the buffer to send, and the load
    /// of the index word of the egress available ring.
    pub open spec fn copy_accesses(&self, target: Span, source: Span) -> Seq<Access> {
        seq![
            Access::Copy {
                dst: target.address as usize,
                src: source.address as usize,
                len: target.len as usize,
            },
            Access::Load16 { addr: self.egress.sendq1.available().idx_address() as usize },
        ]
    }

    /// Takes the forwarder one stage further and says what to perform next.
    /// `reply` is the value that the last access of the step before loaded;
    /// the first step ignores it. Every sequence of accesses ends in a load.
    ///
    /// A round: the ingress receive queue is polled until the device has
    /// handed a descriptor back. The descriptor is taken, with the number of
    /// bytes that the device wrote; its buffer is located, and the EtherType
    /// of the frame behind the device's header is read. An IPv4 frame is
    /// copied, whole buffer, into a buffer that the egress device has handed
    /// back on its transmit queue, and sent; where there is none, the frame
    /// is dropped. Every other frame is dropped, and so is one too short to
    /// have an EtherType. In each case the received descriptor is offered to
    /// the ingress device again.
    #[verifier::rlimit(50)]
    pub fn step(&mut self, reply: u64) -> (r: Vec<Access>)
        requires
            old(self).wf(),
            old(self).accepts(reply),
        ensures
            final(self).wf(),
            final(self).egress.register == old(self).egress.register,
            final(self).egress.receiveq1 == old(self).egress.receiveq1,
            final(self).ingress.register == old(self).ingress.register,
            final(self).ingress.sendq1 == old(self).ingress.sendq1,
            !(old(self).stage is TakeLength || old(self).stage is Recycle)
                ==> final(self).ingress.receiveq1 == old(self).ingress.receiveq1,
            !(old(self).stage is TakeEgress || old(self).stage is Transmit)
                ==> final(self).egress.sendq1 == old(self).egress.sendq1,
            match old(self).stage {
                Stage::Start => {
                    &&& final(self).stage == Stage::Poll
                    &&& r@ == seq![old(self).egress.register.set(Register::QueueNotify, SEND_QUEUE)]
                        + old(self).ingress.receiveq1.poll_accesses()
                },
                Stage::Poll => if old(self).ingress.receiveq1.used().pending(reply as u16) {
                    &&& final(self).stage == (Stage::Take { used_idx: reply as u16 })
                    &&& r@ == seq![
                        Access::Load32 {
                            addr: old(self).ingress.receiveq1.pending_address() as usize,
                        },
                    ]
                } else {
                    &&& final(self).stage == Stage::Poll
                    &&& r@ == old(self).ingress.receiveq1.poll_accesses()
                },
                Stage::Take { used_idx } => {
                    &&& final(self).stage == (Stage::TakeLength {
                        used_idx,
                        used_id: reply as u32,
                    })
                    &&& r@ == seq![
                        Access::Load32 {
                            addr: (old(self).ingress.receiveq1.pending_address() + 4) as usize,
                        },
                    ]
                },
                Stage::TakeLength { used_idx, used_id } => {
                    let received = (used_id % (old(self).ingress.receiveq1.queue_size() as u32))
                        as u16;
                    &&& old(self).ingress.receiveq1.took(&final(self).ingress.receiveq1, received)
                    &&& final(self).stage == (Stage::LocateAddress {
                        received,
                        written: reply as u32,
                    })
                    &&& r@ == seq![
                        Access::Load64 {
                            addr: old(self).ingress.receiveq1.descriptor_address(
                                received as int,
                            ) as usize,
                        },
                    ]
                },
                Stage::LocateAddress { received, written } => {
                    &&& final(self).stage == (Stage::LocateLength {
                        received,
                        written,
                        address: reply,
                    })
                    &&& r@ == seq![
                        Access::Load32 {
                            addr: (old(self).ingress.receiveq1.descriptor_address(received as int)
                                + 8) as usize,
                        },
                    ]
                },
                Stage::LocateLength { received, written, address } => {
                    let buffer = Span { address, len: reply as u32 };
                    if holds_ethertype(buffer, written) {
                        &&& final(self).stage == (Stage::Inspect { received, buffer })
                        &&& r@ == seq![
                            Access::Load16 {
                                addr: (address + NET_HEADER_SIZE + ETHERTYPE_OFFSET) as usize,
                            },
                        ]
                    } else {
                        &&& final(self).stage == (Stage::Recycle { received })
                        &&& r@ == old(self).recycle_request()
                    }
                },
                Stage::Inspect { received, buffer } => if verdict(ethertype_of_word(reply as u16))
                    == Verdict::Forward {
                    &&& final(self).stage == (Stage::PollEgress { received, buffer })
                    &&& r@ == old(self).egress.sendq1.poll_accesses()
                } else {
                    &&& final(self).stage == (Stage::Recycle { received })
                    &&& r@ == old(self).recycle_request()
                },
                Stage::PollEgress { received, buffer } => if old(
                    self,
                ).egress.sendq1.used().pending(reply as u16) {
                    &&& final(self).stage == (Stage::TakeEgress {
                        received,
                        buffer,
                        used_idx: reply as u16,
                    })
                    &&& r@ == seq![
                        Access::Load32 { addr: old(self).egress.sendq1.pending_address() as usize },
                    ]
                } else {
                    &&& final(self).stage == (Stage::Recycle { received })
                    &&& r@ == old(self).recycle_request()
                },
                Stage::TakeEgress { received, buffer, used_idx } => {
                    let slot = (reply % (old(self).egress.sendq1.queue_size() as u64)) as u16;
                    &&& old(self).egress.sendq1.took(&final(self).egress.sendq1, slot)
                    &&& final(self).stage == (Stage::LocateEgressAddress { received, buffer, slot })
                    &&& r@ == seq![
                        Access::Load64 {
                            addr: old(self).egress.sendq1.descriptor_address(slot as int) as usize,
                        },
                    ]
                },
                Stage::LocateEgressAddress { received, buffer, slot } => {
                    &&& final(self).stage == (Stage::LocateEgressLength {
                        received,
                        buffer,
                        slot,
                        address: reply,
                    })
                    &&& r@ == seq![
                        Access::Load32 {
                            addr: (old(self).egress.sendq1.descriptor_address(slot as int)
                                + 8) as usize,
                        },
                    ]
                },
                Stage::LocateEgressLength { received, buffer, slot, address } => {
                    &&& final(self).stage == (Stage::Transmit { received, slot })
                    &&& r@ == old(self).copy_accesses(
                        (Span { address, len: reply as u32 }),
                        buffer,
                    )
                },
                Stage::Transmit { received, slot } => {
                    &&& old(self).egress.sendq1.offered(&final(self).egress.sendq1, slot)
                    &&& final(self).stage == (Stage::Recycle { received })
                    &&& r@ == old(self).transmit_accesses(reply as u16, slot)
                },
                Stage::Recycle { received } => {
                    &&& old(self).ingress.receiveq1.offered(
                        &final(self).ingress.receiveq1,
                        received,
                    )
                    &&& final(self).stage == Stage::Poll
                    &&& r@ == old(self).recycle_accesses(reply as u16, received)
                },
            },
    {
        let mut accesses: Vec<Access> = Vec::new();
        match self.stage {
            Stage::Start => {
                accesses = start(&self.egress);
                let mut poll = self.ingress.receiveq1.poll();
                accesses.append(&mut poll);
                self.stage = Stage::Poll;
            },
            Stage::Poll => {
                let used_idx: u16 = reply as u16;
                match self.ingress.receiveq1.pending(used_idx) {
                    Some(element) => {
                        accesses.push(element.get_id());
                        self.stage = Stage::Take { used_idx };
                    },
                    None => {
                        accesses = self.ingress.receiveq1.poll();
                    },
                }
            },
            Stage::Take { used_idx } => {
                let element = self.ingress.receiveq1.pending(used_idx).unwrap();
                accesses.push(element.get_len());
                self.stage = Stage::TakeLength { used_idx, used_id: reply as u32 };
            },
            Stage::TakeLength { used_idx, used_id } => {
                let taken = self.ingress.receiveq1.try_take(used_idx, used_id);
                let element = taken.unwrap();
                accesses.push(element.desc.get_addr());
                self.stage = Stage::LocateAddress {
                    received: element.desc_idx,
                    written: reply as u32,
                };
            },
            Stage::LocateAddress { received, written } => {
                accesses.push(self.ingress.receiveq1.get_descriptor(received).get_len());
                self.stage = Stage::LocateLength { received, written, address: reply };
            },
            Stage::LocateLength { received, written, address } => {
                let descriptor = self.ingress.receiveq1.get_descriptor(received);
                let buffer = descriptor.data(address, reply as u32);
                if holds_ethertype(buffer, written) {
                    let (_header, frame) = descriptor.as_network_packet(buffer);
                    accesses.push(
                        Access::Load16 { addr: frame.address as usize + ETHERTYPE_OFFSET },
                    );
                    self.stage = Stage::Inspect { received, buffer };
                } else {
                    accesses.push(self.ingress.receiveq1.available_idx());
                    self.stage = Stage::Recycle { received };
                }
            },
            Stage::Inspect { received, buffer } => {
                match verdict(ethertype_of_word(reply as u16)) {
                    Verdict::Forward => {
                        accesses = self.egress.sendq1.poll();
                        self.stage = Stage::PollEgress { received, buffer };
                    },
                    Verdict::Drop => {
                        accesses.push(self.ingress.receiveq1.available_idx());
                        self.stage = Stage::Recycle { received };
                    },
                }
            },
            Stage::PollEgress { received, buffer } => {
                let used_idx: u16 = reply as u16;
                match self.egress.sendq1.pending(used_idx) {
                    Some(element) => {
                        accesses.push(element.get_id());
                        self.stage = Stage::TakeEgress { received, buffer, used_idx };
                    },
                    None => {
                        accesses.push(self.ingress.receiveq1.available_idx());
                        self.stage = Stage::Recycle { received };
                    },
                }
            },
            Stage::TakeEgress { received, buffer, used_idx } => {
                let taken = self.egress.sendq1.try_take(used_idx, reply as u32);
                let element = taken.unwrap();
                accesses.push(element.desc.get_addr());
                self.stage = Stage::LocateEgressAddress { received, buffer, slot: element.desc_idx };
            },
            Stage::LocateEgressAddress { received, buffer, slot } => {
                accesses.push(self.egress.sendq1.get_descriptor(slot).get_len());
                self.stage = Stage::LocateEgressLength { received, buffer, slot, address: reply };
            },
            Stage::LocateEgressLength { received, buffer, slot, address } => {
                let descriptor = self.egress.sendq1.get_descriptor(slot);
                let target = descriptor.data(address, reply as u32);
                let element = VirtQueueElement { desc: descriptor, desc_idx: slot };
                accesses.push(element.copy_from(target, buffer));
                accesses.push(self.egress.sendq1.available_idx());
                self.stage = Stage::Transmit { received, slot };
                proof {
                    assert(accesses@ =~= old(self).copy_accesses(target, buffer));
                }
            },
            Stage::Transmit { received, slot } => {
                accesses = transmit(&mut self.egress, reply as u16, slot);
                accesses.push(self.ingress.receiveq1.available_idx());
                self.stage = Stage::Recycle { received };
            },
            Stage::Recycle { received } => {
                accesses = recycle(&mut self.ingress, reply as u16, received);
                let mut poll = self.ingress.receiveq1.poll();
                accesses.append(&mut poll);
                self.stage = Stage::Poll;
            },
        }
        accesses
    }
}

} // verus!
