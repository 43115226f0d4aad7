use vstd::prelude::*;
use crate::access::Access;
use crate::errors::{DeviceInitializationError, MemoryReservationError, ReadMMIOInterfaceError};
use crate::memory_handle::MemoryHandle;
use crate::virtio_device_register::{
    DeviceStatus,
    NetworkDeviceFeatureBits0,
    Register,
    VirtioMMIORegister,
    REGISTER_WINDOW_SIZE,
};
use crate::virtqueue::{VirtQueueHandle, MMIO_QUEUE_ALIGN};

verus! {

/// Size of the pages in which the device is told where a queue lies.
pub const PAGE_SIZE: u32 = 2048;

/// Number of descriptors of every queue.
pub const QUEUE_SIZE: usize = 1024;

/// Index of the receive queue of a network device.
pub const RECEIVE_QUEUE: u32 = 0;

/// Index of the transmit queue of a network device.
pub const SEND_QUEUE: u32 = 1;

/// A legacy virtio network device in service: its register window, its
/// receive queue and its transmit queue.
pub struct VirtioMMIONetworkDevice {
    pub register: VirtioMMIORegister,
    pub receiveq1: VirtQueueHandle,
    pub sendq1: VirtQueueHandle,
}

/// How far the initialization of a device has come. Each stage but the first
/// waits for the value of one register.
#[derive(Clone, Copy, Debug, PartialEq, Eq, Structural)]
pub enum InitStage {
    /// Nothing was done yet.
    Reset,
    /// The device was reset; waits for the status, to acknowledge the device.
    Acknowledge,
    /// Waits for the status, to announce the driver.
    Driver,
    /// The receive queue is selected; waits for its page number.
    ReceiveQueueInUse,
    /// Waits for the largest size of the receive queue.
    ReceiveQueueSize,
    /// The transmit queue is selected; waits for its page number.
    SendQueueInUse,
    /// Waits for the largest size of the transmit queue.
    SendQueueSize,
    /// Both queues are set up; waits for the status, to announce that the
    /// driver is ready.
    DriverOk,
}

/// A device on its way into service.
pub struct DeviceInitializer {
    pub register: VirtioMMIORegister,
    pub stage: InitStage,
    pub receiveq1: Option<VirtQueueHandle>,
    pub sendq1: Option<VirtQueueHandle>,
}

/// What one step of the initialization came to.
pub enum InitStep {
    /// Perform the accesses in order and hand the value that the last one
    /// loaded to the next step.
    Continue(DeviceInitializer, Vec<Access>),
    /// Perform the accesses in order; the device is then in service.
    Ready(VirtioMMIONetworkDevice, Vec<Access>),
    /// The device cannot be used. Nothing is left to perform.
    Failed(DeviceInitializationError),
}

/// The page number of the queue at `base_address`, as the 32-bit register
/// takes it.
pub open spec fn spec_page_number(base_address: usize) -> u32 {
    ((base_address as int / PAGE_SIZE as int) % 0x1_0000_0000) as u32
}

/// The device is reset, and its status is asked for.
pub open spec fn reset_accesses(register: VirtioMMIORegister) -> Seq<Access> {
    seq![register.set(Register::DeviceStatus, 0), register.get(Register::DeviceStatus)]
}

/// The acknowledge bit is set in the status that was read, and the status
/// is asked for again.
pub open spec fn acknowledge_accesses(register: VirtioMMIORegister, status: u32) -> Seq<Access> {
    seq![
        register.set(
            Register::DeviceStatus,
            DeviceStatus::Acknowledge.field().val(1).modify(status),
        ),
        register.get(Register::DeviceStatus),
    ]
}

/// The driver bit is set in the status that was read; the features under
/// selector 0 are read and only the MAC feature is accepted; the page size
/// is announced; the receive queue is selected and its page number asked
/// for.
pub open spec fn negotiate_accesses(register: VirtioMMIORegister, status: u32) -> Seq<Access> {
    seq![
        register.set(Register::DeviceStatus, DeviceStatus::Driver.field().val(1).modify(status)),
        register.set(Register::HostFeaturesSel, 0),
        register.get(Register::HostFeatures),
        register.set(Register::GuestFeaturesSel, 0),
        register.set(Register::GuestFeatures, NetworkDeviceFeatureBits0::Mac.field().val(1).value),
        register.set(Register::GuestPageSize, PAGE_SIZE),
        register.set(Register::QueueSel, RECEIVE_QUEUE),
        register.get(Register::QueuePfn),
    ]
}

/// The largest size of the selected queue is asked for.
pub open spec fn queue_size_accesses(register: VirtioMMIORegister) -> Seq<Access> {
    seq![register.get(Register::QueueNumMax)]
}

/// The selected queue is set up: its memory is cleared and its descriptors
/// are written; the device is told its size, its alignment and its page
/// number; then every descriptor is handed to the device.
pub open spec fn configure_accesses(
    register: VirtioMMIORegister,
    queue: VirtQueueHandle,
    receive: bool,
) -> Seq<Access> {
    queue.populate_accesses(receive, QUEUE_SIZE as nat) + seq![
        register.set(Register::QueueNum, QUEUE_SIZE as u32),
        register.set(Register::QueueAlign, (MMIO_QUEUE_ALIGN + 1) as u32),
        register.set(Register::QueuePfn, spec_page_number(queue.base_address())),
    ] + queue.pre_offer_accesses(QUEUE_SIZE as nat).push(Access::Fence)
}

/// The transmit queue is selected and its page number asked for.
pub open spec fn select_send_accesses(register: VirtioMMIORegister) -> Seq<Access> {
    seq![register.set(Register::QueueSel, SEND_QUEUE), register.get(Register::QueuePfn)]
}

/// The status is asked for.
pub open spec fn status_accesses(register: VirtioMMIORegister) -> Seq<Access> {
    seq![register.get(Register::DeviceStatus)]
}

/// The driver-ok bit is set in the status that was read, and the device is
/// told that the receive queue holds buffers.
pub open spec fn driver_ok_accesses(register: VirtioMMIORegister, status: u32) -> Seq<Access> {
    seq![
        register.set(Register::DeviceStatus, DeviceStatus::DriverOk.field().val(1).modify(status)),
        register.set(Register::QueueNotify, RECEIVE_QUEUE),
    ]
}

/// The error of a device whose registers do not show a usable queue.
pub open spec fn queue_unusable() -> DeviceInitializationError {
    DeviceInitializationError::InvalidInterface(ReadMMIOInterfaceError::Internal)
}

impl VirtioMMIONetworkDevice {
    /// The register window and both queues are well formed, and the queues
    /// have the size that the device was told.
    pub open spec fn wf(&self) -> bool {
        &&& self.register.wf()
        &&& self.receiveq1.wf()
        &&& self.receiveq1.queue_size() == QUEUE_SIZE
        &&& self.sendq1.wf()
        &&& self.sendq1.queue_size() == QUEUE_SIZE
    }

    /// Starts the initialization of the device whose register window lies
    /// at `address`. Nothing is asked of the machine yet: `advance` does.
    pub fn initialize(address: usize) -> (r: DeviceInitializer)
        requires
            address + REGISTER_WINDOW_SIZE <= usize::MAX,
        ensures
            r.wf(),
            r.register.base_address() == address,
            r.stage == InitStage::Reset,
    {
        DeviceInitializer {
            register: VirtioMMIORegister::new(address),
            stage: InitStage::Reset,
            receiveq1: None,
            sendq1: None,
        }
    }

    /// Sets up the queue that is selected, after its registers have shown
    /// that it is free and large enough: takes its memory from the arena and
    /// says what to perform. Where the arena has no room, nothing is taken.
    #[verifier::rlimit(30)]
    pub fn configure_virtqueue(
        register: &VirtioMMIORegister,
        memory: &mut MemoryHandle,
        receive: bool,
    ) -> (r: Result<(VirtQueueHandle, Vec<Access>), MemoryReservationError>)
        requires
            register.wf(),
            old(memory).wf(),
        ensures
            final(memory).wf(),
            r is Ok <==> old(memory).has_room(VirtQueueHandle::footprint(QUEUE_SIZE) as usize, 16),
            r matches Ok((queue, accesses)) ==> {
                &&& queue.wf()
                &&& queue.queue_size() == QUEUE_SIZE
                &&& queue.base_address() == old(memory).next_address(16)
                &&& queue.used().last_seen_idx() == 0
                &&& queue.owned() == Set::<u16>::empty()
                &&& old(memory).allocated(
                    final(memory),
                    VirtQueueHandle::footprint(QUEUE_SIZE) as usize,
                    16,
                )
                &&& accesses@ == configure_accesses(*register, queue, receive)
            },
            r matches Err(e) ==> {
                &&& e == MemoryReservationError::MemoryExhausted
                &&& *final(memory) == *old(memory)
            },
    {
        let (virtqueue, setup) = match VirtQueueHandle::new(QUEUE_SIZE, memory, receive) {
            Ok(made) => made,
            Err(e) => {
                return Err(e);
            },
        };
        let mut accesses: Vec<Access> = setup.populate;
        let mut publish: Vec<Access> = setup.publish;
        let page: u64 = (virtqueue.base_address() / (PAGE_SIZE as usize)) as u64;
        accesses.push(register.set(Register::QueueNum, QUEUE_SIZE as u32));
        accesses.push(register.set(Register::QueueAlign, (MMIO_QUEUE_ALIGN + 1) as u32));
        accesses.push(register.set(Register::QueuePfn, (page % 0x1_0000_0000) as u32));
        accesses.append(&mut publish);
        proof {
            assert(accesses@ =~= configure_accesses(*register, virtqueue, receive));
        }
        Ok((virtqueue, accesses))
    }
}

impl DeviceInitializer {
    /// The register window is well formed, and the queues that the stage
    /// has behind it, and no others, are there.
    pub open spec fn wf(&self) -> bool {
        &&& self.register.wf()
        &&& match self.stage {
            InitStage::SendQueueInUse | InitStage::SendQueueSize | InitStage::DriverOk => {
                &&& self.receiveq1 matches Some(queue)
                &&& queue.wf()
                &&& queue.queue_size() == QUEUE_SIZE
            },
            _ => self.receiveq1 is None,
        }
        &&& match self.stage {
            InitStage::DriverOk => {
                &&& self.sendq1 matches Some(queue)
                &&& queue.wf()
                &&& queue.queue_size() == QUEUE_SIZE
            },
            _ => self.sendq1 is None,
        }
    }

    /// The initializer at the next stage, with nothing else changed.
    pub open spec fn at(self, stage: InitStage) -> DeviceInitializer {
        DeviceInitializer { stage, ..self }
    }

    /// Takes the initialization one stage further. `reply` is the value that
    /// the last access of the step before loaded; the first step ignores it.
    ///
    /// In order: the device is reset; the acknowledge bit and then the driver
    /// bit are set in its status; the features are read and the MAC feature
    /// alone is accepted; the page size is announced; the receive queue and
    /// then the transmit queue are set up; the driver-ok bit is set; the
    /// device is told of its receive queue. Setting a queue up is, in order:
    /// the queue is selected; its page number is read, and must be zero; its
    /// largest size is read, and must be 1024 or more; its memory is taken
    /// from the arena, cleared, and its descriptors written; the device is
    /// told 1024 as its size, 4096 as its alignment, and its page number;
    /// all its descriptors are offered.
    ///
    /// A queue that is in use or too small, and an arena without room for a
    /// queue, end the initialization; the arena is then as it was before the
    /// step.
    #[verifier::rlimit(50)]
    pub fn advance(self, reply: u32, memory: &mut MemoryHandle) -> (r: InitStep)
        requires
            self.wf(),
            old(memory).wf(),
        ensures
            final(memory).wf(),
            r matches InitStep::Continue(next, _) ==> next.wf(),
            r matches InitStep::Ready(device, _) ==> device.wf(),
            r is Failed ==> *final(memory) == *old(memory),
            match self.stage {
                InitStage::Reset => {
                    &&& r matches InitStep::Continue(next, accesses)
                    &&& next == self.at(InitStage::Acknowledge)
                    &&& accesses@ == reset_accesses(self.register)
                    &&& *final(memory) == *old(memory)
                },
                InitStage::Acknowledge => {
                    &&& r matches InitStep::Continue(next, accesses)
                    &&& next == self.at(InitStage::Driver)
                    &&& accesses@ == acknowledge_accesses(self.register, reply)
                    &&& *final(memory) == *old(memory)
                },
                InitStage::Driver => {
                    &&& r matches InitStep::Continue(next, accesses)
                    &&& next == self.at(InitStage::ReceiveQueueInUse)
                    &&& accesses@ == negotiate_accesses(self.register, reply)
                    &&& *final(memory) == *old(memory)
                },
                InitStage::ReceiveQueueInUse => if reply != 0 {
                    r == InitStep::Failed(queue_unusable())
                } else {
                    &&& r matches InitStep::Continue(next, accesses)
                    &&& next == self.at(InitStage::ReceiveQueueSize)
                    &&& accesses@ == queue_size_accesses(self.register)
                    &&& *final(memory) == *old(memory)
                },
                InitStage::ReceiveQueueSize => if reply < QUEUE_SIZE {
                    r == InitStep::Failed(queue_unusable())
                } else if !old(memory).has_room(
                    VirtQueueHandle::footprint(QUEUE_SIZE) as usize,
                    16,
                ) {
                    r == InitStep::Failed(DeviceInitializationError::Internal)
                } else {
                    &&& r matches InitStep::Continue(next, accesses)
                    &&& next.register == self.register
                    &&& next.stage == InitStage::SendQueueInUse
                    &&& next.receiveq1 matches Some(queue)
                    &&& queue.base_address() == old(memory).next_address(16)
                    &&& queue.used().last_seen_idx() == 0
                    &&& queue.owned() == Set::<u16>::empty()
                    &&& old(memory).allocated(
                        final(memory),
                        VirtQueueHandle::footprint(QUEUE_SIZE) as usize,
                        16,
                    )
                    &&& accesses@ == configure_accesses(self.register, queue, true)
                        + select_send_accesses(self.register)
                },
                InitStage::SendQueueInUse => if reply != 0 {
                    r == InitStep::Failed(queue_unusable())
                } else {
                    &&& r matches InitStep::Continue(next, accesses)
                    &&& next == self.at(InitStage::SendQueueSize)
                    &&& accesses@ == queue_size_accesses(self.register)
                    &&& *final(memory) == *old(memory)
                },
                InitStage::SendQueueSize => if reply < QUEUE_SIZE {
                    r == InitStep::Failed(queue_unusable())
                } else if !old(memory).has_room(
                    VirtQueueHandle::footprint(QUEUE_SIZE) as usize,
                    16,
                ) {
                    r == InitStep::Failed(DeviceInitializationError::Internal)
                } else {
                    &&& r matches InitStep::Continue(next, accesses)
                    &&& next.register == self.register
                    &&& next.stage == InitStage::DriverOk
                    &&& next.receiveq1 == self.receiveq1
                    &&& next.sendq1 matches Some(queue)
                    &&& queue.base_address() == old(memory).next_address(16)
                    &&& queue.used().last_seen_idx() == 0
                    &&& queue.owned() == Set::<u16>::empty()
                    &&& old(memory).allocated(
                        final(memory),
                        VirtQueueHandle::footprint(QUEUE_SIZE) as usize,
                        16,
                    )
                    &&& accesses@ == configure_accesses(self.register, queue, false)
                        + status_accesses(self.register)
                },
                InitStage::DriverOk => {
                    &&& r matches InitStep::Ready(device, accesses)
                    &&& device.register == self.register
                    &&& Some(device.receiveq1) == self.receiveq1
                    &&& Some(device.sendq1) == self.sendq1
                    &&& accesses@ == driver_ok_accesses(self.register, reply)
                    &&& *final(memory) == *old(memory)
                },
            },
    {
        let register = self.register;
        let mut accesses: Vec<Access> = Vec::new();
        match self.stage {
            InitStage::Reset => {
                accesses.push(register.set(Register::DeviceStatus, 0));
                accesses.push(register.get(Register::DeviceStatus));
                proof {
                    assert(accesses@ =~= reset_accesses(register));
                }
                InitStep::Continue(
                    DeviceInitializer { stage: InitStage::Acknowledge, ..self },
                    accesses,
                )
            },
            InitStage::Acknowledge => {
                accesses.push(
                    register.modify(
                        Register::DeviceStatus,
                        reply,
                        DeviceStatus::Acknowledge.field().val(1),
                    ),
                );
                accesses.push(register.get(Register::DeviceStatus));
                proof {
                    assert(accesses@ =~= acknowledge_accesses(register, reply));
                }
                InitStep::Continue(DeviceInitializer { stage: InitStage::Driver, ..self }, accesses)
            },
            InitStage::Driver => {
                accesses.push(
                    register.modify(
                        Register::DeviceStatus,
                        reply,
                        DeviceStatus::Driver.field().val(1),
                    ),
                );
                accesses.push(register.set(Register::HostFeaturesSel, 0));
                accesses.push(register.get(Register::HostFeatures));
                accesses.push(register.set(Register::GuestFeaturesSel, 0));
                accesses.push(
                    register.write(
                        Register::GuestFeatures,
                        NetworkDeviceFeatureBits0::Mac.field().val(1),
                    ),
                );
                accesses.push(register.set(Register::GuestPageSize, PAGE_SIZE));
                accesses.push(register.set(Register::QueueSel, RECEIVE_QUEUE));
                accesses.push(register.get(Register::QueuePfn));
                proof {
                    assert(accesses@ =~= negotiate_accesses(register, reply));
                }
                InitStep::Continue(
                    DeviceInitializer { stage: InitStage::ReceiveQueueInUse, ..self },
                    accesses,
                )
            },
            InitStage::ReceiveQueueInUse => {
                if reply != 0 {
                    return InitStep::Failed(
                        DeviceInitializationError::InvalidInterface(
                            ReadMMIOInterfaceError::Internal,
                        ),
                    );
                }
                accesses.push(register.get(Register::QueueNumMax));
                proof {
                    assert(accesses@ =~= queue_size_accesses(register));
                }
                InitStep::Continue(
                    DeviceInitializer { stage: InitStage::ReceiveQueueSize, ..self },
                    accesses,
                )
            },
            InitStage::ReceiveQueueSize => {
                if reply < QUEUE_SIZE as u32 {
                    return InitStep::Failed(
                        DeviceInitializationError::InvalidInterface(
                            ReadMMIOInterfaceError::Internal,
                        ),
                    );
                }
                match VirtioMMIONetworkDevice::configure_virtqueue(&register, memory, true) {
                    Err(_) => InitStep::Failed(DeviceInitializationError::Internal),
                    Ok((queue, configure)) => {
                        accesses = configure;
                        accesses.push(register.set(Register::QueueSel, SEND_QUEUE));
                        accesses.push(register.get(Register::QueuePfn));
                        proof {
                            assert(accesses@ =~= configure_accesses(register, queue, true)
                                + select_send_accesses(register));
                        }
                        InitStep::Continue(
                            DeviceInitializer {
                                register,
                                stage: InitStage::SendQueueInUse,
                                receiveq1: Some(queue),
                                sendq1: None,
                            },
                            accesses,
                        )
                    },
                }
            },
            InitStage::SendQueueInUse => {
                if reply != 0 {
                    return InitStep::Failed(
                        DeviceInitializationError::InvalidInterface(
                            ReadMMIOInterfaceError::Internal,
                        ),
                    );
                }
                accesses.push(register.get(Register::QueueNumMax));
                proof {
                    assert(accesses@ =~= queue_size_accesses(register));
                }
                InitStep::Continue(
                    DeviceInitializer { stage: InitStage::SendQueueSize, ..self },
                    accesses,
                )
            },
            InitStage::SendQueueSize => {
                if reply < QUEUE_SIZE as u32 {
                    return InitStep::Failed(
                        DeviceInitializationError::InvalidInterface(
                            ReadMMIOInterfaceError::Internal,
                        ),
                    );
                }
                match VirtioMMIONetworkDevice::configure_virtqueue(&register, memory, false) {
                    Err(_) => InitStep::Failed(DeviceInitializationError::Internal),
                    Ok((queue, configure)) => {
                        accesses = configure;
                        accesses.push(register.get(Register::DeviceStatus));
                        proof {
                            assert(accesses@ =~= configure_accesses(register, queue, false)
                                + status_accesses(register));
                        }
                        InitStep::Continue(
                            DeviceInitializer {
                                register,
                                stage: InitStage::DriverOk,
                                receiveq1: self.receiveq1,
                                sendq1: Some(queue),
                            },
                            accesses,
                        )
                    },
                }
            },
            InitStage::DriverOk => {
                accesses.push(
                    register.modify(
                        Register::DeviceStatus,
                        reply,
                        DeviceStatus::DriverOk.field().val(1),
                    ),
                );
                accesses.push(register.set(Register::QueueNotify, RECEIVE_QUEUE));
                proof {
                    assert(accesses@ =~= driver_ok_accesses(register, reply));
                }
                InitStep::Ready(
                    VirtioMMIONetworkDevice {
                        register,
                        receiveq1: self.receiveq1.unwrap(),
                        sendq1: self.sendq1.unwrap(),
                    },
                    accesses,
                )
            },
        }
    }
}

} // verus!
