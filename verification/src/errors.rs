use vstd::prelude::*;

verus! {

/// Why the registers of a device cannot be used.
#[derive(Debug, Clone, Copy, PartialEq, Eq, Structural)]
pub enum ReadMMIOInterfaceError {
    /// A queue is in use already, or holds fewer descriptors than the driver
    /// needs.
    Internal,
}

/// Why a device could not be brought into service.
#[derive(Debug, Clone, Copy, PartialEq, Eq, Structural)]
pub enum DeviceInitializationError {
    /// The arena has no room for a queue.
    Internal,
    /// The device does not identify itself as a virtio device. The driver
    /// does not look at the magic value and never reports this.
    InvalidMagicNumber(u32),
    /// The device is of a version that the driver does not know. The driver
    /// does not look at the version and never reports this.
    InvalidVersion(u32),
    /// The registers of the device show that it cannot be used.
    InvalidInterface(ReadMMIOInterfaceError),
}

/// Why the arena refused a request.
#[derive(Debug, Clone, Copy, PartialEq, Eq, Structural)]
pub enum MemoryReservationError {
    /// The bytes asked for do not fit into what is left of the region.
    MemoryExhausted,
}

} // verus!
