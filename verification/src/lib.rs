//! A driver for two legacy virtio-mmio network devices, and a forwarder of
//! IPv4 frames between them, for a machine without an operating system.
//!
//! The library touches neither device registers nor memory. Each of its
//! operations says which accesses the machine is to perform, in order, as a
//! sequence of [`access::Access`], and takes the values that the loads among
//! them gave as arguments. What such a sequence does to memory is defined in
//! [`access`], and what the sequences of the driver leave in the rings is
//! proved in [`virtqueue_proofs`].
//!
//! Bringing a device into service ([`virtio`]) and forwarding
//! ([`forwarder`]) go stage by stage: each step takes the value that the
//! last load of the step before gave and says what to perform next.

pub mod access;
pub mod errors;
pub mod forwarder;
pub mod memory_handle;
pub mod virtio;
pub mod virtio_device_register;
pub mod virtqueue;
pub mod virtqueue_network;
pub mod virtqueue_proofs;
