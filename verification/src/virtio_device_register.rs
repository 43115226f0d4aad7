use vstd::prelude::*;
use crate::access::Access;

verus! {

/// Size in bytes of the register window of one device.
pub const REGISTER_WINDOW_SIZE: usize = 0x100;

/// A run of bits in a 32-bit register: `mask`, not yet shifted, covers the
/// width of the run, and `shift` is the position of its lowest bit.
#[derive(Clone, Copy, Debug, PartialEq, Eq, Structural)]
pub struct Field {
    pub mask: u32,
    pub shift: u32,
}

/// A value for one field, in place: `mask` covers the field's bits in the
/// register and `value` holds the new bits there and zero elsewhere.
#[derive(Clone, Copy, Debug, PartialEq, Eq, Structural)]
pub struct FieldValue {
    pub mask: u32,
    pub value: u32,
}

impl Field {
    pub open spec fn spec_val(self, value: u32) -> FieldValue {
        FieldValue { mask: self.mask << self.shift, value: (value & self.mask) << self.shift }
    }

    /// `value`, cut to the field's width and moved to the field's place.
    #[verifier::when_used_as_spec(spec_val)]
    pub fn val(self, value: u32) -> (r: FieldValue)
        requires
            self.shift < 32,
        ensures
            r == self.val(value),
    {
        FieldValue { mask: self.mask << self.shift, value: (value & self.mask) << self.shift }
    }

    pub open spec fn spec_read(self, word: u32) -> u32 {
        (word & (self.mask << self.shift)) >> self.shift
    }

    /// The field's bits of `word`, moved down to bit 0.
    #[verifier::when_used_as_spec(spec_read)]
    pub fn read(self, word: u32) -> (r: u32)
        requires
            self.shift < 32,
        ensures
            r == self.read(word),
    {
        (word & (self.mask << self.shift)) >> self.shift
    }
}

impl FieldValue {
    pub open spec fn spec_modify(self, word: u32) -> u32 {
        (word & !self.mask) | self.value
    }

    /// `word` with the field's bits replaced and all others kept.
    #[verifier::when_used_as_spec(spec_modify)]
    pub fn modify(self, word: u32) -> (r: u32)
        ensures
            r == self.modify(word),
    {
        (word & !self.mask) | self.value
    }
}

/// Replacing a field changes the bits under its mask to the new value and
/// no others.
pub proof fn lemma_modify(field: FieldValue, word: u32)
    requires
        field.value & !field.mask == 0,
    ensures
        field.modify(word) & field.mask == field.value,
        field.modify(word) & !field.mask == word & !field.mask,
{
    let mask = field.mask;
    let value = field.value;
    assert(((word & !mask) | value) & mask == value && ((word & !mask) | value) & !mask == word
        & !mask) by (bit_vector)
        requires
            value & !mask == 0,
    ;
}

/// A value made for a field lies under the field's mask.
pub proof fn lemma_val(field: Field, value: u32)
    requires
        field.shift < 32,
    ensures
        field.val(value).value & !field.val(value).mask == 0,
{
    let mask = field.mask;
    let shift = field.shift;
    assert(((value & mask) << shift) & !(mask << shift) == 0) by (bit_vector)
        requires
            shift < 32,
    ;
}

/// Setting a one-bit field to 1 sets that bit and keeps the others; setting
/// it to 0 clears that bit and keeps the others; and the field reads back
/// what was set.
pub proof fn lemma_single_bit(shift: u32, word: u32)
    requires
        shift < 32,
    ensures
        (Field { mask: 1, shift }).val(1).modify(word) == word | (1u32 << shift),
        (Field { mask: 1, shift }).val(0).modify(word) == word & !(1u32 << shift),
        (Field { mask: 1, shift }).read((Field { mask: 1, shift }).val(1).modify(word)) == 1,
        (Field { mask: 1, shift }).read((Field { mask: 1, shift }).val(0).modify(word)) == 0,
{
    assert(((word & !(1u32 << shift)) | ((1u32 & 1u32) << shift)) == word | (1u32 << shift))
        by (bit_vector)
        requires
            shift < 32,
    ;
    assert(((word & !(1u32 << shift)) | ((0u32 & 1u32) << shift)) == word & !(1u32 << shift))
        by (bit_vector)
        requires
            shift < 32,
    ;
    assert(((word | (1u32 << shift)) & (1u32 << shift)) >> shift == 1) by (bit_vector)
        requires
            shift < 32,
    ;
    assert(((word & !(1u32 << shift)) & (1u32 << shift)) >> shift == 0) by (bit_vector)
        requires
            shift < 32,
    ;
}

/// The bits of the device status register.
#[derive(Clone, Copy, Debug, PartialEq, Eq, Structural)]
pub enum DeviceStatus {
    Acknowledge,
    Driver,
    DriverOk,
    FeaturesOk,
    DeviceNeedsReset,
    Failed,
}

impl DeviceStatus {
    pub open spec fn spec_offset(self) -> u32 {
        match self {
            DeviceStatus::Acknowledge => 0,
            DeviceStatus::Driver => 1,
            DeviceStatus::DriverOk => 2,
            DeviceStatus::FeaturesOk => 3,
            DeviceStatus::DeviceNeedsReset => 6,
            DeviceStatus::Failed => 7,
        }
    }

    /// Position of the bit.
    #[verifier::when_used_as_spec(spec_offset)]
    pub fn offset(self) -> (r: u32)
        ensures
            r == self.offset(),
    {
        match self {
            DeviceStatus::Acknowledge => 0,
            DeviceStatus::Driver => 1,
            DeviceStatus::DriverOk => 2,
            DeviceStatus::FeaturesOk => 3,
            DeviceStatus::DeviceNeedsReset => 6,
            DeviceStatus::Failed => 7,
        }
    }

    pub open spec fn spec_field(self) -> Field {
        Field { mask: 1, shift: self.offset() }
    }

    /// The bit as a field of one bit.
    #[verifier::when_used_as_spec(spec_field)]
    pub fn field(self) -> (r: Field)
        ensures
            r == self.field(),
            r.shift < 32,
    {
        Field { mask: 1, shift: self.offset() }
    }
}

/// The feature bits of a network device that selector 0 shows.
#[derive(Clone, Copy, Debug, PartialEq, Eq, Structural)]
pub enum NetworkDeviceFeatureBits0 {
    Csum,
    GuestCsum,
    CtrlGuestOffloads,
    Mtu,
    Mac,
    Gso,
    GuestTso4,
    GuestTso6,
    GuestEcn,
    GuestUfo,
    HostTso4,
    HostTso6,
    HostEcn,
    HostUfo,
    MrgRxbuf,
    Status,
    CtrlVq,
    CtrlRx,
    CtrlVlan,
    GuestAnnounce,
    Mq,
    CtrlMacAddr,
    NotifyOnEmpty,
    AnyLayout,
}

impl NetworkDeviceFeatureBits0 {
    pub open spec fn spec_offset(self) -> u32 {
        match self {
            NetworkDeviceFeatureBits0::Csum => 0,
            NetworkDeviceFeatureBits0::GuestCsum => 1,
            NetworkDeviceFeatureBits0::CtrlGuestOffloads => 2,
            NetworkDeviceFeatureBits0::Mtu => 3,
            NetworkDeviceFeatureBits0::Mac => 5,
            NetworkDeviceFeatureBits0::Gso => 6,
            NetworkDeviceFeatureBits0::GuestTso4 => 7,
            NetworkDeviceFeatureBits0::GuestTso6 => 8,
            NetworkDeviceFeatureBits0::GuestEcn => 9,
            NetworkDeviceFeatureBits0::GuestUfo => 10,
            NetworkDeviceFeatureBits0::HostTso4 => 11,
            NetworkDeviceFeatureBits0::HostTso6 => 12,
            NetworkDeviceFeatureBits0::HostEcn => 13,
            NetworkDeviceFeatureBits0::HostUfo => 14,
            NetworkDeviceFeatureBits0::MrgRxbuf => 15,
            NetworkDeviceFeatureBits0::Status => 16,
            NetworkDeviceFeatureBits0::CtrlVq => 17,
            NetworkDeviceFeatureBits0::CtrlRx => 18,
            NetworkDeviceFeatureBits0::CtrlVlan => 19,
            NetworkDeviceFeatureBits0::GuestAnnounce => 21,
            NetworkDeviceFeatureBits0::Mq => 22,
            NetworkDeviceFeatureBits0::CtrlMacAddr => 23,
            NetworkDeviceFeatureBits0::NotifyOnEmpty => 24,
            NetworkDeviceFeatureBits0::AnyLayout => 27,
        }
    }

    /// Position of the bit.
    #[verifier::when_used_as_spec(spec_offset)]
    pub fn offset(self) -> (r: u32)
        ensures
            r == self.offset(),
    {
        match self {
            NetworkDeviceFeatureBits0::Csum => 0,
            NetworkDeviceFeatureBits0::GuestCsum => 1,
            NetworkDeviceFeatureBits0::CtrlGuestOffloads => 2,
            NetworkDeviceFeatureBits0::Mtu => 3,
            NetworkDeviceFeatureBits0::Mac => 5,
            NetworkDeviceFeatureBits0::Gso => 6,
            NetworkDeviceFeatureBits0::GuestTso4 => 7,
            NetworkDeviceFeatureBits0::GuestTso6 => 8,
            NetworkDeviceFeatureBits0::GuestEcn => 9,
            NetworkDeviceFeatureBits0::GuestUfo => 10,
            NetworkDeviceFeatureBits0::HostTso4 => 11,
            NetworkDeviceFeatureBits0::HostTso6 => 12,
            NetworkDeviceFeatureBits0::HostEcn => 13,
            NetworkDeviceFeatureBits0::HostUfo => 14,
            NetworkDeviceFeatureBits0::MrgRxbuf => 15,
            NetworkDeviceFeatureBits0::Status => 16,
            NetworkDeviceFeatureBits0::CtrlVq => 17,
            NetworkDeviceFeatureBits0::CtrlRx => 18,
            NetworkDeviceFeatureBits0::CtrlVlan => 19,
            NetworkDeviceFeatureBits0::GuestAnnounce => 21,
            NetworkDeviceFeatureBits0::Mq => 22,
            NetworkDeviceFeatureBits0::CtrlMacAddr => 23,
            NetworkDeviceFeatureBits0::NotifyOnEmpty => 24,
            NetworkDeviceFeatureBits0::AnyLayout => 27,
        }
    }

    pub open spec fn spec_field(self) -> Field {
        Field { mask: 1, shift: self.offset() }
    }

    /// The bit as a field of one bit.
    #[verifier::when_used_as_spec(spec_field)]
    pub fn field(self) -> (r: Field)
        ensures
            r == self.field(),
            r.shift < 32,
    {
        Field { mask: 1, shift: self.offset() }
    }
}

/// The registers of a legacy virtio device behind its register window.
#[derive(Clone, Copy, Debug, PartialEq, Eq, Structural)]
pub enum Register {
    MagicValue,
    Version,
    DeviceId,
    VendorId,
    HostFeatures,
    HostFeaturesSel,
    GuestFeatures,
    GuestFeaturesSel,
    GuestPageSize,
    QueueSel,
    QueueNumMax,
    QueueNum,
    QueueAlign,
    QueuePfn,
    QueueNotify,
    InterruptStatus,
    InterruptAck,
    DeviceStatus,
}

impl Register {
    pub open spec fn spec_offset(self) -> usize {
        match self {
            Register::MagicValue => 0x000,
            Register::Version => 0x004,
            Register::DeviceId => 0x008,
            Register::VendorId => 0x00c,
            Register::HostFeatures => 0x010,
            Register::HostFeaturesSel => 0x014,
            Register::GuestFeatures => 0x020,
            Register::GuestFeaturesSel => 0x024,
            Register::GuestPageSize => 0x028,
            Register::QueueSel => 0x030,
            Register::QueueNumMax => 0x034,
            Register::QueueNum => 0x038,
            Register::QueueAlign => 0x03c,
            Register::QueuePfn => 0x040,
            Register::QueueNotify => 0x050,
            Register::InterruptStatus => 0x060,
            Register::InterruptAck => 0x064,
            Register::DeviceStatus => 0x070,
        }
    }

    /// Offset of the register from the start of the window.
    #[verifier::when_used_as_spec(spec_offset)]
    pub fn offset(self) -> (r: usize)
        ensures
            r == self.offset(),
            r + 4 <= REGISTER_WINDOW_SIZE,
    {
        match self {
            Register::MagicValue => 0x000,
            Register::Version => 0x004,
            Register::DeviceId => 0x008,
            Register::VendorId => 0x00c,
            Register::HostFeatures => 0x010,
            Register::HostFeaturesSel => 0x014,
            Register::GuestFeatures => 0x020,
            Register::GuestFeaturesSel => 0x024,
            Register::GuestPageSize => 0x028,
            Register::QueueSel => 0x030,
            Register::QueueNumMax => 0x034,
            Register::QueueNum => 0x038,
            Register::QueueAlign => 0x03c,
            Register::QueuePfn => 0x040,
            Register::QueueNotify => 0x050,
            Register::InterruptStatus => 0x060,
            Register::InterruptAck => 0x064,
            Register::DeviceStatus => 0x070,
        }
    }

    /// Whether the driver may read the register.
    pub open spec fn is_readable(self) -> bool {
        match self {
            Register::MagicValue
            | Register::Version
            | Register::DeviceId
            | Register::VendorId
            | Register::HostFeatures
            | Register::QueueNumMax
            | Register::QueuePfn
            | Register::InterruptStatus
            | Register::DeviceStatus => true,
            _ => false,
        }
    }

    /// Whether the driver may write the register.
    pub open spec fn is_writable(self) -> bool {
        match self {
            Register::HostFeaturesSel
            | Register::GuestFeatures
            | Register::GuestFeaturesSel
            | Register::GuestPageSize
            | Register::QueueSel
            | Register::QueueNum
            | Register::QueueAlign
            | Register::QueuePfn
            | Register::QueueNotify
            | Register::InterruptAck
            | Register::DeviceStatus => true,
            _ => false,
        }
    }
}

/// The register window of one device. Every access to it is one volatile
/// 32-bit load or store at the register's offset from the base address.
#[derive(Clone, Copy, Debug, PartialEq, Eq, Structural)]
pub struct VirtioMMIORegister {
    base_address: usize,
}

impl VirtioMMIORegister {
    pub closed spec fn spec_base_address(&self) -> usize {
        self.base_address
    }

    /// The window lies inside the address space.
    pub open spec fn wf(&self) -> bool {
        self.base_address() + REGISTER_WINDOW_SIZE <= usize::MAX
    }

    pub fn new(base_address: usize) -> (r: VirtioMMIORegister)
        ensures
            r.base_address() == base_address,
    {
        VirtioMMIORegister { base_address }
    }

    /// Address of the window's first byte.
    #[verifier::when_used_as_spec(spec_base_address)]
    pub fn base_address(&self) -> (r: usize)
        ensures
            r == self.base_address(),
    {
        self.base_address
    }

    pub open spec fn spec_get(&self, register: Register) -> Access {
        Access::Load32 { addr: (self.base_address() + register.offset()) as usize }
    }

    /// The load that reads `register`.
    #[verifier::when_used_as_spec(spec_get)]
    pub fn get(&self, register: Register) -> (r: Access)
        requires
            self.wf(),
            register.is_readable(),
        ensures
            r == self.get(register),
    {
        Access::Load32 { addr: self.base_address + register.offset() }
    }

    pub open spec fn spec_set(&self, register: Register, value: u32) -> Access {
        Access::Store32 { addr: (self.base_address() + register.offset()) as usize, value }
    }

    /// The store that writes `value` to `register`.
    #[verifier::when_used_as_spec(spec_set)]
    pub fn set(&self, register: Register, value: u32) -> (r: Access)
        requires
            self.wf(),
            register.is_writable(),
        ensures
            r == self.set(register, value),
    {
        Access::Store32 { addr: self.base_address + register.offset(), value }
    }

    /// The store that writes one field of `register` and zero to its other
    /// bits.
    pub fn write(&self, register: Register, field: FieldValue) -> (r: Access)
        requires
            self.wf(),
            register.is_writable(),
        ensures
            r == self.set(register, field.value),
    {
        self.set(register, field.value)
    }

    /// The store that writes one field of `register` and keeps its other
    /// bits as `current`, the value that the register was read as.
    pub fn modify(&self, register: Register, current: u32, field: FieldValue) -> (r: Access)
        requires
            self.wf(),
            register.is_readable(),
            register.is_writable(),
        ensures
            r == self.set(register, field.modify(current)),
    {
        self.set(register, field.modify(current))
    }
}

} // verus!
