use virtio_forwarder::access::Access;
use virtio_forwarder::virtio_device_register::{
    DeviceStatus, Field, FieldValue, NetworkDeviceFeatureBits0, Register, VirtioMMIORegister,
};

#[test]
fn registers_lie_at_their_offsets() {
    let expected: [(Register, usize); 18] = [
        (Register::MagicValue, 0x000),
        (Register::Version, 0x004),
        (Register::DeviceId, 0x008),
        (Register::VendorId, 0x00c),
        (Register::HostFeatures, 0x010),
        (Register::HostFeaturesSel, 0x014),
        (Register::GuestFeatures, 0x020),
        (Register::GuestFeaturesSel, 0x024),
        (Register::GuestPageSize, 0x028),
        (Register::QueueSel, 0x030),
        (Register::QueueNumMax, 0x034),
        (Register::QueueNum, 0x038),
        (Register::QueueAlign, 0x03c),
        (Register::QueuePfn, 0x040),
        (Register::QueueNotify, 0x050),
        (Register::InterruptStatus, 0x060),
        (Register::InterruptAck, 0x064),
        (Register::DeviceStatus, 0x070),
    ];
    for (register, offset) in expected.iter() {
        assert_eq!(register.offset(), *offset);
    }
}

#[test]
fn window_accesses_are_32_bit_at_base_plus_offset() {
    let window = VirtioMMIORegister::new(0x0a00_3e00);
    assert_eq!(window.base_address(), 0x0a00_3e00);
    assert_eq!(window.get(Register::MagicValue), Access::Load32 { addr: 0x0a00_3e00 });
    assert_eq!(window.get(Register::QueueNumMax), Access::Load32 { addr: 0x0a00_3e34 });
    assert_eq!(window.get(Register::DeviceStatus), Access::Load32 { addr: 0x0a00_3e70 });
    assert_eq!(
        window.set(Register::QueueNotify, 1),
        Access::Store32 { addr: 0x0a00_3e50, value: 1 }
    );
    assert_eq!(
        window.set(Register::GuestPageSize, 2048),
        Access::Store32 { addr: 0x0a00_3e28, value: 2048 }
    );
}

#[test]
fn device_status_bits() {
    assert_eq!(DeviceStatus::Acknowledge.offset(), 0);
    assert_eq!(DeviceStatus::Driver.offset(), 1);
    assert_eq!(DeviceStatus::DriverOk.offset(), 2);
    assert_eq!(DeviceStatus::FeaturesOk.offset(), 3);
    assert_eq!(DeviceStatus::DeviceNeedsReset.offset(), 6);
    assert_eq!(DeviceStatus::Failed.offset(), 7);
    assert_eq!(DeviceStatus::Failed.field(), Field { mask: 1, shift: 7 });
}

#[test]
fn mac_feature_is_bit_5() {
    assert_eq!(NetworkDeviceFeatureBits0::Mac.offset(), 5);
    assert_eq!(NetworkDeviceFeatureBits0::Mac.field().val(1).value, 32);
    assert_eq!(NetworkDeviceFeatureBits0::Csum.offset(), 0);
    assert_eq!(NetworkDeviceFeatureBits0::MrgRxbuf.offset(), 15);
    assert_eq!(NetworkDeviceFeatureBits0::GuestAnnounce.offset(), 21);
    assert_eq!(NetworkDeviceFeatureBits0::AnyLayout.offset(), 27);
}

#[test]
fn field_value_is_cut_and_shifted() {
    let field = Field { mask: 0b111, shift: 4 };
    assert_eq!(field.val(0b101), FieldValue { mask: 0b111_0000, value: 0b101_0000 });
    assert_eq!(field.val(0b1101), FieldValue { mask: 0b111_0000, value: 0b101_0000 });
    assert_eq!(field.val(0), FieldValue { mask: 0b111_0000, value: 0 });
}

#[test]
fn modify_replaces_only_the_field() {
    let field = Field { mask: 0b111, shift: 4 };
    assert_eq!(field.val(0b010).modify(0xffff_ffff), 0xffff_ffaf);
    assert_eq!(field.val(0b010).modify(0), 0x20);
    assert_eq!(DeviceStatus::Acknowledge.field().val(1).modify(0), 1);
    assert_eq!(DeviceStatus::Driver.field().val(1).modify(1), 3);
    assert_eq!(DeviceStatus::DriverOk.field().val(1).modify(3), 7);
    assert_eq!(DeviceStatus::DriverOk.field().val(0).modify(0xff), 0xfb);
}

#[test]
fn read_looks_at_the_field() {
    let field = Field { mask: 0b111, shift: 4 };
    assert_eq!(field.read(0xffff_ffaf), 0b010);
    assert_eq!(field.read(0x8f), 0);
    assert_eq!(DeviceStatus::Failed.field().read(0x80), 1);
    assert_eq!(DeviceStatus::Failed.field().read(0x7f), 0);
}

#[test]
fn write_and_modify_store_to_the_register() {
    let window = VirtioMMIORegister::new(0x1000);
    assert_eq!(
        window.write(Register::GuestFeatures, NetworkDeviceFeatureBits0::Mac.field().val(1)),
        Access::Store32 { addr: 0x1020, value: 32 }
    );
    assert_eq!(
        window.modify(Register::DeviceStatus, 0x41, DeviceStatus::Driver.field().val(1)),
        Access::Store32 { addr: 0x1070, value: 0x43 }
    );
}
