use windows_kernel_rs::client::{BufferSizes, IoctlKind};
use windows_kernel_rs::device_type::DeviceType;
use windows_kernel_rs::ioctl::{ControlCode, RequiredAccess, TransferMethod};

#[test]
fn unknown_any_access_neither_round_trips() {
    let code = ControlCode(
        DeviceType::Unknown,
        RequiredAccess::AnyAccess,
        0x800,
        TransferMethod::Neither,
    );
    let value: u32 = code.into();
    assert_eq!(value, 0x0022_2003);
    assert_eq!(ControlCode::from(value), code);
}

#[test]
fn encode_places_each_field_at_its_bits() {
    let code = ControlCode(
        DeviceType::Disk,
        RequiredAccess::ReadWriteData,
        0xabc,
        TransferMethod::OutputDirect,
    );
    let value: u32 = code.into();
    assert_eq!(value, (0x07 << 16) | (0x3 << 14) | (0xabc << 2) | 0x2);
    assert_eq!(value, 0x0007_eaf2);
}

#[test]
fn decode_reads_each_field_from_its_bits() {
    let code = ControlCode::from(0x0007_eaf2);
    assert_eq!(code.device_type(), DeviceType::Disk);
    assert_eq!(code.required_access(), RequiredAccess::ReadWriteData);
    assert_eq!(code.number(), 0xabc);
    assert_eq!(code.transfer_method(), TransferMethod::OutputDirect);
}

#[test]
fn every_well_formed_code_round_trips() {
    let categories = [
        DeviceType::Beep,
        DeviceType::Disk,
        DeviceType::Keyboard,
        DeviceType::Unknown,
        DeviceType::Port8042,
        DeviceType::Fips,
        DeviceType::WaveOut,
    ];
    let accesses = [
        RequiredAccess::AnyAccess,
        RequiredAccess::ReadData,
        RequiredAccess::WriteData,
        RequiredAccess::ReadWriteData,
    ];
    let methods = [
        TransferMethod::Neither,
        TransferMethod::InputDirect,
        TransferMethod::OutputDirect,
        TransferMethod::Buffered,
    ];
    let numbers = [0u32, 1, 0x7ff, 0x800, 0x801, 0xffe, 0xfff];
    for category in categories {
        for access in accesses {
            for method in methods {
                for number in numbers {
                    let code = ControlCode(category, access, number, method);
                    let value: u32 = code.into();
                    assert_eq!(ControlCode::from(value), code);
                }
            }
        }
    }
}

#[test]
fn function_number_is_cut_to_twelve_bits() {
    let wide = ControlCode(
        DeviceType::Unknown,
        RequiredAccess::ReadData,
        0x1801,
        TransferMethod::Buffered,
    );
    let narrow = ControlCode(
        DeviceType::Unknown,
        RequiredAccess::ReadData,
        0x801,
        TransferMethod::Buffered,
    );
    let wide_value: u32 = wide.into();
    let narrow_value: u32 = narrow.into();
    assert_eq!(wide_value, narrow_value);
    assert_eq!(wide_value, 0x0022_6004);
    assert_eq!(ControlCode::from(wide_value), narrow);
}

#[test]
fn unknown_category_number_decodes_to_unknown() {
    let code = ControlCode::from(0xffff_0000);
    assert_eq!(code.device_type(), DeviceType::Unknown);
    assert_eq!(code.required_access(), RequiredAccess::AnyAccess);
    assert_eq!(code.number(), 0);
    assert_eq!(code.transfer_method(), TransferMethod::Buffered);
    assert_eq!(ControlCode::from(0).device_type(), DeviceType::Unknown);
    assert_eq!(ControlCode::from(0x003b_0000).device_type(), DeviceType::Unknown);
}

#[test]
fn device_type_numbers_are_those_of_the_host() {
    assert_eq!(u32::from(DeviceType::Beep), 0x01);
    assert_eq!(u32::from(DeviceType::Cdrom), 0x02);
    assert_eq!(u32::from(DeviceType::Disk), 0x07);
    assert_eq!(u32::from(DeviceType::Keyboard), 0x0b);
    assert_eq!(u32::from(DeviceType::Null), 0x15);
    assert_eq!(u32::from(DeviceType::SerialMousePort), 0x1a);
    assert_eq!(u32::from(DeviceType::SerialPort), 0x1b);
    assert_eq!(u32::from(DeviceType::Unknown), 0x22);
    assert_eq!(u32::from(DeviceType::Port8042), 0x27);
    assert_eq!(u32::from(DeviceType::Acpi), 0x32);
    assert_eq!(u32::from(DeviceType::Fips), 0x3a);
}

#[test]
fn device_type_numbers_lead_back_to_their_category() {
    for number in 1u32..=58 {
        let category = DeviceType::from(number);
        assert_eq!(u32::from(category), number);
    }
    assert_eq!(DeviceType::from(0), DeviceType::Unknown);
    assert_eq!(DeviceType::from(59), DeviceType::Unknown);
    assert_eq!(DeviceType::from(0x22), DeviceType::Unknown);
    assert_eq!(DeviceType::from(u32::MAX), DeviceType::Unknown);
}

#[test]
fn transfer_method_reads_the_two_low_bits() {
    assert_eq!(TransferMethod::from(0), TransferMethod::Buffered);
    assert_eq!(TransferMethod::from(1), TransferMethod::InputDirect);
    assert_eq!(TransferMethod::from(2), TransferMethod::OutputDirect);
    assert_eq!(TransferMethod::from(3), TransferMethod::Neither);
    assert_eq!(TransferMethod::from(0xffff_fffd), TransferMethod::InputDirect);
    assert_eq!(u32::from(TransferMethod::Buffered), 0);
    assert_eq!(u32::from(TransferMethod::InputDirect), 1);
    assert_eq!(u32::from(TransferMethod::OutputDirect), 2);
    assert_eq!(u32::from(TransferMethod::Neither), 3);
}

#[test]
fn required_access_is_its_two_bits() {
    assert_eq!(RequiredAccess::AnyAccess.bits(), 0);
    assert_eq!(RequiredAccess::ReadData.bits(), 1);
    assert_eq!(RequiredAccess::WriteData.bits(), 2);
    assert_eq!(RequiredAccess::ReadWriteData.bits(), 3);
    assert_eq!(RequiredAccess::from_bits(0), Some(RequiredAccess::AnyAccess));
    assert_eq!(RequiredAccess::from_bits(1), Some(RequiredAccess::ReadData));
    assert_eq!(RequiredAccess::from_bits(2), Some(RequiredAccess::WriteData));
    assert_eq!(RequiredAccess::from_bits(3), Some(RequiredAccess::ReadWriteData));
    assert_eq!(RequiredAccess::from_bits(4), None);
    assert_eq!(RequiredAccess::from_bits(u32::MAX), None);
}

#[test]
fn client_codes_follow_their_kind() {
    assert_eq!(IoctlKind::Plain.code(DeviceType::Unknown, 0x800), 0x0022_2003);
    assert_eq!(IoctlKind::Read.code(DeviceType::Unknown, 0x801), 0x0022_6004);
    assert_eq!(IoctlKind::Write.code(DeviceType::Unknown, 0x802), 0x0022_a008);
    assert_eq!(IoctlKind::ReadWrite.code(DeviceType::Unknown, 0x803), 0x0022_e00c);
    assert_eq!(IoctlKind::Plain.required_access(), RequiredAccess::AnyAccess);
    assert_eq!(IoctlKind::Plain.transfer_method(), TransferMethod::Neither);
    assert_eq!(IoctlKind::Read.transfer_method(), TransferMethod::Buffered);
}

#[test]
fn client_buffers_follow_their_kind() {
    assert_eq!(IoctlKind::Plain.buffer_sizes(4), BufferSizes { input: 0, output: 0 });
    assert_eq!(IoctlKind::Read.buffer_sizes(4), BufferSizes { input: 4, output: 4 });
    assert_eq!(IoctlKind::Write.buffer_sizes(4), BufferSizes { input: 4, output: 0 });
    assert_eq!(IoctlKind::ReadWrite.buffer_sizes(4), BufferSizes { input: 4, output: 4 });
}
