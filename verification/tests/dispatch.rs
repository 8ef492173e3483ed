use windows_kernel_rs::device::{
    complete_with, default_operation, dispatch_callback, dispatch_device, route, Access,
    CategoryCheck, Completion, Device, DeviceDoFlags, DeviceExtension, DeviceFlags,
    DeviceOperations, Operation, RequestError, Routed,
};
use windows_kernel_rs::device_type::DeviceType;
use windows_kernel_rs::error::{
    Error, STATUS_ACCESS_VIOLATION, STATUS_END_OF_FILE, STATUS_INVALID_PARAMETER,
    STATUS_INVALID_USER_BUFFER, STATUS_SUCCESS, STATUS_UNSUCCESSFUL,
};
use windows_kernel_rs::io_controls;
use windows_kernel_rs::ioctl::{ControlCode, RequiredAccess, TransferMethod};
use windows_kernel_rs::reading_and_writing;
use windows_kernel_rs::request::{
    IoControlRequest, IoRequest, Irp, Parameters, ReadRequest, StackLocation, WriteRequest,
    IRP_MJ_CLEANUP, IRP_MJ_CLOSE, IRP_MJ_CREATE, IRP_MJ_DEVICE_CONTROL, IRP_MJ_READ,
    IRP_MJ_WRITE,
};

const DEVICE: usize = 0xd0d0_0000;

fn request_of(major_function: u8, parameters: Parameters, system_buffer: Option<Vec<u8>>) -> IoRequest {
    IoRequest::from_raw(Irp {
        address: 0x1234_5670,
        flags: 0,
        mdl: None,
        system_buffer,
        stack_location: StackLocation { major_function, parameters },
    })
}

fn control_request_of(
    category: DeviceType,
    access: RequiredAccess,
    number: u32,
    input: u32,
    output: u32,
    system_buffer: Option<Vec<u8>>,
) -> IoRequest {
    let code = ControlCode(category, access, number, TransferMethod::Buffered);
    request_of(
        IRP_MJ_DEVICE_CONTROL,
        Parameters::DeviceIoControl {
            output_buffer_length: output,
            input_buffer_length: input,
            io_control_code: code.into(),
        },
        system_buffer,
    )
}

struct Idle;

impl DeviceOperations for Idle {}

#[derive(Default)]
struct Counting {
    creates: u32,
    closes: u32,
    cleanups: u32,
    reads: u32,
    writes: u32,
    ioctls: u32,
}

impl Counting {
    fn calls(&self) -> u32 {
        self.creates + self.closes + self.cleanups + self.reads + self.writes + self.ioctls
    }
}

impl DeviceOperations for Counting {
    fn create(&mut self, _: &Device, request: IoRequest) -> Result<Completion, RequestError> {
        self.creates += 1;
        Ok(Completion::Complete(1, request))
    }

    fn close(&mut self, _: &Device, request: IoRequest) -> Result<Completion, RequestError> {
        self.closes += 1;
        Ok(Completion::Complete(2, request))
    }

    fn cleanup(&mut self, _: &Device, request: IoRequest) -> Result<Completion, RequestError> {
        self.cleanups += 1;
        Err(RequestError(Error::unsuccessful(), request))
    }

    fn read(&mut self, _: &Device, request: ReadRequest) -> Result<Completion, RequestError> {
        self.reads += 1;
        Ok(Completion::Complete(4, request.into()))
    }

    fn write(&mut self, _: &Device, request: WriteRequest) -> Result<Completion, RequestError> {
        self.writes += 1;
        Ok(Completion::Complete(5, request.into()))
    }

    fn ioctl(
        &mut self,
        device: &Device,
        request: IoControlRequest,
    ) -> Result<Completion, RequestError> {
        self.ioctls += 1;
        assert_eq!(device.as_raw(), DEVICE);
        assert_eq!(device.device_type(), DeviceType::Unknown);
        Ok(Completion::Complete(6, request.into()))
    }
}

#[test]
fn read_of_ten_stored_bytes_into_a_large_buffer_completes_with_ten() {
    let mut extension = DeviceExtension::new(
        DeviceType::Unknown,
        CategoryCheck::Enforced,
        reading_and_writing::MyDevice::new(),
    );
    let stored = b"0123456789".to_vec();
    let written = dispatch_device(
        DEVICE,
        &mut extension,
        request_of(
            IRP_MJ_WRITE,
            Parameters::Write { length: 10, byte_offset: 0 },
            Some(stored.clone()),
        ),
    );
    assert_eq!(written.status(), STATUS_SUCCESS);
    assert_eq!(written.information(), 10);
    assert_eq!(extension.data().data(), &stored[..]);

    let read = dispatch_device(
        DEVICE,
        &mut extension,
        request_of(
            IRP_MJ_READ,
            Parameters::Read { length: 4096, byte_offset: 0 },
            Some(vec![0xcc; 4096]),
        ),
    );
    assert_eq!(read.status(), STATUS_SUCCESS);
    assert_eq!(read.information(), 10);
    let buffer = read.irp().system_buffer.as_ref().unwrap();
    assert_eq!(buffer.len(), 4096);
    assert_eq!(&buffer[..10], &stored[..]);
    assert!(buffer[10..].iter().all(|byte| *byte == 0xcc));
    assert_eq!(extension.data().data(), &stored[..]);
}

#[test]
fn read_from_an_offset_copies_what_is_left() {
    let mut extension = DeviceExtension::new(
        DeviceType::Unknown,
        CategoryCheck::Enforced,
        reading_and_writing::MyDevice::new(),
    );
    dispatch_device(
        DEVICE,
        &mut extension,
        request_of(
            IRP_MJ_WRITE,
            Parameters::Write { length: 10, byte_offset: 0 },
            Some(b"0123456789".to_vec()),
        ),
    );
    let read = dispatch_device(
        DEVICE,
        &mut extension,
        request_of(
            IRP_MJ_READ,
            Parameters::Read { length: 16, byte_offset: 7 },
            Some(vec![0; 16]),
        ),
    );
    assert_eq!(read.status(), STATUS_SUCCESS);
    assert_eq!(read.information(), 3);
    assert_eq!(&read.irp().system_buffer.as_ref().unwrap()[..4], b"789\0");

    let read = dispatch_device(
        DEVICE,
        &mut extension,
        request_of(
            IRP_MJ_READ,
            Parameters::Read { length: 4, byte_offset: 2 },
            Some(vec![0; 4]),
        ),
    );
    assert_eq!(read.information(), 4);
    assert_eq!(read.irp().system_buffer, Some(b"2345".to_vec()));
}

#[test]
fn read_from_outside_the_stored_bytes_copies_nothing() {
    let mut extension = DeviceExtension::new(
        DeviceType::Unknown,
        CategoryCheck::Enforced,
        reading_and_writing::MyDevice::new(),
    );
    dispatch_device(
        DEVICE,
        &mut extension,
        request_of(
            IRP_MJ_WRITE,
            Parameters::Write { length: 3, byte_offset: 0 },
            Some(vec![1, 2, 3]),
        ),
    );
    for offset in [3i64, 4, 1 << 40, -1, i64::MIN, i64::MAX] {
        let read = dispatch_device(
            DEVICE,
            &mut extension,
            request_of(
                IRP_MJ_READ,
                Parameters::Read { length: 4, byte_offset: offset },
                Some(vec![9; 4]),
            ),
        );
        assert_eq!(read.status(), STATUS_SUCCESS);
        assert_eq!(read.information(), 0);
        assert_eq!(read.irp().system_buffer, Some(vec![9; 4]));
    }
}

#[test]
fn read_without_a_buffer_completes_with_nothing() {
    let mut extension = DeviceExtension::new(
        DeviceType::Unknown,
        CategoryCheck::Enforced,
        reading_and_writing::MyDevice::new(),
    );
    let read = dispatch_device(
        DEVICE,
        &mut extension,
        request_of(IRP_MJ_READ, Parameters::Read { length: 4, byte_offset: 0 }, None),
    );
    assert_eq!(read.status(), STATUS_SUCCESS);
    assert_eq!(read.information(), 0);
}

#[test]
fn write_at_a_later_offset_is_refused_as_end_of_file() {
    let mut extension = DeviceExtension::new(
        DeviceType::Unknown,
        CategoryCheck::Enforced,
        reading_and_writing::MyDevice::new(),
    );
    dispatch_device(
        DEVICE,
        &mut extension,
        request_of(
            IRP_MJ_WRITE,
            Parameters::Write { length: 2, byte_offset: 0 },
            Some(vec![1, 2]),
        ),
    );
    let refused = dispatch_device(
        DEVICE,
        &mut extension,
        request_of(
            IRP_MJ_WRITE,
            Parameters::Write { length: 3, byte_offset: 1 },
            Some(vec![7, 8, 9]),
        ),
    );
    assert_eq!(refused.status(), STATUS_END_OF_FILE);
    assert_eq!(refused.information(), 0);
    assert_eq!(refused.irp().system_buffer, Some(vec![7, 8, 9]));
    assert_eq!(extension.data().data(), &[1, 2][..]);
}

#[test]
fn write_stores_at_most_the_capacity() {
    let mut extension = DeviceExtension::new(
        DeviceType::Unknown,
        CategoryCheck::Enforced,
        reading_and_writing::MyDevice::new(),
    );
    let written = dispatch_device(
        DEVICE,
        &mut extension,
        request_of(
            IRP_MJ_WRITE,
            Parameters::Write { length: 5000, byte_offset: 0 },
            Some(vec![0x5a; 5000]),
        ),
    );
    assert_eq!(written.status(), STATUS_SUCCESS);
    assert_eq!(written.information(), 4096);
    assert_eq!(extension.data().data().len(), 4096);
    assert_eq!(reading_and_writing::CAPACITY, 4096);
    let written = dispatch_device(
        DEVICE,
        &mut extension,
        request_of(IRP_MJ_WRITE, Parameters::Write { length: 0, byte_offset: -5 }, Some(vec![])),
    );
    assert_eq!(written.status(), STATUS_SUCCESS);
    assert_eq!(written.information(), 0);
    assert!(extension.data().data().is_empty());
}

#[test]
fn control_code_of_another_category_is_refused_before_the_handler() {
    let mut extension =
        DeviceExtension::new(DeviceType::Unknown, CategoryCheck::Enforced, Counting::default());
    let completed = dispatch_device(
        DEVICE,
        &mut extension,
        control_request_of(DeviceType::Disk, RequiredAccess::AnyAccess, 0x800, 0, 0, None),
    );
    assert_eq!(completed.status(), STATUS_INVALID_PARAMETER);
    assert_eq!(completed.information(), 0);
    assert_eq!(completed.irp().address, 0x1234_5670);
    assert_eq!(extension.data().calls(), 0);
}

#[test]
fn control_code_of_the_same_category_reaches_the_handler() {
    let mut extension =
        DeviceExtension::new(DeviceType::Unknown, CategoryCheck::Enforced, Counting::default());
    let completed = dispatch_device(
        DEVICE,
        &mut extension,
        control_request_of(DeviceType::Unknown, RequiredAccess::AnyAccess, 0x800, 0, 0, None),
    );
    assert_eq!(completed.status(), STATUS_SUCCESS);
    assert_eq!(completed.information(), 6);
    assert_eq!(extension.data().ioctls, 1);
    assert_eq!(extension.data().calls(), 1);
}

#[test]
fn control_code_of_another_category_passes_where_the_check_is_skipped() {
    let mut extension =
        DeviceExtension::new(DeviceType::Unknown, CategoryCheck::Skipped, Counting::default());
    let completed = dispatch_device(
        DEVICE,
        &mut extension,
        control_request_of(DeviceType::Disk, RequiredAccess::AnyAccess, 0x800, 0, 0, None),
    );
    assert_eq!(completed.status(), STATUS_SUCCESS);
    assert_eq!(completed.information(), 6);
    assert_eq!(extension.data().ioctls, 1);
}

#[test]
fn unrecognized_operation_is_refused_before_the_handler() {
    let mut extension =
        DeviceExtension::new(DeviceType::Unknown, CategoryCheck::Enforced, Counting::default());
    for major in [0x01u8, 0x05, 0x0d, 0x0f, 0x11, 0x13, 0x1b, 0xff] {
        let completed =
            dispatch_device(DEVICE, &mut extension, request_of(major, Parameters::Other, None));
        assert_eq!(completed.status(), STATUS_INVALID_PARAMETER);
        assert_eq!(completed.information(), 0);
        assert_eq!(completed.irp().address, 0x1234_5670);
        assert_eq!(completed.irp().stack_location.major_function, major);
    }
    assert_eq!(extension.data().calls(), 0);
}

#[test]
fn every_operation_code_reaches_its_own_handler() {
    let mut extension =
        DeviceExtension::new(DeviceType::Unknown, CategoryCheck::Enforced, Counting::default());
    let expected = [
        (IRP_MJ_CREATE, STATUS_SUCCESS, 1usize),
        (IRP_MJ_CLOSE, STATUS_SUCCESS, 2),
        (IRP_MJ_CLEANUP, STATUS_UNSUCCESSFUL, 0),
        (IRP_MJ_READ, STATUS_SUCCESS, 4),
        (IRP_MJ_WRITE, STATUS_SUCCESS, 5),
    ];
    for (major, status, information) in expected {
        let completed =
            dispatch_device(DEVICE, &mut extension, request_of(major, Parameters::Other, None));
        assert_eq!(completed.status(), status);
        assert_eq!(completed.information(), information);
        assert_eq!(completed.irp().address, 0x1234_5670);
    }
    let data = extension.data();
    assert_eq!(
        (data.creates, data.closes, data.cleanups, data.reads, data.writes, data.ioctls),
        (1, 1, 1, 1, 1, 0)
    );
}

#[test]
fn dispatch_callback_goes_by_the_code_it_is_given() {
    let mut extension =
        DeviceExtension::new(DeviceType::Unknown, CategoryCheck::Enforced, Counting::default());
    let completed = dispatch_callback(
        DEVICE,
        &mut extension,
        request_of(IRP_MJ_READ, Parameters::Other, None),
        IRP_MJ_CLOSE,
    );
    assert_eq!(completed.information(), 2);
    assert_eq!(extension.data().closes, 1);
    assert_eq!(extension.data().reads, 0);
}

#[test]
fn operations_that_are_not_written_succeed_with_no_bytes() {
    let mut extension = DeviceExtension::new(DeviceType::Unknown, CategoryCheck::Enforced, Idle);
    for major in [IRP_MJ_CREATE, IRP_MJ_CLOSE, IRP_MJ_CLEANUP, IRP_MJ_READ, IRP_MJ_WRITE] {
        let completed = dispatch_device(
            DEVICE,
            &mut extension,
            request_of(major, Parameters::Other, Some(vec![1, 2, 3])),
        );
        assert_eq!(completed.status(), STATUS_SUCCESS);
        assert_eq!(completed.information(), 0);
        assert_eq!(completed.irp().system_buffer, Some(vec![1, 2, 3]));
    }
    let completed = dispatch_device(
        DEVICE,
        &mut extension,
        control_request_of(DeviceType::Unknown, RequiredAccess::AnyAccess, 1, 0, 0, None),
    );
    assert_eq!(completed.status(), STATUS_SUCCESS);
    assert_eq!(completed.information(), 0);
}

#[test]
fn default_operation_hands_the_request_back() {
    let request = request_of(IRP_MJ_CREATE, Parameters::Other, None);
    match default_operation(request) {
        Ok(Completion::Complete(bytes, request)) => {
            assert_eq!(bytes, 0);
            assert_eq!(request.irp().address, 0x1234_5670);
        }
        Err(_) => panic!("the default operation failed"),
    }
}

#[test]
fn complete_with_follows_the_outcome() {
    let done = complete_with(Ok(Completion::Complete(
        7,
        request_of(IRP_MJ_CREATE, Parameters::Other, None),
    )));
    assert_eq!((done.status(), done.information()), (STATUS_SUCCESS, 7));
    let failed = complete_with(Err(RequestError(
        Error::end_of_file(),
        request_of(IRP_MJ_CREATE, Parameters::Other, None),
    )));
    assert_eq!((failed.status(), failed.information()), (STATUS_END_OF_FILE, 0));
    assert_eq!(failed.irp().address, 0x1234_5670);
}

#[test]
fn operation_codes_name_their_operations() {
    assert_eq!(Operation::from_major(0x00), Operation::Create);
    assert_eq!(Operation::from_major(0x02), Operation::Close);
    assert_eq!(Operation::from_major(0x03), Operation::Read);
    assert_eq!(Operation::from_major(0x04), Operation::Write);
    assert_eq!(Operation::from_major(0x0e), Operation::DeviceControl);
    assert_eq!(Operation::from_major(0x12), Operation::Cleanup);
    assert_eq!(Operation::from_major(0x01), Operation::Unrecognized);
    assert_eq!(Operation::from_major(0x1b), Operation::Unrecognized);
    assert_eq!(Operation::from_major(0xff), Operation::Unrecognized);
}

#[test]
fn value_device_hands_out_its_value() {
    let mut extension = DeviceExtension::new(
        DeviceType::Unknown,
        CategoryCheck::Enforced,
        io_controls::MyDevice::new(0x1234_5678),
    );
    let completed = dispatch_device(
        DEVICE,
        &mut extension,
        control_request_of(
            DeviceType::Unknown,
            RequiredAccess::ReadData,
            io_controls::IOCTL_READ_VALUE,
            4,
            4,
            Some(vec![0; 4]),
        ),
    );
    assert_eq!(completed.status(), STATUS_SUCCESS);
    assert_eq!(completed.information(), 4);
    assert_eq!(completed.irp().system_buffer, Some(vec![0x78, 0x56, 0x34, 0x12]));
    assert_eq!(extension.data().value(), 0x1234_5678);
}

#[test]
fn value_device_takes_a_new_value() {
    let mut extension = DeviceExtension::new(
        DeviceType::Unknown,
        CategoryCheck::Enforced,
        io_controls::MyDevice::new(1),
    );
    let completed = dispatch_device(
        DEVICE,
        &mut extension,
        control_request_of(
            DeviceType::Unknown,
            RequiredAccess::WriteData,
            io_controls::IOCTL_WRITE_VALUE,
            4,
            0,
            Some(vec![0xef, 0xbe, 0xad, 0xde]),
        ),
    );
    assert_eq!(completed.status(), STATUS_SUCCESS);
    assert_eq!(completed.information(), 0);
    assert_eq!(extension.data().value(), 0xdead_beef);
}

#[test]
fn value_device_logs_for_every_access() {
    for access in [
        RequiredAccess::AnyAccess,
        RequiredAccess::ReadData,
        RequiredAccess::WriteData,
        RequiredAccess::ReadWriteData,
    ] {
        let mut extension = DeviceExtension::new(
            DeviceType::Unknown,
            CategoryCheck::Enforced,
            io_controls::MyDevice::new(5),
        );
        let completed = dispatch_device(
            DEVICE,
            &mut extension,
            control_request_of(
                DeviceType::Unknown,
                access,
                io_controls::IOCTL_PRINT_VALUE,
                0,
                0,
                None,
            ),
        );
        assert_eq!(completed.status(), STATUS_SUCCESS);
        assert_eq!(completed.information(), 0);
        assert_eq!(extension.data().value(), 5);
    }
}

#[test]
fn value_device_refuses_what_it_does_not_know() {
    let cases = [
        (RequiredAccess::AnyAccess, io_controls::IOCTL_READ_VALUE),
        (RequiredAccess::WriteData, io_controls::IOCTL_READ_VALUE),
        (RequiredAccess::ReadData, io_controls::IOCTL_WRITE_VALUE),
        (RequiredAccess::ReadWriteData, io_controls::IOCTL_WRITE_VALUE),
        (RequiredAccess::ReadData, 0x803),
        (RequiredAccess::AnyAccess, 0),
    ];
    for (access, number) in cases {
        let mut extension = DeviceExtension::new(
            DeviceType::Unknown,
            CategoryCheck::Enforced,
            io_controls::MyDevice::new(5),
        );
        let completed = dispatch_device(
            DEVICE,
            &mut extension,
            control_request_of(DeviceType::Unknown, access, number, 4, 4, Some(vec![1; 4])),
        );
        assert_eq!(completed.status(), STATUS_INVALID_PARAMETER);
        assert_eq!(completed.information(), 0);
        assert_eq!(completed.irp().system_buffer, Some(vec![1; 4]));
        assert_eq!(extension.data().value(), 5);
    }
}

#[test]
fn value_device_fails_on_a_buffer_that_is_too_small() {
    let mut extension = DeviceExtension::new(
        DeviceType::Unknown,
        CategoryCheck::Enforced,
        io_controls::MyDevice::new(5),
    );
    let completed = dispatch_device(
        DEVICE,
        &mut extension,
        control_request_of(
            DeviceType::Unknown,
            RequiredAccess::ReadData,
            io_controls::IOCTL_READ_VALUE,
            4,
            3,
            Some(vec![0; 4]),
        ),
    );
    assert_eq!(completed.status(), STATUS_INVALID_USER_BUFFER);
    assert_eq!(completed.information(), 0);
    assert_eq!(completed.irp().system_buffer, Some(vec![0; 4]));
    let completed = dispatch_device(
        DEVICE,
        &mut extension,
        control_request_of(
            DeviceType::Unknown,
            RequiredAccess::WriteData,
            io_controls::IOCTL_WRITE_VALUE,
            4,
            0,
            None,
        ),
    );
    assert_eq!(completed.status(), STATUS_ACCESS_VIOLATION);
    assert_eq!(completed.information(), 0);
    assert_eq!(extension.data().value(), 5);
}

#[test]
fn value_device_serves_its_calls_one_by_one() {
    let mut device = io_controls::MyDevice::new(3);
    let mut request = IoControlRequest::new(control_request_of(
        DeviceType::Unknown,
        RequiredAccess::ReadWriteData,
        0,
        4,
        4,
        Some(vec![9, 0, 0, 0]),
    ));
    assert_eq!(device.print_value(&request), Ok(0));
    assert_eq!(device.write_value(&mut request), Ok(0));
    assert_eq!(device.value(), 9);
    let mut device = io_controls::MyDevice::new(3);
    assert_eq!(device.read_value(&mut request), Ok(4));
    assert_eq!(request.into_request().irp().system_buffer, Some(vec![3, 0, 0, 0]));
}

#[test]
fn release_hands_out_the_operations() {
    let mut extension =
        DeviceExtension::new(DeviceType::Disk, CategoryCheck::Enforced, Counting::default());
    assert_eq!(extension.device_type(), DeviceType::Disk);
    dispatch_device(DEVICE, &mut extension, request_of(IRP_MJ_CREATE, Parameters::Other, None));
    assert_eq!(extension.device_type(), DeviceType::Disk);
    let data = extension.release();
    assert_eq!(data.creates, 1);
}

#[test]
fn device_keeps_its_address_and_category() {
    let device = Device::from_raw(DEVICE, DeviceType::Keyboard);
    assert_eq!(device.as_raw(), DEVICE);
    assert_eq!(device.device_type(), DeviceType::Keyboard);
    assert_eq!(device.into_raw(), DEVICE);
}

#[test]
fn access_and_flags_say_what_they_are() {
    assert!(Access::Exclusive.is_exclusive());
    assert!(!Access::NonExclusive.is_exclusive());
    assert_eq!(DeviceFlags::empty().bits(), 0);
    assert_eq!(DeviceFlags::secure_open().bits(), 0x100);
    assert_eq!(DeviceFlags::from_bits(0x100), Some(DeviceFlags::secure_open()));
    assert_eq!(DeviceFlags::from_bits(0), Some(DeviceFlags::empty()));
    assert_eq!(DeviceFlags::from_bits(0x101), None);
    assert_eq!(DeviceDoFlags::empty().bits(), 0);
    assert_eq!(DeviceDoFlags::buffered_io().bits(), 0x4);
    assert_eq!(DeviceDoFlags::direct_io().bits(), 0x10);
    assert_eq!(DeviceDoFlags::from_bits(0x14).map(|flags| flags.bits()), Some(0x14));
    assert_eq!(DeviceDoFlags::from_bits(0x4), Some(DeviceDoFlags::buffered_io()));
    assert_eq!(DeviceDoFlags::from_bits(0x1), None);
}

#[test]
fn route_narrows_a_request_to_its_operation() {
    let device = Device::from_raw(DEVICE, DeviceType::Unknown);
    let check = CategoryCheck::Enforced;
    let plain = || request_of(IRP_MJ_CREATE, Parameters::Other, None);
    assert!(matches!(route(&device, check, plain(), IRP_MJ_CREATE), Routed::Create(_)));
    assert!(matches!(route(&device, check, plain(), IRP_MJ_CLOSE), Routed::Close(_)));
    assert!(matches!(route(&device, check, plain(), IRP_MJ_CLEANUP), Routed::Cleanup(_)));
    let read = request_of(
        IRP_MJ_READ,
        Parameters::Read { length: 2, byte_offset: 9 },
        Some(vec![0; 2]),
    );
    match route(&device, check, read, IRP_MJ_READ) {
        Routed::Read(mut read) => {
            assert_eq!(read.offset(), 9);
            assert_eq!(read.user_ptr().write_size(), 2);
            assert_eq!(read.user_ptr().read_size(), 0);
        }
        _ => panic!("a read was not routed as a read"),
    }
    let write = request_of(
        IRP_MJ_WRITE,
        Parameters::Write { length: 2, byte_offset: 9 },
        Some(vec![5, 6]),
    );
    match route(&device, check, write, IRP_MJ_WRITE) {
        Routed::Write(write) => {
            assert_eq!(write.offset(), 9);
            assert_eq!(write.user_ptr().as_slice(), &[5, 6][..]);
        }
        _ => panic!("a write was not routed as a write"),
    }
    let control =
        control_request_of(DeviceType::Unknown, RequiredAccess::ReadData, 7, 1, 2, Some(vec![0; 2]));
    match route(&device, check, control, IRP_MJ_DEVICE_CONTROL) {
        Routed::DeviceControl(mut control) => {
            assert_eq!(control.function(), (RequiredAccess::ReadData, 7));
            assert_eq!(control.user_ptr().read_size(), 1);
            assert_eq!(control.user_ptr().write_size(), 2);
        }
        _ => panic!("a control request was not routed as a control request"),
    }
}

#[test]
fn route_refuses_what_is_not_dispatched() {
    let device = Device::from_raw(DEVICE, DeviceType::Unknown);
    let foreign = || {
        control_request_of(DeviceType::Disk, RequiredAccess::ReadData, 7, 1, 2, Some(vec![3; 2]))
    };
    match route(&device, CategoryCheck::Enforced, foreign(), IRP_MJ_DEVICE_CONTROL) {
        Routed::Refused(RequestError(error, request)) => {
            assert_eq!(error, Error::invalid_parameter());
            assert_eq!(request.irp().system_buffer, Some(vec![3; 2]));
            assert_eq!(request.irp().address, 0x1234_5670);
        }
        _ => panic!("a control code of another category was not refused"),
    }
    assert!(matches!(
        route(&device, CategoryCheck::Skipped, foreign(), IRP_MJ_DEVICE_CONTROL),
        Routed::DeviceControl(_)
    ));
    match route(&device, CategoryCheck::Skipped, foreign(), 0x0f) {
        Routed::Refused(RequestError(error, request)) => {
            assert_eq!(error, Error::invalid_parameter());
            assert_eq!(request.major(), IRP_MJ_DEVICE_CONTROL);
        }
        _ => panic!("an operation that is not dispatched was not refused"),
    }
}
