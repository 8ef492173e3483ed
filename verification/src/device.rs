//! Devices, the operations that a driver implements for them, and the
//! dispatch of requests to those operations.
//!
//! A driver describes a device by a value of a type that implements
//! [`DeviceOperations`]: one method for each kind of request, each with a
//! default that does nothing and succeeds. The value lives in the
//! [`DeviceExtension`] of the device from the creation of the device to its
//! release. [`dispatch_device`] takes one request for the device, calls the
//! method that the code of its operation selects, and completes the request
//! with what the method returned. Whatever happens on the way, the request is
//! completed, and completed once: it goes in as an [`IoRequest`] and comes
//! out as a [`CompletedRequest`].

use vstd::prelude::*;
use crate::device_type::DeviceType;
use crate::error::{Error, STATUS_INVALID_PARAMETER, STATUS_SUCCESS};
use crate::request::{
    completion_status, CompletedRequest, CompletedView, IoControlRequest, IoRequest, IoStatus,
    IrpView, ReadRequest, RequestView, WriteRequest, IRP_MJ_CLEANUP, IRP_MJ_CLOSE, IRP_MJ_CREATE,
    IRP_MJ_DEVICE_CONTROL, IRP_MJ_READ, IRP_MJ_WRITE,
};

verus! {

/// Whether a device can be opened by one caller at a time or by many.
#[derive(Copy, Clone, Debug, PartialEq, Eq, Structural)]
pub enum Access {
    NonExclusive,
    Exclusive,
}

impl Access {
    /// Whether the device can be opened by one caller at a time only.
    pub fn is_exclusive(&self) -> (exclusive: bool)
        ensures
            exclusive <==> *self == Access::Exclusive,
    {
        match *self {
            Access::Exclusive => true,
            _ => false,
        }
    }
}

/// The device is opened securely: the host checks the access of every caller
/// that opens it.
pub const FILE_DEVICE_SECURE_OPEN: u32 = 0x0000_0100;

/// Reads and writes go through a buffer of the host.
pub const DO_BUFFERED_IO: u32 = 0x0000_0004;

/// Reads and writes go directly to the locked pages of the caller.
pub const DO_DIRECT_IO: u32 = 0x0000_0010;

/// Both ways in which a device can take its reads and writes.
pub const DO_ALL_FLAGS: u32 = 0x0000_0014;

/// The characteristics of a device. The set never holds a bit other than
/// [`FILE_DEVICE_SECURE_OPEN`].
#[derive(Copy, Clone, Debug, PartialEq, Eq, Structural)]
pub struct DeviceFlags {
    bits: u32,
}

impl View for DeviceFlags {
    type V = u32;

    closed spec fn view(&self) -> u32 {
        self.bits
    }
}

impl DeviceFlags {
    #[verifier::type_invariant]
    spec fn known_bits_only(self) -> bool {
        self.bits == 0 || self.bits == FILE_DEVICE_SECURE_OPEN
    }

    /// No characteristic.
    pub fn empty() -> (flags: DeviceFlags)
        ensures
            flags@ == 0,
    {
        DeviceFlags { bits: 0 }
    }

    /// The device is opened securely.
    pub fn secure_open() -> (flags: DeviceFlags)
        ensures
            flags@ == FILE_DEVICE_SECURE_OPEN,
    {
        DeviceFlags { bits: FILE_DEVICE_SECURE_OPEN }
    }

    /// The characteristics as a bit pattern.
    pub fn bits(&self) -> (bits: u32)
        ensures
            bits == self@,
            bits == 0 || bits == FILE_DEVICE_SECURE_OPEN,
    {
        proof {
            use_type_invariant(self);
        }
        self.bits
    }

    /// The characteristics that a bit pattern stands for. `None` when the
    /// pattern holds a bit that is no characteristic.
    pub fn from_bits(bits: u32) -> (flags: Option<DeviceFlags>)
        ensures
            match flags {
                Some(flags) => flags@ == bits && (bits == 0 || bits == FILE_DEVICE_SECURE_OPEN),
                None => bits != 0 && bits != FILE_DEVICE_SECURE_OPEN,
            },
    {
        if bits == 0 || bits == FILE_DEVICE_SECURE_OPEN {
            Some(DeviceFlags { bits })
        } else {
            None
        }
    }
}

/// The ways in which a device takes its reads and writes. The set never holds
/// a bit other than [`DO_BUFFERED_IO`] and [`DO_DIRECT_IO`].
#[derive(Copy, Clone, Debug, PartialEq, Eq, Structural)]
pub struct DeviceDoFlags {
    bits: u32,
}

impl View for DeviceDoFlags {
    type V = u32;

    closed spec fn view(&self) -> u32 {
        self.bits
    }
}

impl DeviceDoFlags {
    #[verifier::type_invariant]
    spec fn known_bits_only(self) -> bool {
        self.bits & !DO_ALL_FLAGS == 0
    }

    /// Neither way.
    pub fn empty() -> (flags: DeviceDoFlags)
        ensures
            flags@ == 0,
    {
        assert(0u32 & !0x14u32 == 0) by (bit_vector);
        DeviceDoFlags { bits: 0 }
    }

    /// Reads and writes go through a buffer of the host.
    pub fn buffered_io() -> (flags: DeviceDoFlags)
        ensures
            flags@ == DO_BUFFERED_IO,
    {
        assert(0x4u32 & !0x14u32 == 0) by (bit_vector);
        DeviceDoFlags { bits: DO_BUFFERED_IO }
    }

    /// Reads and writes go directly to the locked pages of the caller.
    pub fn direct_io() -> (flags: DeviceDoFlags)
        ensures
            flags@ == DO_DIRECT_IO,
    {
        assert(0x10u32 & !0x14u32 == 0) by (bit_vector);
        DeviceDoFlags { bits: DO_DIRECT_IO }
    }

    /// The flags as a bit pattern.
    pub fn bits(&self) -> (bits: u32)
        ensures
            bits == self@,
            bits & !DO_ALL_FLAGS == 0,
    {
        proof {
            use_type_invariant(self);
        }
        self.bits
    }

    /// The flags that a bit pattern stands for. `None` when the pattern holds
    /// a bit that is no flag.
    pub fn from_bits(bits: u32) -> (flags: Option<DeviceDoFlags>)
        ensures
            match flags {
                Some(flags) => flags@ == bits && bits & !DO_ALL_FLAGS == 0,
                None => bits & !DO_ALL_FLAGS != 0,
            },
    {
        if bits & !DO_ALL_FLAGS == 0 {
            Some(DeviceDoFlags { bits })
        } else {
            None
        }
    }
}

/// Whether a device-control request must carry the category of the device in
/// its control code.
#[derive(Copy, Clone, Debug, PartialEq, Eq, Structural)]
pub enum CategoryCheck {
    /// A control code of another category is refused before the driver sees
    /// the request.
    Enforced,
    /// The category in the control code is not looked at.
    Skipped,
}

/// A device, as the operations of a driver see it.
#[derive(Debug)]
pub struct Device {
    raw: usize,
    device_type: DeviceType,
}

impl Device {
    /// The address of the device.
    pub closed spec fn spec_raw(&self) -> usize {
        self.raw
    }

    /// The category of the device.
    pub closed spec fn spec_device_type(&self) -> DeviceType {
        self.device_type
    }

    /// The device at the given address of the host, of the given category.
    pub fn from_raw(raw: usize, device_type: DeviceType) -> (device: Device)
        ensures
            device.spec_raw() == raw,
            device.spec_device_type() == device_type,
    {
        Device { raw, device_type }
    }

    /// The address of the device.
    #[verifier::when_used_as_spec(spec_raw)]
    pub fn as_raw(&self) -> (raw: usize)
        ensures
            raw == self.spec_raw(),
    {
        self.raw
    }

    /// Gives the device back to the host: what is left is its address.
    pub fn into_raw(self) -> (raw: usize)
        ensures
            raw == self.spec_raw(),
    {
        self.raw
    }

    /// The category of the device.
    #[verifier::when_used_as_spec(spec_device_type)]
    pub fn device_type(&self) -> (device_type: DeviceType)
        ensures
            device_type == self.spec_device_type(),
    {
        self.device_type
    }
}

/// A failed operation: the error, and the request that is to be completed
/// with it.
#[derive(Debug)]
pub struct RequestError(pub Error, pub IoRequest);

/// A successful operation.
#[derive(Debug)]
pub enum Completion {
    /// The operation is done: the number of bytes it moved, and the request
    /// that is to be completed.
    Complete(u32, IoRequest),
}

/// The request that an operation hands back, in success or in failure.
pub open spec fn handed_back(result: Result<Completion, RequestError>) -> IoRequest {
    match result {
        Ok(Completion::Complete(_, request)) => request,
        Err(RequestError(_, request)) => request,
    }
}

/// What an operation says of its outcome: the number of bytes it moved, or its
/// error.
pub open spec fn outcome(result: Result<Completion, RequestError>) -> Result<u32, Error> {
    match result {
        Ok(Completion::Complete(bytes, _)) => Ok(bytes),
        Err(RequestError(error, _)) => Err(error),
    }
}

/// Two states of one packet: they differ at most in the content of the
/// packet's memory.
pub open spec fn same_packet(before: IrpView, after: IrpView) -> bool {
    &&& after.address == before.address
    &&& after.flags == before.flags
    &&& after.stack_location == before.stack_location
    &&& (after.mdl is Some) == (before.mdl is Some)
    &&& before.mdl is Some ==> after.mdl.unwrap().byte_count == before.mdl.unwrap().byte_count
        && after.mdl.unwrap().byte_offset == before.mdl.unwrap().byte_offset
}

/// What an operation does that a driver has not written: it moves no bytes
/// and succeeds, and hands the request back as it came.
pub fn default_operation(request: IoRequest) -> (result: Result<Completion, RequestError>)
    ensures
        result == Ok::<Completion, RequestError>(Completion::Complete(0, request)),
{
    Ok(Completion::Complete(0, request))
}

/// The operations of a device.
///
/// Each method receives the request and must hand the same request back, in
/// its `Ok` or in its `Err`: this is how the request reaches its completion.
/// A method that is not overridden is [`default_operation`].
pub trait DeviceOperations: Sized {
    /// The device is opened.
    fn create(&mut self, device: &Device, request: IoRequest) -> (result: Result<
        Completion,
        RequestError,
    >)
        ensures
            same_packet(request@, handed_back(result)@),
    {
        default_operation(request)
    }

    /// A handle to the device is closed.
    fn close(&mut self, device: &Device, request: IoRequest) -> (result: Result<
        Completion,
        RequestError,
    >)
        ensures
            same_packet(request@, handed_back(result)@),
    {
        default_operation(request)
    }

    /// The last handle to the device is closed.
    fn cleanup(&mut self, device: &Device, request: IoRequest) -> (result: Result<
        Completion,
        RequestError,
    >)
        ensures
            same_packet(request@, handed_back(result)@),
    {
        default_operation(request)
    }

    /// The caller reads from the device.
    fn read(&mut self, device: &Device, request: ReadRequest) -> (result: Result<
        Completion,
        RequestError,
    >)
        ensures
            same_packet(request@.irp, handed_back(result)@),
    {
        default_operation(request.into_request())
    }

    /// The caller writes to the device.
    fn write(&mut self, device: &Device, request: WriteRequest) -> (result: Result<
        Completion,
        RequestError,
    >)
        ensures
            same_packet(request@.irp, handed_back(result)@),
    {
        default_operation(request.into_request())
    }

    /// The caller issues a control code.
    fn ioctl(&mut self, device: &Device, request: IoControlRequest) -> (result: Result<
        Completion,
        RequestError,
    >)
        ensures
            same_packet(request@.irp, handed_back(result)@),
    {
        default_operation(request.into_request())
    }
}

/// The kinds of operation that a request can ask for.
#[derive(Copy, Clone, Debug, PartialEq, Eq, Structural)]
pub enum Operation {
    Create,
    Close,
    Cleanup,
    Read,
    Write,
    DeviceControl,
    /// Any operation that this library does not dispatch.
    Unrecognized,
}

impl Operation {
    /// The kind of operation that an operation code stands for.
    pub open spec fn spec_from_major(major: u8) -> Operation {
        if major == IRP_MJ_CREATE {
            Operation::Create
        } else if major == IRP_MJ_CLOSE {
            Operation::Close
        } else if major == IRP_MJ_CLEANUP {
            Operation::Cleanup
        } else if major == IRP_MJ_READ {
            Operation::Read
        } else if major == IRP_MJ_WRITE {
            Operation::Write
        } else if major == IRP_MJ_DEVICE_CONTROL {
            Operation::DeviceControl
        } else {
            Operation::Unrecognized
        }
    }

    /// The kind of operation that an operation code stands for.
    #[verifier::when_used_as_spec(spec_from_major)]
    pub fn from_major(major: u8) -> (operation: Operation)
        ensures
            operation == Operation::spec_from_major(major),
    {
        match major {
            IRP_MJ_CREATE => Operation::Create,
            IRP_MJ_CLOSE => Operation::Close,
            IRP_MJ_CLEANUP => Operation::Cleanup,
            IRP_MJ_READ => Operation::Read,
            IRP_MJ_WRITE => Operation::Write,
            IRP_MJ_DEVICE_CONTROL => Operation::DeviceControl,
            _ => Operation::Unrecognized,
        }
    }
}

/// What a device keeps for as long as it exists: the operations of its
/// driver, and its category. Both are set when the device is created and stay
/// until it is released.
#[derive(Debug)]
pub struct DeviceExtension<T> {
    data: T,
    device_type: DeviceType,
    category_check: CategoryCheck,
}

/// A [`DeviceExtension`] as a mathematical value.
pub struct DeviceExtensionView<T> {
    pub data: T,
    pub device_type: DeviceType,
    pub category_check: CategoryCheck,
}

impl<T> View for DeviceExtension<T> {
    type V = DeviceExtensionView<T>;

    closed spec fn view(&self) -> DeviceExtensionView<T> {
        DeviceExtensionView {
            data: self.data,
            device_type: self.device_type,
            category_check: self.category_check,
        }
    }
}

/// Whether a device of the given category refuses a device-control request by
/// the category in its control code: it does where it checks the category and
/// the control code names another one.
pub open spec fn refuses(
    device_type: DeviceType,
    category_check: CategoryCheck,
    request: IrpView,
) -> bool {
    category_check == CategoryCheck::Enforced && request.control_code().0 != device_type
}

impl<T> DeviceExtensionView<T> {
    /// Whether a request with the given operation code is answered without a
    /// call of the driver's operations.
    pub open spec fn turns_away(self, request: IrpView, major: u8) -> bool {
        match Operation::spec_from_major(major) {
            Operation::Unrecognized => true,
            Operation::DeviceControl => refuses(self.device_type, self.category_check, request),
            _ => false,
        }
    }
}

impl<T: DeviceOperations> DeviceExtension<T> {
    /// The extension of a new device: it takes the operations into its
    /// keeping.
    pub fn new(device_type: DeviceType, category_check: CategoryCheck, data: T) -> (extension:
        DeviceExtension<T>)
        ensures
            extension@ == (DeviceExtensionView { data, device_type, category_check }),
    {
        DeviceExtension { data, device_type, category_check }
    }

    /// The operations of the device.
    pub fn data(&self) -> (data: &T)
        ensures
            *data == self@.data,
    {
        &self.data
    }

    /// The operations of the device, open to change.
    pub fn data_mut(&mut self) -> (data: &mut T)
        ensures
            *data == old(self)@.data,
            final(self)@ == (DeviceExtensionView { data: *final(data), ..old(self)@ }),
    {
        &mut self.data
    }

    /// The category of the device.
    pub fn device_type(&self) -> (device_type: DeviceType)
        ensures
            device_type == self@.device_type,
    {
        self.device_type
    }

    /// Ends the life of the device: the extension is used up, and the
    /// operations are handed out for disposal.
    pub fn release(self) -> (data: T)
        ensures
            data == self@.data,
    {
        self.data
    }
}

/// A request on its way to the operation that serves it: narrowed to the kind
/// of its operation, or refused.
#[derive(Debug)]
pub enum Routed {
    Create(IoRequest),
    Close(IoRequest),
    Cleanup(IoRequest),
    Read(ReadRequest),
    Write(WriteRequest),
    DeviceControl(IoControlRequest),
    /// The request goes to no operation, and is to be completed with the
    /// error.
    Refused(RequestError),
}

/// Whether the request reaches the operation that `major` selects, and in
/// which form.
///
/// A request to open, to close or to clean up goes on as it is. A read, a
/// write and a device-control request are narrowed, which hands their memory
/// to an accessor. A request with an operation code that is not dispatched is
/// refused as invalid, and so is a device-control request whose control code
/// names another category than that of the device, where the device checks
/// the category.
pub open spec fn routed_as(
    routed: Routed,
    device_type: DeviceType,
    category_check: CategoryCheck,
    request: IrpView,
    major: u8,
) -> bool {
    match Operation::spec_from_major(major) {
        Operation::Create => routed matches Routed::Create(r) && r@ == request,
        Operation::Close => routed matches Routed::Close(r) && r@ == request,
        Operation::Cleanup => routed matches Routed::Cleanup(r) && r@ == request,
        Operation::Read => routed matches Routed::Read(r) && r@ == (RequestView {
            irp: request,
            buffer: request.read_accessor(),
            binding: request.transfer_binding(),
        }),
        Operation::Write => routed matches Routed::Write(r) && r@ == (RequestView {
            irp: request,
            buffer: request.write_accessor(),
            binding: request.transfer_binding(),
        }),
        Operation::DeviceControl => if refuses(device_type, category_check, request) {
            routed matches Routed::Refused(RequestError(error, r)) && error == Error(
                STATUS_INVALID_PARAMETER,
            ) && r@ == request
        } else {
            routed matches Routed::DeviceControl(r) && r@ == (RequestView {
                irp: request,
                buffer: request.control_accessor(),
                binding: request.control_binding(),
            })
        },
        Operation::Unrecognized => routed matches Routed::Refused(RequestError(error, r))
            && error == Error(STATUS_INVALID_PARAMETER) && r@ == request,
    }
}

/// Decides where a request goes: to the operation that `major` selects, in
/// the form that the operation takes, or nowhere.
pub fn route(device: &Device, category_check: CategoryCheck, request: IoRequest, major: u8) -> (routed:
    Routed)
    ensures
        routed_as(routed, device.spec_device_type(), category_check, request@, major),
{
    match Operation::from_major(major) {
        Operation::Create => Routed::Create(request),
        Operation::Close => Routed::Close(request),
        Operation::Cleanup => Routed::Cleanup(request),
        Operation::Read => Routed::Read(ReadRequest::new(request)),
        Operation::Write => Routed::Write(WriteRequest::new(request)),
        Operation::DeviceControl => {
            let control_request = IoControlRequest::new(request);
            let refused = match category_check {
                CategoryCheck::Enforced => device.device_type()
                    != control_request.control_code().device_type(),
                CategoryCheck::Skipped => false,
            };
            if refused {
                Routed::Refused(RequestError(Error::invalid_parameter(), control_request.into()))
            } else {
                Routed::DeviceControl(control_request)
            }
        },
        Operation::Unrecognized => Routed::Refused(
            RequestError(Error::invalid_parameter(), request),
        ),
    }
}

/// Completes the request that an operation handed back, with the outcome that
/// the operation gave: success and the number of bytes, or the status of the
/// error and no bytes.
pub fn complete_with(result: Result<Completion, RequestError>) -> (completed: CompletedRequest)
    ensures
        completed@ == (CompletedView {
            irp: handed_back(result)@,
            io_status: completion_status(outcome(result)),
        }),
{
    match result {
        Ok(Completion::Complete(size, request)) => request.complete(Ok(size)),
        Err(RequestError(error, request)) => request.complete(Err(error)),
    }
}

/// Routes one request to the operation that `major` selects, and completes
/// it.
///
/// Where the request goes is decided by [`route`]. A request that is refused
/// is completed with the error, unchanged, and the operations of the driver
/// are not called. Every other request is handed to its operation of the
/// driver, and completed by [`complete_with`] with what the operation
/// returned.
pub fn dispatch_callback<T: DeviceOperations>(
    raw: usize,
    extension: &mut DeviceExtension<T>,
    request: IoRequest,
    major: u8,
) -> (completed: CompletedRequest)
    ensures
        same_packet(request@, completed@.irp),
        completed@.io_status.status == STATUS_SUCCESS || completed@.io_status.information == 0,
        completed@.io_status.information <= u32::MAX,
        final(extension)@.device_type == old(extension)@.device_type,
        final(extension)@.category_check == old(extension)@.category_check,
        old(extension)@.turns_away(request@, major) ==> *final(extension) == *old(extension)
            && completed@ == (CompletedView {
            irp: request@,
            io_status: IoStatus { status: STATUS_INVALID_PARAMETER, information: 0 },
        }),
{
    let device = Device::from_raw(raw, extension.device_type);
    let result = match route(&device, extension.category_check, request, major) {
        Routed::Create(request) => extension.data.create(&device, request),
        Routed::Close(request) => extension.data.close(&device, request),
        Routed::Cleanup(request) => extension.data.cleanup(&device, request),
        Routed::Read(request) => extension.data.read(&device, request),
        Routed::Write(request) => extension.data.write(&device, request),
        Routed::DeviceControl(request) => extension.data.ioctl(&device, request),
        Routed::Refused(error) => Err(error),
    };
    device.into_raw();
    complete_with(result)
}

/// Takes one request for the device at address `raw` and sees it completed:
/// the request is dispatched by the operation code that it carries.
pub fn dispatch_device<T: DeviceOperations>(
    raw: usize,
    extension: &mut DeviceExtension<T>,
    request: IoRequest,
) -> (completed: CompletedRequest)
    ensures
        same_packet(request@, completed@.irp),
        completed@.io_status.status == STATUS_SUCCESS || completed@.io_status.information == 0,
        completed@.io_status.information <= u32::MAX,
        final(extension)@.device_type == old(extension)@.device_type,
        final(extension)@.category_check == old(extension)@.category_check,
        old(extension)@.turns_away(request@, request@.stack_location.major_function)
            ==> *final(extension) == *old(extension) && completed@ == (CompletedView {
            irp: request@,
            io_status: IoStatus { status: STATUS_INVALID_PARAMETER, information: 0 },
        }),
{
    let major = request.major();
    dispatch_callback(raw, extension, request, major)
}

} // verus!
