//! The caller's side of a device-control operation: which control code to
//! issue, and which of the caller's buffers go with it.
//!
//! A caller issues one of four kinds of operation. The kind decides the access
//! that the control code asks for, the transfer method, and whether the
//! caller's one value travels to the device, back from it, both ways or not at
//! all.

use vstd::prelude::*;
use crate::device_type::DeviceType;
use crate::ioctl::{ControlCode, RequiredAccess, TransferMethod};

verus! {

/// The kinds of device-control operation that a caller issues.
#[derive(Clone, Copy, Debug, PartialEq, Eq, Structural)]
pub enum IoctlKind {
    /// No data travels.
    Plain,
    /// The device hands a value to the caller.
    Read,
    /// The caller hands a value to the device.
    Write,
    /// The caller hands a value to the device and gets one back.
    ReadWrite,
}

/// The sizes, in bytes, of the two buffers that go with an operation.
#[derive(Clone, Copy, Debug, PartialEq, Eq, Structural)]
pub struct BufferSizes {
    /// The size of the buffer that the device reads.
    pub input: u32,
    /// The size of the buffer that the device fills.
    pub output: u32,
}

impl IoctlKind {
    /// The access that the control code of this kind asks for.
    pub open spec fn spec_required_access(&self) -> RequiredAccess {
        match *self {
            IoctlKind::Plain => RequiredAccess::AnyAccess,
            IoctlKind::Read => RequiredAccess::ReadData,
            IoctlKind::Write => RequiredAccess::WriteData,
            IoctlKind::ReadWrite => RequiredAccess::ReadWriteData,
        }
    }

    /// The transfer method of this kind: none where no data travels, and the
    /// buffered one everywhere else.
    pub open spec fn spec_transfer_method(&self) -> TransferMethod {
        match *self {
            IoctlKind::Plain => TransferMethod::Neither,
            _ => TransferMethod::Buffered,
        }
    }

    /// The sizes of the buffers that go with an operation of this kind on a
    /// value of `size` bytes.
    pub open spec fn spec_buffer_sizes(&self, size: u32) -> BufferSizes {
        match *self {
            IoctlKind::Plain => BufferSizes { input: 0, output: 0 },
            IoctlKind::Read => BufferSizes { input: size, output: size },
            IoctlKind::Write => BufferSizes { input: size, output: 0 },
            IoctlKind::ReadWrite => BufferSizes { input: size, output: size },
        }
    }

    /// The access that the control code of this kind asks for.
    #[verifier::when_used_as_spec(spec_required_access)]
    pub fn required_access(&self) -> (access: RequiredAccess)
        ensures
            access == self.spec_required_access(),
    {
        match *self {
            IoctlKind::Plain => RequiredAccess::AnyAccess,
            IoctlKind::Read => RequiredAccess::ReadData,
            IoctlKind::Write => RequiredAccess::WriteData,
            IoctlKind::ReadWrite => RequiredAccess::ReadWriteData,
        }
    }

    /// The transfer method of this kind.
    #[verifier::when_used_as_spec(spec_transfer_method)]
    pub fn transfer_method(&self) -> (method: TransferMethod)
        ensures
            method == self.spec_transfer_method(),
    {
        match *self {
            IoctlKind::Plain => TransferMethod::Neither,
            _ => TransferMethod::Buffered,
        }
    }

    /// The sizes of the buffers that go with an operation of this kind on a
    /// value of `size` bytes.
    #[verifier::when_used_as_spec(spec_buffer_sizes)]
    pub fn buffer_sizes(&self, size: u32) -> (sizes: BufferSizes)
        ensures
            sizes == self.spec_buffer_sizes(size),
    {
        match *self {
            IoctlKind::Plain => BufferSizes { input: 0, output: 0 },
            IoctlKind::Read => BufferSizes { input: size, output: size },
            IoctlKind::Write => BufferSizes { input: size, output: 0 },
            IoctlKind::ReadWrite => BufferSizes { input: size, output: size },
        }
    }

    /// The value of the control code that names function `number` of a device
    /// of the given category for an operation of this kind.
    pub fn code(&self, device_type: DeviceType, number: u32) -> (value: u32)
        ensures
            value == ControlCode(
                device_type,
                self.spec_required_access(),
                number,
                self.spec_transfer_method(),
            ).encode(),
    {
        ControlCode(device_type, self.required_access(), number, self.transfer_method()).into()
    }
}

} // verus!
