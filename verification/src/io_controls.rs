//! A device that holds one number, which its callers read, replace and have
//! logged through three control codes.

use vstd::prelude::*;
use crate::device::{handed_back, outcome, Completion, Device, DeviceOperations, RequestError};
use crate::error::{Error, STATUS_INVALID_PARAMETER};
use crate::ioctl::RequiredAccess;
use crate::plain::Plain;
use crate::request::{IoControlRequest, IoRequest, RequestView};
use crate::user_ptr::UserPtrView;

verus! {

/// The function that has the number logged.
pub const IOCTL_PRINT_VALUE: u32 = 0x800;

/// The function that hands the number to the caller.
pub const IOCTL_READ_VALUE: u32 = 0x801;

/// The function that takes a new number from the caller.
pub const IOCTL_WRITE_VALUE: u32 = 0x802;

/// The device: the number that it holds.
#[derive(Debug)]
pub struct MyDevice {
    value: u32,
}

impl View for MyDevice {
    type V = u32;

    closed spec fn view(&self) -> u32 {
        self.value
    }
}

/// What a control code asks of the device.
pub enum Call {
    /// Log the number.
    Print,
    /// Hand the number to the caller.
    Read,
    /// Take a new number from the caller.
    Write,
    /// Nothing that the device knows.
    Unknown,
}

/// What the function of a control code asks of the device. Logging is open to
/// every caller; the number is handed to a code for readers only, and taken
/// from a code for writers only.
pub open spec fn call_of(function: (RequiredAccess, u32)) -> Call {
    if function.1 == IOCTL_PRINT_VALUE {
        Call::Print
    } else if function.0 == RequiredAccess::ReadData && function.1 == IOCTL_READ_VALUE {
        Call::Read
    } else if function.0 == RequiredAccess::WriteData && function.1 == IOCTL_WRITE_VALUE {
        Call::Write
    } else {
        Call::Unknown
    }
}

/// The outcome of a control request on a device that holds `value`: the
/// number of bytes handed to the caller, or the error.
pub open spec fn control_outcome(value: u32, request: RequestView) -> Result<u32, Error> {
    match call_of((request.irp.control_code().1, request.irp.control_code().2)) {
        Call::Print => Ok(0),
        Call::Read => match request.buffer.write_check(4) {
            Ok(()) => Ok(4),
            Err(error) => Err(error),
        },
        Call::Write => match request.buffer.read_check(4) {
            Ok(()) => Ok(0),
            Err(error) => Err(error),
        },
        Call::Unknown => Err(Error(STATUS_INVALID_PARAMETER)),
    }
}

/// The number that the device holds after a control request.
pub open spec fn control_value(value: u32, request: RequestView) -> u32 {
    match call_of((request.irp.control_code().1, request.irp.control_code().2)) {
        Call::Write => if request.buffer.read_check(4) is Ok {
            u32::of_bytes(request.buffer.read_region().unwrap().take(4))
        } else {
            value
        },
        _ => value,
    }
}

/// The accessor of a control request after the device has served it.
pub open spec fn control_buffer(value: u32, request: RequestView) -> UserPtrView {
    match call_of((request.irp.control_code().1, request.irp.control_code().2)) {
        Call::Read => if request.buffer.write_check(4) is Ok {
            request.buffer.written(value.bytes())
        } else {
            request.buffer
        },
        _ => request.buffer,
    }
}

impl MyDevice {
    /// A device that holds the given number.
    pub fn new(value: u32) -> (device: MyDevice)
        ensures
            device@ == value,
    {
        MyDevice { value }
    }

    /// The number that the device holds.
    pub fn value(&self) -> (value: u32)
        ensures
            value == self@,
    {
        self.value
    }

    /// Serves the request to log the number. Nothing is handed to the
    /// caller.
    pub fn print_value(&mut self, request: &IoControlRequest) -> (result: Result<u32, Error>)
        ensures
            result == Ok::<u32, Error>(0),
            final(self)@ == old(self)@,
    {
        Ok(0)
    }

    /// Hands the number to the caller: writes it to the memory of the request
    /// and reports its four bytes.
    pub fn read_value(&mut self, request: &mut IoControlRequest) -> (result: Result<u32, Error>)
        ensures
            final(self)@ == old(self)@,
            match old(request)@.buffer.write_check(4) {
                Ok(()) => result == Ok::<u32, Error>(4) && final(request)@ == old(
                    request,
                )@.with_buffer(old(request)@.buffer.written(old(self)@.bytes())),
                Err(error) => result == Err::<u32, Error>(error) && final(request)@ == old(
                    request,
                )@,
            },
    {
        proof {
            request.lemma_wf();
        }
        let user_ptr = request.user_ptr();
        match user_ptr.write(&self.value) {
            Ok(_) => Ok(4),
            Err(error) => Err(error),
        }
    }

    /// Takes a new number from the caller: reads it from the memory of the
    /// request. Nothing is handed to the caller.
    pub fn write_value(&mut self, request: &mut IoControlRequest) -> (result: Result<u32, Error>)
        ensures
            final(request)@ == old(request)@,
            match old(request)@.buffer.read_check(4) {
                Ok(()) => result == Ok::<u32, Error>(0) && final(self)@ == u32::of_bytes(
                    old(request)@.buffer.read_region().unwrap().take(4),
                ),
                Err(error) => result == Err::<u32, Error>(error) && final(self)@ == old(self)@,
            },
    {
        proof {
            request.lemma_wf();
        }
        let user_ptr = request.user_ptr();
        match user_ptr.read::<u32>() {
            Ok(value) => {
                self.value = value;
                Ok(0)
            },
            Err(error) => Err(error),
        }
    }
}

impl DeviceOperations for MyDevice {
    /// Serves the three control codes of the device, and refuses every other
    /// as invalid.
    fn ioctl(&mut self, device: &Device, request: IoControlRequest) -> (result: Result<
        Completion,
        RequestError,
    >)
        ensures
            outcome(result) == control_outcome(old(self)@, request@),
            final(self)@ == control_value(old(self)@, request@),
            handed_back(result)@ == request@.with_buffer(
                control_buffer(old(self)@, request@),
            ).irp,
    {
        let mut request = request;
        proof {
            request.lemma_wf();
        }
        let function = request.function();
        let result = if function.1 == IOCTL_PRINT_VALUE {
            self.print_value(&request)
        } else if function.0 == RequiredAccess::ReadData && function.1 == IOCTL_READ_VALUE {
            self.read_value(&mut request)
        } else if function.0 == RequiredAccess::WriteData && function.1 == IOCTL_WRITE_VALUE {
            self.write_value(&mut request)
        } else {
            Err(Error::invalid_parameter())
        };
        match result {
            Ok(size) => Ok(Completion::Complete(size, request.into())),
            Err(error) => Err(RequestError(error, request.into())),
        }
    }
}

} // verus!
