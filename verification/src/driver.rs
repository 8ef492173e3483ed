//! The driver: the one registration with the host from which devices are
//! created.
//!
//! Creating a device takes a call to the host, which this library does not
//! make. [`Driver::create_device`] prepares the call: it says in plain values
//! what the host is to be asked. Whoever made the call hands its outcome to
//! [`CreateDevice::finish`], which turns it into the extension of the new
//! device, or into the error.

use vstd::prelude::*;
use vstd::pervasive::unreached;
use crate::device::{
    Access, CategoryCheck, DeviceDoFlags, DeviceExtension, DeviceExtensionView, DeviceFlags,
    DeviceOperations,
};
use crate::device_type::DeviceType;
use crate::error::{Error, NTSTATUS, STATUS_SUCCESS};
use crate::string::{utf16_units, wide_name};

verus! {

/// The registration of a driver with the host.
#[derive(Debug)]
pub struct Driver {
    raw: usize,
}

/// What the host is asked when a device is created.
#[derive(Debug)]
pub struct CreateDevice {
    /// The address of the driver that creates the device.
    pub driver: usize,
    /// The name of the device, in UTF-16 and without a terminator.
    pub name: Vec<u16>,
    /// The category of the device.
    pub device_type: DeviceType,
    /// The characteristics of the device.
    pub characteristics: DeviceFlags,
    /// The way in which the device takes its reads and writes.
    pub flags: DeviceDoFlags,
    /// Whether one caller at a time may open the device.
    pub exclusive: bool,
}

impl Driver {
    /// The address of the driver.
    pub closed spec fn spec_raw(&self) -> usize {
        self.raw
    }

    /// The driver at the given address of the host.
    pub fn from_raw(raw: usize) -> (driver: Driver)
        ensures
            driver.spec_raw() == raw,
    {
        Driver { raw }
    }

    /// The address of the driver.
    #[verifier::when_used_as_spec(spec_raw)]
    pub fn as_raw(&self) -> (raw: usize)
        ensures
            raw == self.spec_raw(),
    {
        self.raw
    }

    /// Prepares the creation of a device: the call to the host, in plain
    /// values. The name must be one that the host can take, without the
    /// character zero.
    pub fn create_device(
        &mut self,
        name: &str,
        device_type: DeviceType,
        device_flags: DeviceFlags,
        device_do_flags: DeviceDoFlags,
        access: Access,
    ) -> (call: CreateDevice)
        requires
            !name@.contains('\0'),
        ensures
            final(self).spec_raw() == old(self).spec_raw(),
            call.driver == old(self).spec_raw(),
            call.name@ == utf16_units(name@),
            call.device_type == device_type,
            call.characteristics == device_flags,
            call.flags == device_do_flags,
            call.exclusive <==> access == Access::Exclusive,
    {
        let name = match wide_name(name) {
            Some(units) => units,
            None => unreached(),
        };
        CreateDevice {
            driver: self.raw,
            name,
            device_type,
            characteristics: device_flags,
            flags: device_do_flags,
            exclusive: access.is_exclusive(),
        }
    }
}

/// What the creation of a device comes to: for a status of success the
/// extension of the new device, which keeps the operations, and for every
/// other status the error of that status.
pub open spec fn creation<T>(
    device_type: DeviceType,
    status: NTSTATUS,
    category_check: CategoryCheck,
    data: T,
) -> Result<DeviceExtensionView<T>, Error> {
    if status == STATUS_SUCCESS {
        Ok(DeviceExtensionView { data, device_type, category_check })
    } else {
        Err(Error(status))
    }
}

impl CreateDevice {
    /// Concludes the creation of a device with the status that the host
    /// returned. On success the operations go into the keeping of the
    /// extension; on failure they are dropped.
    pub fn finish<T: DeviceOperations>(
        self,
        status: NTSTATUS,
        category_check: CategoryCheck,
        data: T,
    ) -> (created: Result<DeviceExtension<T>, Error>)
        ensures
            match creation(self.device_type, status, category_check, data) {
                Ok(extension) => created matches Ok(made) && made@ == extension,
                Err(error) => created matches Err(e) && e == error,
            },
    {
        if status != STATUS_SUCCESS {
            return Err(Error::from_ntstatus(status));
        }
        Ok(DeviceExtension::new(self.device_type, category_check, data))
    }
}

} // verus!
