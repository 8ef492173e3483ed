//! A safety layer between a kernel's I/O subsystem and the code of a device
//! driver.
//!
//! The host kernel hands a driver raw packets and raw memory. This library is
//! what a driver sees instead:
//!
//! * [`ioctl`]: control codes, packed and unpacked;
//! * [`user_ptr`]: access to a caller's memory that is bounded by the sizes
//!   the host declared for it;
//! * [`request`]: requests that are completed exactly once;
//! * [`device`]: the operations of a device, and the dispatch of requests to
//!   them;
//! * [`sync`]: the rules by which the locks around a driver's state admit
//!   their callers;
//! * [`driver`], [`symbolic_link`], [`module`]: the making and unmaking of
//!   devices, of their names, and of the driver itself.
//!
//! The library makes no call to the host. It works on plain values: a caller
//! on the side of the host reads the host's structures into them, and carries
//! out what the library decides.

pub mod affinity;
pub mod allocator;
pub mod client;
pub mod device;
pub mod device_type;
pub mod driver;
pub mod error;
pub mod io_controls;
pub mod ioctl;
pub mod mdl;
pub mod memory;
pub mod module;
pub mod plain;
pub mod reading_and_writing;
pub mod request;
pub mod section;
pub mod string;
pub mod symbolic_link;
pub mod sync;
pub mod user_ptr;
pub mod version;

pub use crate::device::{
    dispatch_device, Access, Completion, Device, DeviceDoFlags, DeviceFlags, DeviceOperations,
    RequestError,
};
pub use crate::device_type::DeviceType;
pub use crate::driver::Driver;
pub use crate::error::{Error, NTSTATUS, STATUS_SUCCESS};
pub use crate::ioctl::{ControlCode, RequiredAccess, TransferMethod};
pub use crate::module::KernelModule;
pub use crate::request::{
    IoControlRequest, IoRequest, ReadRequest, WriteRequest, IRP_MJ_MAXIMUM_FUNCTION,
};
pub use crate::symbolic_link::SymbolicLink;
pub use crate::user_ptr::UserPtr;
