//! A device that keeps what was last written to it and gives it back to
//! whoever reads.
//!
//! A write replaces the stored bytes by the bytes it brings, up to
//! [`CAPACITY`] of them, and is accepted at offset zero only. A read copies
//! out the stored bytes from the offset it names, as many as fit the memory
//! it offers.

use vstd::prelude::*;
use vstd::slice::{slice_subrange, slice_to_vec};
use crate::device::{handed_back, Completion, Device, DeviceOperations, RequestError};
use crate::error::{Error, STATUS_END_OF_FILE};
use crate::request::{IoRequest, ReadRequest, RequestView, WriteRequest};
use crate::user_ptr::copy_to_prefix;

verus! {

/// The largest number of bytes that the device stores.
pub const CAPACITY: usize = 4096;

/// The device: the bytes that it stores.
#[derive(Debug)]
pub struct MyDevice {
    data: Vec<u8>,
}

impl View for MyDevice {
    type V = Seq<u8>;

    closed spec fn view(&self) -> Seq<u8> {
        self.data@
    }
}

/// Where a read begins in the stored bytes: at its offset, or at their end
/// where the offset does not lie within them.
pub open spec fn read_start(offset: i64, stored: nat) -> nat {
    if 0 <= offset < stored {
        offset as nat
    } else {
        stored
    }
}

/// The number of bytes that a read moves: as many as are stored from its
/// start on, but no more than the memory it offers holds, and no more than
/// the count of a completion can say.
pub open spec fn read_count(offered: nat, stored: nat, start: nat) -> nat {
    let left = (stored - start) as nat;
    let fitting = if offered <= left {
        offered
    } else {
        left
    };
    if fitting <= u32::MAX {
        fitting
    } else {
        u32::MAX as nat
    }
}

/// The state of a read after the device has served it: the memory of the
/// request holds the bytes that were read, and behind them what it held
/// before.
pub open spec fn read_served(request: RequestView, stored: Seq<u8>) -> RequestView {
    let offset = request.irp.offset_for(
        request.binding,
        request.irp.stack_location.parameters.read_byte_offset(),
    );
    let start = read_start(offset, stored.len());
    let offered = request.buffer.writable();
    let count = read_count(offered.len(), stored.len(), start);
    request.with_buffer(
        request.buffer.with_writable(
            stored.subrange(start as int, (start + count) as int) + offered.skip(count as int),
        ),
    )
}

/// The number of bytes that a read of the stored bytes moves.
pub open spec fn read_moved(request: RequestView, stored: Seq<u8>) -> nat {
    let offset = request.irp.offset_for(
        request.binding,
        request.irp.stack_location.parameters.read_byte_offset(),
    );
    read_count(
        request.buffer.writable().len(),
        stored.len(),
        read_start(offset, stored.len()),
    )
}

/// The number of bytes that a write stores: all that it brings, up to the
/// capacity of the device.
pub open spec fn write_count(brought: nat) -> nat {
    if brought <= CAPACITY {
        brought
    } else {
        CAPACITY as nat
    }
}

/// Whether a write is accepted: it is if it begins at the start of the
/// device.
pub open spec fn write_accepted(request: RequestView) -> bool {
    request.irp.offset_for(
        request.binding,
        request.irp.stack_location.parameters.write_byte_offset(),
    ) <= 0
}

impl MyDevice {
    /// A device that stores nothing yet.
    pub fn new() -> (device: MyDevice)
        ensures
            device@ == Seq::<u8>::empty(),
    {
        MyDevice { data: Vec::new() }
    }

    /// The stored bytes.
    pub fn data(&self) -> (data: &[u8])
        ensures
            data@ == self@,
    {
        self.data.as_slice()
    }
}

impl DeviceOperations for MyDevice {
    /// Copies stored bytes into the memory of the request and completes with
    /// their number. The stored bytes stay as they are.
    fn read(&mut self, device: &Device, request: ReadRequest) -> (result: Result<
        Completion,
        RequestError,
    >)
        ensures
            final(self)@ == old(self)@,
            result matches Ok(Completion::Complete(size, back)) && size == read_moved(
                request@,
                old(self)@,
            ) && back@ == read_served(request@, old(self)@).irp,
    {
        let mut request = request;
        let offset = request.offset();
        let stored = self.data.len();
        let start: usize = if 0 <= offset && (offset as u64) < (stored as u64) {
            offset as usize
        } else {
            stored
        };
        let user_ptr = request.user_ptr();
        let slice = user_ptr.as_mut_slice();
        let mut size: usize = slice.len();
        if size > stored - start {
            size = stored - start;
        }
        if size > u32::MAX as usize {
            size = u32::MAX as usize;
        }
        let (head, tail) = slice.split_at_mut(size);
        copy_to_prefix(head, slice_subrange(self.data.as_slice(), start, start + size));
        Ok(Completion::Complete(size as u32, request.into()))
    }

    /// Stores the bytes that the request brings and completes with their
    /// number. A write that does not begin at the start of the device is
    /// refused as beyond the end of the file, and stores nothing.
    fn write(&mut self, device: &Device, request: WriteRequest) -> (result: Result<
        Completion,
        RequestError,
    >)
        ensures
            handed_back(result)@ == request@.irp,
            if write_accepted(request@) {
                &&& result matches Ok(Completion::Complete(size, _)) && size == write_count(
                    request@.buffer.readable().len(),
                )
                &&& final(self)@ == request@.buffer.readable().take(
                    write_count(request@.buffer.readable().len()) as int,
                )
            } else {
                &&& result matches Err(RequestError(error, _)) && error == Error(
                    STATUS_END_OF_FILE,
                )
                &&& final(self)@ == old(self)@
            },
    {
        if request.offset() > 0 {
            return Err(RequestError(Error::end_of_file(), request.into()));
        }
        let user_ptr = request.user_ptr();
        let slice = user_ptr.as_slice();
        let size: usize = if slice.len() <= CAPACITY {
            slice.len()
        } else {
            CAPACITY
        };
        self.data = slice_to_vec(slice_subrange(slice, 0, size));
        Ok(Completion::Complete(size as u32, request.into()))
    }
}

} // verus!
