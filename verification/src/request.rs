//! Requests: one pending I/O operation each, from arrival to completion.
//!
//! The host hands a device one request packet per operation. [`Irp`] is the
//! image of such a packet in plain values: what the operation is, the
//! parameters that came with it, and the memory that the host made reachable
//! for it. An [`IoRequest`] owns one packet while the operation is pending.
//! Completing consumes the `IoRequest` and yields a [`CompletedRequest`], so a
//! request that was completed cannot be completed again.
//!
//! [`ReadRequest`], [`WriteRequest`] and [`IoControlRequest`] are an
//! `IoRequest` narrowed to one kind of operation. Narrowing hands the memory
//! of the packet to a [`UserPtr`] of the shape that suits the operation;
//! turning the narrowed request back into an `IoRequest` puts the memory back
//! where it came from, with all that was written to it.

use vstd::prelude::*;
use vstd::std_specs::convert::FromSpecImpl;
use crate::error::{Error, NTSTATUS, STATUS_SUCCESS};
use crate::ioctl::{ControlCode, RequiredAccess, TransferMethod};
use crate::user_ptr::{region_view, UserPtr, UserPtrView};

verus! {

/// The operation code of a request to open the device.
pub const IRP_MJ_CREATE: u8 = 0x00;

/// The operation code of a request that ends the use of an open handle.
pub const IRP_MJ_CLOSE: u8 = 0x02;

/// The operation code of a request to read from the device.
pub const IRP_MJ_READ: u8 = 0x03;

/// The operation code of a request to write to the device.
pub const IRP_MJ_WRITE: u8 = 0x04;

/// The operation code of a device-control request.
pub const IRP_MJ_DEVICE_CONTROL: u8 = 0x0e;

/// The operation code of the request sent when the last handle is closed.
pub const IRP_MJ_CLEANUP: u8 = 0x12;

/// The largest operation code that the host sends.
pub const IRP_MJ_MAXIMUM_FUNCTION: u8 = 0x1b;

/// Every flag that a request can carry.
pub const IRP_ALL_FLAGS: u32 = 0x0040_3fff;

/// The request bypasses the cache.
pub const IRP_NOCACHE: u32 = 0x0000_0001;

/// The request is a paging operation.
pub const IRP_PAGING_IO: u32 = 0x0000_0002;

/// A mount is being completed.
pub const IRP_MOUNT_COMPLETION: u32 = 0x0000_0002;

/// The request was issued through a synchronous interface.
pub const IRP_SYNCHRONOUS_API: u32 = 0x0000_0004;

/// The request belongs to a larger, master request.
pub const IRP_ASSOCIATED_IRP: u32 = 0x0000_0008;

/// The host holds the data of the request in a buffer of its own.
pub const IRP_BUFFERED_IO: u32 = 0x0000_0010;

/// The host frees its buffer when the request completes.
pub const IRP_DEALLOCATE_BUFFER: u32 = 0x0000_0020;

/// The host copies its buffer to the caller when the request completes.
pub const IRP_INPUT_OPERATION: u32 = 0x0000_0040;

/// The request is a synchronous paging operation.
pub const IRP_SYNCHRONOUS_PAGING_IO: u32 = 0x0000_0040;

/// The request opens a file or device.
pub const IRP_CREATE_OPERATION: u32 = 0x0000_0080;

/// The request reads.
pub const IRP_READ_OPERATION: u32 = 0x0000_0100;

/// The request writes.
pub const IRP_WRITE_OPERATION: u32 = 0x0000_0200;

/// The request closes a handle.
pub const IRP_CLOSE_OPERATION: u32 = 0x0000_0400;

/// The completion of the request is deferred.
pub const IRP_DEFER_IO_COMPLETION: u32 = 0x0000_0800;

/// The request asks for the name of an object.
pub const IRP_OB_QUERY_NAME: u32 = 0x0000_1000;

/// The request holds the queue of its device.
pub const IRP_HOLD_DEVICE_QUEUE: u32 = 0x0000_2000;

/// The request was started by a driver that runs outside the kernel.
pub const IRP_UM_DRIVER_INITIATED_IO: u32 = 0x0040_0000;

/// A set of request flags. It never holds a bit outside [`IRP_ALL_FLAGS`].
#[derive(Clone, Copy, Debug, PartialEq, Eq, Structural)]
pub struct IrpFlags {
    bits: u32,
}

impl View for IrpFlags {
    type V = u32;

    closed spec fn view(&self) -> u32 {
        self.bits
    }
}

impl IrpFlags {
    #[verifier::type_invariant]
    spec fn known_bits_only(self) -> bool {
        self.bits & !IRP_ALL_FLAGS == 0
    }

    /// The flags that a bit pattern stands for, if every bit of it is a flag.
    pub open spec fn spec_from_bits(bits: u32) -> Option<u32> {
        if bits & !IRP_ALL_FLAGS == 0 {
            Some(bits)
        } else {
            None
        }
    }

    /// The set without flags.
    pub fn empty() -> (flags: IrpFlags)
        ensures
            flags@ == 0,
    {
        assert(0u32 & !0x0040_3fffu32 == 0) by (bit_vector);
        IrpFlags { bits: 0 }
    }

    /// The set of all flags.
    pub fn all() -> (flags: IrpFlags)
        ensures
            flags@ == IRP_ALL_FLAGS,
    {
        assert(0x0040_3fffu32 & !0x0040_3fffu32 == 0) by (bit_vector);
        IrpFlags { bits: IRP_ALL_FLAGS }
    }

    /// The flags as a bit pattern.
    pub fn bits(&self) -> (bits: u32)
        ensures
            bits == self@,
            bits & !IRP_ALL_FLAGS == 0,
    {
        proof {
            use_type_invariant(self);
        }
        self.bits
    }

    /// The set that a bit pattern stands for. `None` when the pattern holds a
    /// bit that is no flag.
    pub fn from_bits(bits: u32) -> (flags: Option<IrpFlags>)
        ensures
            match IrpFlags::spec_from_bits(bits) {
                Some(known) => flags matches Some(f) && f@ == known,
                None => flags is None,
            },
    {
        if bits & !IRP_ALL_FLAGS == 0 {
            Some(IrpFlags { bits })
        } else {
            None
        }
    }

    /// Whether every flag of `other` is in this set.
    pub fn contains(&self, other: IrpFlags) -> (all_set: bool)
        ensures
            all_set <==> self@ & other@ == other@,
    {
        self.bits & other.bits == other.bits
    }
}

/// The parameters of one operation, as the host lays them down for the device.
#[derive(Clone, Copy, Debug, PartialEq, Eq, Structural)]
pub enum Parameters {
    /// A read of `length` bytes, starting `byte_offset` bytes into the device.
    Read { length: u32, byte_offset: i64 },
    /// A write of `length` bytes, starting `byte_offset` bytes into the device.
    Write { length: u32, byte_offset: i64 },
    /// A device-control operation with its control code and the sizes of the
    /// caller's two buffers.
    DeviceIoControl { output_buffer_length: u32, input_buffer_length: u32, io_control_code: u32 },
    /// An operation without parameters that this library reads.
    Other,
}

impl Parameters {
    /// The number of bytes to read; zero for another kind of operation.
    pub open spec fn read_length(self) -> u32 {
        match self {
            Parameters::Read { length, .. } => length,
            _ => 0,
        }
    }

    /// Where the read begins; zero for another kind of operation.
    pub open spec fn read_byte_offset(self) -> i64 {
        match self {
            Parameters::Read { byte_offset, .. } => byte_offset,
            _ => 0,
        }
    }

    /// The number of bytes to write; zero for another kind of operation.
    pub open spec fn write_length(self) -> u32 {
        match self {
            Parameters::Write { length, .. } => length,
            _ => 0,
        }
    }

    /// Where the write begins; zero for another kind of operation.
    pub open spec fn write_byte_offset(self) -> i64 {
        match self {
            Parameters::Write { byte_offset, .. } => byte_offset,
            _ => 0,
        }
    }

    /// The control code; zero for another kind of operation.
    pub open spec fn io_control_code(self) -> u32 {
        match self {
            Parameters::DeviceIoControl { io_control_code, .. } => io_control_code,
            _ => 0,
        }
    }

    /// The size of the caller's input buffer; zero for another kind of
    /// operation.
    pub open spec fn input_buffer_length(self) -> u32 {
        match self {
            Parameters::DeviceIoControl { input_buffer_length, .. } => input_buffer_length,
            _ => 0,
        }
    }

    /// The size of the caller's output buffer; zero for another kind of
    /// operation.
    pub open spec fn output_buffer_length(self) -> u32 {
        match self {
            Parameters::DeviceIoControl { output_buffer_length, .. } => output_buffer_length,
            _ => 0,
        }
    }

    /// The number of bytes that the buffer of the host holds for the
    /// operation: as many as are read or written, and for a device-control
    /// operation as many as the larger of the caller's two buffers holds.
    pub open spec fn spec_system_buffer_length(&self) -> u32 {
        match *self {
            Parameters::Read { length, .. } => length,
            Parameters::Write { length, .. } => length,
            Parameters::DeviceIoControl { output_buffer_length, input_buffer_length, .. } => {
                if input_buffer_length <= output_buffer_length {
                    output_buffer_length
                } else {
                    input_buffer_length
                }
            },
            Parameters::Other => 0,
        }
    }

    /// The number of bytes that the buffer of the host holds for the
    /// operation.
    #[verifier::when_used_as_spec(spec_system_buffer_length)]
    pub fn system_buffer_length(&self) -> (length: u32)
        ensures
            length == self.spec_system_buffer_length(),
    {
        match *self {
            Parameters::Read { length, .. } => length,
            Parameters::Write { length, .. } => length,
            Parameters::DeviceIoControl { output_buffer_length, input_buffer_length, .. } => {
                if input_buffer_length <= output_buffer_length {
                    output_buffer_length
                } else {
                    input_buffer_length
                }
            },
            Parameters::Other => 0,
        }
    }
}

/// The part of a request packet that is addressed to one device: the code of
/// the operation and its parameters.
#[derive(Clone, Copy, Debug, PartialEq, Eq, Structural)]
pub struct StackLocation {
    pub major_function: u8,
    pub parameters: Parameters,
}

/// A list of pages of the caller's memory that the host has locked.
#[derive(Debug)]
pub struct Mdl {
    /// The pages as mapped into the address space of the kernel; `None` where
    /// they could not be mapped.
    pub mapped: Option<Vec<u8>>,
    /// The number of bytes that the list describes.
    pub byte_count: u32,
    /// The offset of the first byte within its page.
    pub byte_offset: u32,
}

/// An [`Mdl`] as a mathematical value.
pub struct MdlView {
    pub mapped: Option<Seq<u8>>,
    pub byte_count: u32,
    pub byte_offset: u32,
}

impl View for Mdl {
    type V = MdlView;

    open spec fn view(&self) -> MdlView {
        MdlView {
            mapped: region_view(self.mapped),
            byte_count: self.byte_count,
            byte_offset: self.byte_offset,
        }
    }
}

/// A request packet in plain values.
#[derive(Debug)]
pub struct Irp {
    /// The address of the packet, by which the host knows it.
    pub address: usize,
    /// The flags of the packet, as the host set them.
    pub flags: u32,
    /// The locked pages of the caller, for an operation with direct I/O.
    pub mdl: Option<Mdl>,
    /// The buffer of the host, for an operation with buffered I/O.
    pub system_buffer: Option<Vec<u8>>,
    /// The operation and its parameters.
    pub stack_location: StackLocation,
}

/// An [`Irp`] as a mathematical value.
pub struct IrpView {
    pub address: usize,
    pub flags: u32,
    pub mdl: Option<MdlView>,
    pub system_buffer: Option<Seq<u8>>,
    pub stack_location: StackLocation,
}

impl View for Irp {
    type V = IrpView;

    open spec fn view(&self) -> IrpView {
        IrpView {
            address: self.address,
            flags: self.flags,
            mdl: match self.mdl {
                Some(mdl) => Some(mdl@),
                None => None,
            },
            system_buffer: region_view(self.system_buffer),
            stack_location: self.stack_location,
        }
    }
}

/// Which memory of a packet an accessor holds: where its first region and its
/// second region came from, and go back to.
#[derive(Clone, Copy, Debug, PartialEq, Eq, Structural)]
pub enum Binding {
    /// The accessor holds no memory of the packet.
    Unbound,
    /// The first region is the mapping of the locked pages.
    Mapped,
    /// The first region is the buffer of the host.
    System,
    /// The first region is the mapping of the locked pages, the second the
    /// buffer of the host.
    MappedThenSystem,
    /// The first region is the buffer of the host, the second the mapping of
    /// the locked pages.
    SystemThenMapped,
}

impl IrpView {
    /// The mapping of the locked pages; `None` without locked pages and where
    /// they could not be mapped.
    pub open spec fn mapped(self) -> Option<Seq<u8>> {
        match self.mdl {
            Some(mdl) => mdl.mapped,
            None => None,
        }
    }

    /// The same packet with `region` as the mapping of its locked pages. A
    /// packet without locked pages stays as it is.
    pub open spec fn with_mapped(self, region: Option<Seq<u8>>) -> IrpView {
        match self.mdl {
            Some(mdl) => IrpView { mdl: Some(MdlView { mapped: region, ..mdl }), ..self },
            None => self,
        }
    }

    /// The same packet with `region` as the buffer of the host.
    pub open spec fn with_system_buffer(self, region: Option<Seq<u8>>) -> IrpView {
        IrpView { system_buffer: region, ..self }
    }

    /// The memory that an accessor of the given binding holds.
    pub open spec fn regions(self, binding: Binding) -> (Option<Seq<u8>>, Option<Seq<u8>>) {
        match binding {
            Binding::Unbound => (None, None),
            Binding::Mapped => (self.mapped(), None),
            Binding::System => (self.system_buffer, None),
            Binding::MappedThenSystem => (self.mapped(), self.system_buffer),
            Binding::SystemThenMapped => (self.system_buffer, self.mapped()),
        }
    }

    /// The same packet after an accessor of the given binding has put its
    /// regions back.
    pub open spec fn with_regions(
        self,
        binding: Binding,
        regions: (Option<Seq<u8>>, Option<Seq<u8>>),
    ) -> IrpView {
        match binding {
            Binding::Unbound => self,
            Binding::Mapped => self.with_mapped(regions.0),
            Binding::System => self.with_system_buffer(regions.0),
            Binding::MappedThenSystem => self.with_mapped(regions.0).with_system_buffer(regions.1),
            Binding::SystemThenMapped => self.with_system_buffer(regions.0).with_mapped(regions.1),
        }
    }

    /// Where the data of a read or a write is: in the locked pages if the
    /// packet has any, else in the buffer of the host if there is one, else
    /// nowhere.
    pub open spec fn transfer_binding(self) -> Binding {
        if self.mdl is Some {
            Binding::Mapped
        } else if self.system_buffer is Some {
            Binding::System
        } else {
            Binding::Unbound
        }
    }

    /// The number of bytes that a read or a write of the given length moves:
    /// the size of the locked pages if the packet has any, else the length.
    pub open spec fn transfer_size(self, length: u32) -> usize {
        match self.mdl {
            Some(mdl) => mdl.byte_count as usize,
            None => length as usize,
        }
    }

    /// Where a read or a write begins whose data is in the memory that
    /// `binding` names: at the offset of the locked pages, at `byte_offset` for
    /// the buffer of the host, and at zero without memory.
    pub open spec fn offset_for(self, binding: Binding, byte_offset: i64) -> i64 {
        match binding {
            Binding::Mapped => match self.mdl {
                Some(mdl) => mdl.byte_offset as i64,
                None => 0,
            },
            Binding::System => byte_offset,
            _ => 0,
        }
    }

    /// The accessor of a read: nothing can be read from it, and as many bytes
    /// written as the read asks for.
    pub open spec fn read_accessor(self) -> UserPtrView {
        match self.transfer_binding() {
            Binding::Unbound => UserPtrView::Neither,
            binding => UserPtrView::Buffered {
                region: self.regions(binding).0,
                read_size: 0,
                write_size: self.transfer_size(self.stack_location.parameters.read_length()),
            },
        }
    }

    /// The accessor of a write: as many bytes can be read from it as the
    /// write brings, and nothing written.
    pub open spec fn write_accessor(self) -> UserPtrView {
        match self.transfer_binding() {
            Binding::Unbound => UserPtrView::Neither,
            binding => UserPtrView::Buffered {
                region: self.regions(binding).0,
                read_size: self.transfer_size(self.stack_location.parameters.write_length()),
                write_size: 0,
            },
        }
    }

    /// The control code of a device-control request, unpacked.
    pub open spec fn control_code(self) -> ControlCode {
        ControlCode::decode(self.stack_location.parameters.io_control_code())
    }

    /// Which memory the accessor of a device-control request holds: that is
    /// decided by the transfer method of the control code.
    pub open spec fn control_binding(self) -> Binding {
        match self.control_code().3 {
            TransferMethod::Buffered => Binding::System,
            TransferMethod::InputDirect => Binding::MappedThenSystem,
            TransferMethod::OutputDirect => Binding::SystemThenMapped,
            TransferMethod::Neither => Binding::Unbound,
        }
    }

    /// The accessor of a device-control request.
    ///
    /// With the buffered method the buffer of the host is read for the size of
    /// the input and written for the size of the output. With a direct method
    /// the locked pages are the caller's output buffer, and the buffer of the
    /// host takes the other part: the pages are read, or written, for the size
    /// of the output, and the buffer of the host for the size of the input.
    pub open spec fn control_accessor(self) -> UserPtrView {
        let input = self.stack_location.parameters.input_buffer_length() as usize;
        let output = self.stack_location.parameters.output_buffer_length() as usize;
        match self.control_code().3 {
            TransferMethod::Buffered => UserPtrView::Buffered {
                region: self.system_buffer,
                read_size: input,
                write_size: output,
            },
            TransferMethod::InputDirect => UserPtrView::Direct {
                read_region: self.mapped(),
                write_region: self.system_buffer,
                read_size: output,
                write_size: input,
            },
            TransferMethod::OutputDirect => UserPtrView::Direct {
                read_region: self.system_buffer,
                write_region: self.mapped(),
                read_size: input,
                write_size: output,
            },
            TransferMethod::Neither => UserPtrView::Neither,
        }
    }

    /// Putting back what was taken leaves the packet as it was.
    pub proof fn lemma_regions_put_back(self, binding: Binding)
        ensures
            self.with_regions(binding, self.regions(binding)) == self,
    {
    }

    /// Of regions put back one after the other the last ones stay.
    pub proof fn lemma_regions_overwrite(
        self,
        binding: Binding,
        first: (Option<Seq<u8>>, Option<Seq<u8>>),
        second: (Option<Seq<u8>>, Option<Seq<u8>>),
    )
        ensures
            self.with_regions(binding, first).with_regions(binding, second) == self.with_regions(
                binding,
                second,
            ),
    {
    }
}

/// A narrowed request as a mathematical value: the packet in its present
/// state, the accessor to its memory, and which memory that is.
pub struct RequestView {
    pub irp: IrpView,
    pub buffer: UserPtrView,
    pub binding: Binding,
}

impl RequestView {
    /// The same request with another state of its accessor: the packet holds
    /// what the accessor holds.
    pub open spec fn with_buffer(self, buffer: UserPtrView) -> RequestView {
        RequestView {
            irp: self.irp.with_regions(self.binding, buffer.regions()),
            buffer,
            binding: self.binding,
        }
    }

    /// The accessor holds the memory of the packet.
    pub open spec fn wf(self) -> bool {
        self.irp == self.irp.with_regions(self.binding, self.buffer.regions())
    }
}

/// The outcome written into a request when it is completed.
#[derive(Clone, Copy, Debug, PartialEq, Eq, Structural)]
pub struct IoStatus {
    /// The status code of the host.
    pub status: NTSTATUS,
    /// The number of bytes moved.
    pub information: usize,
}

/// What completing with `value` writes into a request: success and the number
/// of bytes, or the status of the error and no bytes.
pub open spec fn completion_status(value: Result<u32, Error>) -> IoStatus {
    match value {
        Ok(bytes) => IoStatus { status: STATUS_SUCCESS, information: bytes as usize },
        Err(error) => IoStatus { status: error.0, information: 0 },
    }
}

/// One pending I/O operation.
///
/// An `IoRequest` cannot be copied, and completing it consumes it: whoever
/// holds it is the one place from which the operation can be completed, and
/// that place can complete it once.
#[derive(Debug)]
pub struct IoRequest {
    irp: Irp,
}

impl View for IoRequest {
    type V = IrpView;

    closed spec fn view(&self) -> IrpView {
        self.irp@
    }
}

/// A request that has been completed, with its outcome.
#[derive(Debug)]
pub struct CompletedRequest {
    irp: Irp,
    io_status: IoStatus,
}

/// A [`CompletedRequest`] as a mathematical value.
pub struct CompletedView {
    pub irp: IrpView,
    pub io_status: IoStatus,
}

impl View for CompletedRequest {
    type V = CompletedView;

    closed spec fn view(&self) -> CompletedView {
        CompletedView { irp: self.irp@, io_status: self.io_status }
    }
}

impl IoRequest {
    /// Takes charge of a pending operation. The caller vouches that the packet
    /// is that of a pending operation which nothing else will complete.
    pub fn from_raw(irp: Irp) -> (request: IoRequest)
        ensures
            request@ == irp@,
    {
        IoRequest { irp }
    }

    /// The packet of the operation.
    pub fn irp(&self) -> (irp: &Irp)
        ensures
            irp@ == self@,
    {
        &self.irp
    }

    /// The flags of the packet. A packet with a bit set that is no flag is
    /// read as a packet without flags.
    pub fn flags(&self) -> (flags: IrpFlags)
        ensures
            flags@ == match IrpFlags::spec_from_bits(self@.flags) {
                Some(known) => known,
                None => 0,
            },
    {
        match IrpFlags::from_bits(self.irp.flags) {
            Some(flags) => flags,
            None => IrpFlags::empty(),
        }
    }

    /// The operation and its parameters.
    pub fn stack_location(&self) -> (location: &StackLocation)
        ensures
            *location == self@.stack_location,
    {
        &self.irp.stack_location
    }

    /// The code of the operation.
    pub fn major(&self) -> (major: u8)
        ensures
            major == self@.stack_location.major_function,
    {
        self.irp.stack_location.major_function
    }

    /// Completes the operation: with success and the number of bytes moved, or
    /// with the status of an error and no bytes. The packet itself is handed
    /// on unchanged.
    pub fn complete(self, value: Result<u32, Error>) -> (completed: CompletedRequest)
        ensures
            completed@.irp == self@,
            completed@.io_status == completion_status(value),
    {
        let io_status = match value {
            Ok(bytes) => IoStatus { status: STATUS_SUCCESS, information: bytes as usize },
            Err(error) => IoStatus { status: error.to_ntstatus(), information: 0 },
        };
        CompletedRequest { irp: self.irp, io_status }
    }
}

impl CompletedRequest {
    /// The status that the operation was completed with.
    pub fn status(&self) -> (status: NTSTATUS)
        ensures
            status == self@.io_status.status,
    {
        self.io_status.status
    }

    /// The number of bytes that the operation moved.
    pub fn information(&self) -> (information: usize)
        ensures
            information == self@.io_status.information,
    {
        self.io_status.information
    }

    /// The packet as the operation left it.
    pub fn irp(&self) -> (irp: &Irp)
        ensures
            irp@ == self@.irp,
    {
        &self.irp
    }

    /// Gives the packet back to the host, with all that was written to its
    /// memory.
    pub fn into_irp(self) -> (irp: Irp)
        ensures
            irp@ == self@.irp,
    {
        self.irp
    }
}

/// Takes the mapping out of a list of locked pages.
fn take_mapped(mdl: Option<Mdl>) -> (out: (Option<Mdl>, Option<Vec<u8>>))
    ensures
        match mdl {
            Some(pages) => out.0 matches Some(left) && left@ == (MdlView { mapped: None, ..pages@ })
                && region_view(out.1) == pages@.mapped,
            None => out.0 is None && out.1 is None,
        },
{
    match mdl {
        Some(Mdl { mapped, byte_count, byte_offset }) => (
            Some(Mdl { mapped: None, byte_count, byte_offset }),
            mapped,
        ),
        None => (None, None),
    }
}

/// Puts a mapping into a list of locked pages; without a list it is dropped.
fn put_mapped(mdl: Option<Mdl>, region: Option<Vec<u8>>) -> (out: Option<Mdl>)
    ensures
        match mdl {
            Some(pages) => out matches Some(filled) && filled@ == (MdlView {
                mapped: region_view(region),
                ..pages@
            }),
            None => out is None,
        },
{
    match mdl {
        Some(Mdl { mapped: _, byte_count, byte_offset }) => Some(
            Mdl { mapped: region, byte_count, byte_offset },
        ),
        None => None,
    }
}

/// Takes out of a packet the memory that `binding` names.
fn take_regions(irp: Irp, binding: Binding) -> (out: (Irp, Option<Vec<u8>>, Option<Vec<u8>>))
    ensures
        (region_view(out.1), region_view(out.2)) == irp@.regions(binding),
        out.0@ == irp@.with_regions(binding, (None, None)),
{
    let Irp { address, flags, mdl, system_buffer, stack_location } = irp;
    match binding {
        Binding::Unbound => (
            Irp { address, flags, mdl, system_buffer, stack_location },
            None,
            None,
        ),
        Binding::Mapped => {
            let (mdl, mapped) = take_mapped(mdl);
            (Irp { address, flags, mdl, system_buffer, stack_location }, mapped, None)
        },
        Binding::System => (
            Irp { address, flags, mdl, system_buffer: None, stack_location },
            system_buffer,
            None,
        ),
        Binding::MappedThenSystem => {
            let (mdl, mapped) = take_mapped(mdl);
            (
                Irp { address, flags, mdl, system_buffer: None, stack_location },
                mapped,
                system_buffer,
            )
        },
        Binding::SystemThenMapped => {
            let (mdl, mapped) = take_mapped(mdl);
            (
                Irp { address, flags, mdl, system_buffer: None, stack_location },
                system_buffer,
                mapped,
            )
        },
    }
}

/// Puts into a packet the regions of an accessor, where `binding` says.
fn put_regions(irp: Irp, binding: Binding, buffer: UserPtr) -> (out: Irp)
    ensures
        out@ == irp@.with_regions(binding, buffer@.regions()),
{
    let (first, second) = match buffer {
        UserPtr::Buffered { region, .. } => (region, None),
        UserPtr::Direct { read_region, write_region, .. } => (read_region, write_region),
        UserPtr::Neither => (None, None),
    };
    let Irp { address, flags, mdl, system_buffer, stack_location } = irp;
    match binding {
        Binding::Unbound => Irp { address, flags, mdl, system_buffer, stack_location },
        Binding::Mapped => Irp {
            address,
            flags,
            mdl: put_mapped(mdl, first),
            system_buffer,
            stack_location,
        },
        Binding::System => Irp { address, flags, mdl, system_buffer: first, stack_location },
        Binding::MappedThenSystem => Irp {
            address,
            flags,
            mdl: put_mapped(mdl, first),
            system_buffer: second,
            stack_location,
        },
        Binding::SystemThenMapped => Irp {
            address,
            flags,
            mdl: put_mapped(mdl, second),
            system_buffer: first,
            stack_location,
        },
    }
}

/// Where the data of a read or a write is, and how many bytes of it the
/// operation may move.
fn transfer_shape(irp: &Irp, length: u32) -> (shape: (Binding, usize))
    ensures
        shape.0 == irp@.transfer_binding(),
        shape.1 == irp@.transfer_size(length),
{
    match &irp.mdl {
        Some(mdl) => (Binding::Mapped, mdl.byte_count as usize),
        None => match &irp.system_buffer {
            Some(_) => (Binding::System, length as usize),
            None => (Binding::Unbound, length as usize),
        },
    }
}

/// Where an operation begins whose data is in the memory that `binding`
/// names.
fn offset_for(irp: &Irp, binding: Binding, byte_offset: i64) -> (offset: i64)
    ensures
        offset == irp@.offset_for(binding, byte_offset),
{
    match binding {
        Binding::Mapped => match &irp.mdl {
            Some(mdl) => mdl.byte_offset as i64,
            None => 0,
        },
        Binding::System => byte_offset,
        _ => 0,
    }
}

/// A request to read from the device.
#[derive(Debug)]
pub struct ReadRequest {
    inner: IoRequest,
    buffer: UserPtr,
    binding: Binding,
}

impl View for ReadRequest {
    type V = RequestView;

    closed spec fn view(&self) -> RequestView {
        RequestView {
            irp: self.inner@.with_regions(self.binding, self.buffer@.regions()),
            buffer: self.buffer@,
            binding: self.binding,
        }
    }
}

impl ReadRequest {
    /// Narrows a request to a read. The memory of the packet goes to the
    /// accessor; the packet is otherwise unchanged.
    pub fn new(request: IoRequest) -> (read: ReadRequest)
        ensures
            read@ == (RequestView {
                irp: request@,
                buffer: request@.read_accessor(),
                binding: request@.transfer_binding(),
            }),
            read@.wf(),
    {
        let length = match request.irp.stack_location.parameters {
            Parameters::Read { length, .. } => length,
            _ => 0,
        };
        let (binding, size) = transfer_shape(&request.irp, length);
        let (irp, first, _) = take_regions(request.irp, binding);
        let buffer = match binding {
            Binding::Unbound => UserPtr::new_neither(),
            _ => UserPtr::new_buffered(first, 0, size),
        };
        proof {
            request@.lemma_regions_put_back(binding);
            request@.lemma_regions_overwrite(binding, (None, None), request@.regions(binding));
        }
        ReadRequest { inner: IoRequest { irp }, buffer, binding }
    }

    /// In every state of the request the packet holds what the accessor
    /// holds.
    pub proof fn lemma_wf(self)
        ensures
            self@.wf(),
    {
        self.inner@.lemma_regions_overwrite(
            self.binding,
            self.buffer@.regions(),
            self.buffer@.regions(),
        );
    }

    /// The flags of the packet. A packet with a bit set that is no flag is
    /// read as a packet without flags.
    pub fn flags(&self) -> (flags: IrpFlags)
        ensures
            flags@ == match IrpFlags::spec_from_bits(self@.irp.flags) {
                Some(known) => known,
                None => 0,
            },
    {
        self.inner.flags()
    }

    /// The code of the operation.
    pub fn major(&self) -> (major: u8)
        ensures
            major == self@.irp.stack_location.major_function,
    {
        self.inner.major()
    }

    /// The address of the packet, by which the host knows the request.
    pub fn address(&self) -> (address: usize)
        ensures
            address == self@.irp.address,
    {
        self.inner.irp.address
    }

    /// The accessor to the memory that the read fills.
    pub fn user_ptr(&mut self) -> (ptr: &mut UserPtr)
        ensures
            ptr@ == old(self)@.buffer,
            final(self)@ == old(self)@.with_buffer(final(ptr)@),
    {
        &mut self.buffer
    }

    /// Where in the device the read begins.
    pub fn offset(&self) -> (offset: i64)
        ensures
            offset == self@.irp.offset_for(
                self@.binding,
                self@.irp.stack_location.parameters.read_byte_offset(),
            ),
    {
        let byte_offset = match self.inner.irp.stack_location.parameters {
            Parameters::Read { byte_offset, .. } => byte_offset,
            _ => 0,
        };
        offset_for(&self.inner.irp, self.binding, byte_offset)
    }

    /// Widens the request to a plain request again. The packet holds what
    /// the accessor held.
    pub fn into_request(self) -> (request: IoRequest)
        ensures
            request@ == self@.irp,
    {
        IoRequest { irp: put_regions(self.inner.irp, self.binding, self.buffer) }
    }
}

impl From<ReadRequest> for IoRequest {
    /// The same as [`ReadRequest::into_request`].
    fn from(read: ReadRequest) -> (request: IoRequest)
        ensures
            request@ == read@.irp,
    {
        read.into_request()
    }
}

impl FromSpecImpl<ReadRequest> for IoRequest {
    open spec fn obeys_from_spec() -> bool {
        false
    }

    open spec fn from_spec(read: ReadRequest) -> IoRequest {
        arbitrary()
    }
}

/// A request to write to the device.
#[derive(Debug)]
pub struct WriteRequest {
    inner: IoRequest,
    buffer: UserPtr,
    binding: Binding,
}

impl View for WriteRequest {
    type V = RequestView;

    closed spec fn view(&self) -> RequestView {
        RequestView {
            irp: self.inner@.with_regions(self.binding, self.buffer@.regions()),
            buffer: self.buffer@,
            binding: self.binding,
        }
    }
}

impl WriteRequest {
    /// Narrows a request to a write. The memory of the packet goes to the
    /// accessor; the packet is otherwise unchanged.
    pub fn new(request: IoRequest) -> (write: WriteRequest)
        ensures
            write@ == (RequestView {
                irp: request@,
                buffer: request@.write_accessor(),
                binding: request@.transfer_binding(),
            }),
            write@.wf(),
    {
        let length = match request.irp.stack_location.parameters {
            Parameters::Write { length, .. } => length,
            _ => 0,
        };
        let (binding, size) = transfer_shape(&request.irp, length);
        let (irp, first, _) = take_regions(request.irp, binding);
        let buffer = match binding {
            Binding::Unbound => UserPtr::new_neither(),
            _ => UserPtr::new_buffered(first, size, 0),
        };
        proof {
            request@.lemma_regions_put_back(binding);
            request@.lemma_regions_overwrite(binding, (None, None), request@.regions(binding));
        }
        WriteRequest { inner: IoRequest { irp }, buffer, binding }
    }

    /// In every state of the request the packet holds what the accessor
    /// holds.
    pub proof fn lemma_wf(self)
        ensures
            self@.wf(),
    {
        self.inner@.lemma_regions_overwrite(
            self.binding,
            self.buffer@.regions(),
            self.buffer@.regions(),
        );
    }

    /// The flags of the packet. A packet with a bit set that is no flag is
    /// read as a packet without flags.
    pub fn flags(&self) -> (flags: IrpFlags)
        ensures
            flags@ == match IrpFlags::spec_from_bits(self@.irp.flags) {
                Some(known) => known,
                None => 0,
            },
    {
        self.inner.flags()
    }

    /// The code of the operation.
    pub fn major(&self) -> (major: u8)
        ensures
            major == self@.irp.stack_location.major_function,
    {
        self.inner.major()
    }

    /// The address of the packet, by which the host knows the request.
    pub fn address(&self) -> (address: usize)
        ensures
            address == self@.irp.address,
    {
        self.inner.irp.address
    }

    /// The accessor to the memory that the write brings.
    pub fn user_ptr(&self) -> (ptr: &UserPtr)
        ensures
            ptr@ == self@.buffer,
    {
        &self.buffer
    }

    /// Where in the device the write begins.
    pub fn offset(&self) -> (offset: i64)
        ensures
            offset == self@.irp.offset_for(
                self@.binding,
                self@.irp.stack_location.parameters.write_byte_offset(),
            ),
    {
        let byte_offset = match self.inner.irp.stack_location.parameters {
            Parameters::Write { byte_offset, .. } => byte_offset,
            _ => 0,
        };
        offset_for(&self.inner.irp, self.binding, byte_offset)
    }

    /// Widens the request to a plain request again. The packet holds what
    /// the accessor held.
    pub fn into_request(self) -> (request: IoRequest)
        ensures
            request@ == self@.irp,
    {
        IoRequest { irp: put_regions(self.inner.irp, self.binding, self.buffer) }
    }
}

impl From<WriteRequest> for IoRequest {
    /// The same as [`WriteRequest::into_request`].
    fn from(write: WriteRequest) -> (request: IoRequest)
        ensures
            request@ == write@.irp,
    {
        write.into_request()
    }
}

impl FromSpecImpl<WriteRequest> for IoRequest {
    open spec fn obeys_from_spec() -> bool {
        false
    }

    open spec fn from_spec(write: WriteRequest) -> IoRequest {
        arbitrary()
    }
}

/// A device-control request.
#[derive(Debug)]
pub struct IoControlRequest {
    inner: IoRequest,
    buffer: UserPtr,
    binding: Binding,
}

impl View for IoControlRequest {
    type V = RequestView;

    closed spec fn view(&self) -> RequestView {
        RequestView {
            irp: self.inner@.with_regions(self.binding, self.buffer@.regions()),
            buffer: self.buffer@,
            binding: self.binding,
        }
    }
}

impl IoControlRequest {
    /// Narrows a request to a device-control request. The memory of the
    /// packet goes to the accessor, in the shape that the transfer method of
    /// the control code asks for; the packet is otherwise unchanged.
    pub fn new(request: IoRequest) -> (control: IoControlRequest)
        ensures
            control@ == (RequestView {
                irp: request@,
                buffer: request@.control_accessor(),
                binding: request@.control_binding(),
            }),
            control@.wf(),
    {
        let (output, input, value) = match request.irp.stack_location.parameters {
            Parameters::DeviceIoControl {
                output_buffer_length,
                input_buffer_length,
                io_control_code,
            } => (output_buffer_length as usize, input_buffer_length as usize, io_control_code),
            _ => (0, 0, 0),
        };
        let method = ControlCode::from(value).transfer_method();
        let binding = match method {
            TransferMethod::Buffered => Binding::System,
            TransferMethod::InputDirect => Binding::MappedThenSystem,
            TransferMethod::OutputDirect => Binding::SystemThenMapped,
            TransferMethod::Neither => Binding::Unbound,
        };
        let (irp, first, second) = take_regions(request.irp, binding);
        let buffer = match method {
            TransferMethod::Buffered => UserPtr::new_buffered(first, input, output),
            TransferMethod::InputDirect => UserPtr::new_direct(first, second, output, input),
            TransferMethod::OutputDirect => UserPtr::new_direct(first, second, input, output),
            TransferMethod::Neither => UserPtr::new_neither(),
        };
        proof {
            request@.lemma_regions_put_back(binding);
            request@.lemma_regions_overwrite(binding, (None, None), request@.regions(binding));
        }
        IoControlRequest { inner: IoRequest { irp }, buffer, binding }
    }

    /// In every state of the request the packet holds what the accessor
    /// holds.
    pub proof fn lemma_wf(self)
        ensures
            self@.wf(),
    {
        self.inner@.lemma_regions_overwrite(
            self.binding,
            self.buffer@.regions(),
            self.buffer@.regions(),
        );
    }

    /// The flags of the packet. A packet with a bit set that is no flag is
    /// read as a packet without flags.
    pub fn flags(&self) -> (flags: IrpFlags)
        ensures
            flags@ == match IrpFlags::spec_from_bits(self@.irp.flags) {
                Some(known) => known,
                None => 0,
            },
    {
        self.inner.flags()
    }

    /// The code of the operation.
    pub fn major(&self) -> (major: u8)
        ensures
            major == self@.irp.stack_location.major_function,
    {
        self.inner.major()
    }

    /// The address of the packet, by which the host knows the request.
    pub fn address(&self) -> (address: usize)
        ensures
            address == self@.irp.address,
    {
        self.inner.irp.address
    }

    /// The control code of the request, unpacked.
    pub fn control_code(&self) -> (code: ControlCode)
        ensures
            code == self@.irp.control_code(),
    {
        let value = match self.inner.irp.stack_location.parameters {
            Parameters::DeviceIoControl { io_control_code, .. } => io_control_code,
            _ => 0,
        };
        ControlCode::from(value)
    }

    /// What the request asks for: the access that its caller must hold, and
    /// the function number.
    pub fn function(&self) -> (function: (RequiredAccess, u32))
        ensures
            function == (self@.irp.control_code().1, self@.irp.control_code().2),
    {
        let code = self.control_code();
        (code.required_access(), code.number())
    }

    /// The accessor to the memory of the request.
    pub fn user_ptr(&mut self) -> (ptr: &mut UserPtr)
        ensures
            ptr@ == old(self)@.buffer,
            final(self)@ == old(self)@.with_buffer(final(ptr)@),
    {
        &mut self.buffer
    }

    /// Widens the request to a plain request again. The packet holds what
    /// the accessor held.
    pub fn into_request(self) -> (request: IoRequest)
        ensures
            request@ == self@.irp,
    {
        IoRequest { irp: put_regions(self.inner.irp, self.binding, self.buffer) }
    }
}

impl From<IoControlRequest> for IoRequest {
    /// The same as [`IoControlRequest::into_request`].
    fn from(control: IoControlRequest) -> (request: IoRequest)
        ensures
            request@ == control@.irp,
    {
        control.into_request()
    }
}

impl FromSpecImpl<IoControlRequest> for IoRequest {
    open spec fn obeys_from_spec() -> bool {
        false
    }

    open spec fn from_spec(control: IoControlRequest) -> IoRequest {
        arbitrary()
    }
}

} // verus!
