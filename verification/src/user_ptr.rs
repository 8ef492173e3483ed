//! Bounds-checked access to the memory that a caller hands to a device.
//!
//! A request brings along no memory, one region, or two. The host says how
//! many bytes of a region may be read and how many may be written; these
//! declared sizes, not the true extent of the region, bound every access. A
//! [`UserPtr`] holds the regions together with the declared sizes and is the
//! only way to reach the bytes:
//!
//! * [`UserPtr::Buffered`]: one region, read and written at the same bytes;
//! * [`UserPtr::Direct`]: one region to read and another to write;
//! * [`UserPtr::Neither`]: no memory at all, so every access fails.
//!
//! A region that is absent (`None`) stands for a null address. A typed access
//! moves a whole value or nothing. It fails with
//! [`STATUS_ACCESS_VIOLATION`] where the memory is not there, either because
//! the region is absent or because it ends before the value does, and with
//! [`STATUS_INVALID_USER_BUFFER`] where the declared size is zero or smaller
//! than the value. The declared size is a bound, not a demand: a value that
//! is smaller than the declared size is moved all the same.

use vstd::prelude::*;
use vstd::slice::slice_subrange;
use crate::error::{Error, STATUS_ACCESS_VIOLATION, STATUS_INVALID_USER_BUFFER};
use crate::plain::Plain;

verus! {

/// The bytes of a region, where there is a region.
pub open spec fn region_view(region: Option<Vec<u8>>) -> Option<Seq<u8>> {
    match region {
        Some(bytes) => Some(bytes@),
        None => None,
    }
}

/// The part of a region that an access of the declared size may touch: its
/// first `declared` bytes, or all of it where it is shorter than that, or
/// nothing where there is no region.
pub open spec fn window(region: Option<Seq<u8>>, declared: usize) -> Seq<u8> {
    match region {
        Some(bytes) => if declared <= bytes.len() {
            bytes.take(declared as int)
        } else {
            bytes
        },
        None => Seq::empty(),
    }
}

/// Whether `wanted` bytes may be moved at the start of a region of the
/// declared size, and the error if they may not.
pub open spec fn access_check(region: Option<Seq<u8>>, declared: usize, wanted: nat) -> Result<
    (),
    Error,
> {
    match region {
        None => Err(Error(STATUS_ACCESS_VIOLATION)),
        Some(bytes) => if declared == 0 || wanted > declared {
            Err(Error(STATUS_INVALID_USER_BUFFER))
        } else if wanted > bytes.len() {
            Err(Error(STATUS_ACCESS_VIOLATION))
        } else {
            Ok(())
        },
    }
}

/// The memory of one request together with the sizes declared for it.
#[derive(Debug)]
pub enum UserPtr {
    /// One region, shared by reads and writes.
    Buffered { region: Option<Vec<u8>>, read_size: usize, write_size: usize },
    /// A region to read and a region to write.
    Direct {
        read_region: Option<Vec<u8>>,
        write_region: Option<Vec<u8>>,
        read_size: usize,
        write_size: usize,
    },
    /// No memory.
    Neither,
}

/// A [`UserPtr`] as a mathematical value.
pub enum UserPtrView {
    Buffered { region: Option<Seq<u8>>, read_size: usize, write_size: usize },
    Direct {
        read_region: Option<Seq<u8>>,
        write_region: Option<Seq<u8>>,
        read_size: usize,
        write_size: usize,
    },
    Neither,
}

impl View for UserPtr {
    type V = UserPtrView;

    open spec fn view(&self) -> UserPtrView {
        match *self {
            UserPtr::Buffered { region, read_size, write_size } => UserPtrView::Buffered {
                region: region_view(region),
                read_size,
                write_size,
            },
            UserPtr::Direct {
                read_region,
                write_region,
                read_size,
                write_size,
            } => UserPtrView::Direct {
                read_region: region_view(read_region),
                write_region: region_view(write_region),
                read_size,
                write_size,
            },
            UserPtr::Neither => UserPtrView::Neither,
        }
    }
}

impl UserPtrView {
    /// The region that reads go to.
    pub open spec fn read_region(self) -> Option<Seq<u8>> {
        match self {
            UserPtrView::Buffered { region, .. } => region,
            UserPtrView::Direct { read_region, .. } => read_region,
            UserPtrView::Neither => None,
        }
    }

    /// The region that writes go to.
    pub open spec fn write_region(self) -> Option<Seq<u8>> {
        match self {
            UserPtrView::Buffered { region, .. } => region,
            UserPtrView::Direct { write_region, .. } => write_region,
            UserPtrView::Neither => None,
        }
    }

    /// The number of bytes declared readable.
    pub open spec fn read_size(self) -> usize {
        match self {
            UserPtrView::Buffered { read_size, .. } => read_size,
            UserPtrView::Direct { read_size, .. } => read_size,
            UserPtrView::Neither => 0,
        }
    }

    /// The number of bytes declared writable.
    pub open spec fn write_size(self) -> usize {
        match self {
            UserPtrView::Buffered { write_size, .. } => write_size,
            UserPtrView::Direct { write_size, .. } => write_size,
            UserPtrView::Neither => 0,
        }
    }

    /// The regions that the accessor holds, in order: the shared region of a
    /// buffered accessor first, the read region of a direct accessor first and
    /// its write region second.
    pub open spec fn regions(self) -> (Option<Seq<u8>>, Option<Seq<u8>>) {
        match self {
            UserPtrView::Buffered { region, .. } => (region, None),
            UserPtrView::Direct { read_region, write_region, .. } => (read_region, write_region),
            UserPtrView::Neither => (None, None),
        }
    }

    /// The bytes that may be read.
    pub open spec fn readable(self) -> Seq<u8> {
        window(self.read_region(), self.read_size())
    }

    /// The bytes that may be overwritten.
    pub open spec fn writable(self) -> Seq<u8> {
        window(self.write_region(), self.write_size())
    }

    /// Whether a value of `wanted` bytes may be read, and the error if not.
    pub open spec fn read_check(self, wanted: nat) -> Result<(), Error> {
        access_check(self.read_region(), self.read_size(), wanted)
    }

    /// Whether a value of `wanted` bytes may be written, and the error if not.
    pub open spec fn write_check(self, wanted: nat) -> Result<(), Error> {
        access_check(self.write_region(), self.write_size(), wanted)
    }

    /// The same accessor with `bytes` as the content of the region that writes
    /// go to. Without such a region nothing changes.
    pub open spec fn with_write_region(self, bytes: Seq<u8>) -> UserPtrView {
        match self {
            UserPtrView::Buffered { region: Some(_), read_size, write_size } => {
                UserPtrView::Buffered { region: Some(bytes), read_size, write_size }
            },
            UserPtrView::Direct {
                read_region,
                write_region: Some(_),
                read_size,
                write_size,
            } => UserPtrView::Direct {
                read_region,
                write_region: Some(bytes),
                read_size,
                write_size,
            },
            _ => self,
        }
    }

    /// The same accessor after its writable bytes have been replaced by
    /// `bytes`. What lies behind the writable bytes stays as it is.
    pub open spec fn with_writable(self, bytes: Seq<u8>) -> UserPtrView {
        match self.write_region() {
            Some(region) => self.with_write_region(
                bytes + region.skip(self.writable().len() as int),
            ),
            None => self,
        }
    }

    /// The same accessor after `bytes` have been written at the start of the
    /// region that writes go to.
    pub open spec fn written(self, bytes: Seq<u8>) -> UserPtrView {
        match self.write_region() {
            Some(region) => self.with_write_region(bytes + region.skip(bytes.len() as int)),
            None => self,
        }
    }
}

/// A read needs the whole value declared readable: with one byte less
/// declared than the value has, the read fails, with an access violation or
/// as an invalid buffer; with exactly the value's size declared, over a region
/// that holds that many bytes, it succeeds.
pub proof fn lemma_read_boundary<T: Plain>(ptr: UserPtrView)
    requires
        T::size() >= 1,
    ensures
        ptr.read_size() == T::size() - 1 ==> ptr.read_check(T::size()) is Err && (
        ptr.read_check(T::size())->Err_0 == Error(STATUS_ACCESS_VIOLATION) || ptr.read_check(
            T::size(),
        )->Err_0 == Error(STATUS_INVALID_USER_BUFFER)),
        ptr.read_size() == T::size() && ptr.read_region() is Some && ptr.read_region().unwrap().len()
            >= T::size() ==> ptr.read_check(T::size()) is Ok,
{
}

/// A write needs the whole value declared writable: with one byte less
/// declared than the value has, the write fails, with an access violation or
/// as an invalid buffer; with exactly the value's size declared, over a region
/// that holds that many bytes, it succeeds.
pub proof fn lemma_write_boundary<T: Plain>(ptr: UserPtrView)
    requires
        T::size() >= 1,
    ensures
        ptr.write_size() == T::size() - 1 ==> ptr.write_check(T::size()) is Err && (
        ptr.write_check(T::size())->Err_0 == Error(STATUS_ACCESS_VIOLATION) || ptr.write_check(
            T::size(),
        )->Err_0 == Error(STATUS_INVALID_USER_BUFFER)),
        ptr.write_size() == T::size() && ptr.write_region() is Some
            && ptr.write_region().unwrap().len() >= T::size() ==> ptr.write_check(T::size()) is Ok,
{
}

/// The bytes that may be read or overwritten are never more than were
/// declared, nor more than the region holds.
pub proof fn lemma_window_bounded(region: Option<Seq<u8>>, declared: usize)
    ensures
        window(region, declared).len() <= declared,
        region matches Some(bytes) ==> window(region, declared).len() <= bytes.len()
            && window(region, declared) == bytes.take(window(region, declared).len() as int),
        region is None ==> window(region, declared).len() == 0,
{
    if let Some(bytes) = region {
        if declared > bytes.len() {
            assert(bytes.take(bytes.len() as int) =~= bytes);
        }
    }
}

/// In a buffered accessor reads and writes meet the same bytes: a value that
/// was written is the value that is read, where it may be read as well.
pub proof fn lemma_buffered_read_after_write<T: Plain>(ptr: UserPtrView, value: T)
    requires
        ptr is Buffered,
        ptr.write_check(T::size()) is Ok,
        ptr.read_check(T::size()) is Ok,
    ensures
        ptr.written(value.bytes()).read_check(T::size()) is Ok,
        T::of_bytes(ptr.written(value.bytes()).read_region().unwrap().take(T::size() as int))
            == value,
{
    T::lemma_bytes(value);
    let region = ptr.write_region().unwrap();
    let after = value.bytes() + region.skip(value.bytes().len() as int);
    assert(after.take(T::size() as int) =~= value.bytes());
}

/// Copies `source` over the start of `target`. What lies behind stays as it
/// is.
pub fn copy_to_prefix(target: &mut [u8], source: &[u8])
    requires
        source@.len() <= old(target)@.len(),
    ensures
        final(target)@ == source@ + old(target)@.skip(source@.len() as int),
{
    let n = source.len();
    let mut i: usize = 0;
    while i < n
        invariant
            n == source@.len(),
            i <= n <= target@.len(),
            target@.len() == old(target)@.len(),
            forall|k: int| 0 <= k < i ==> target@[k] == source@[k],
            forall|k: int| i <= k < target@.len() ==> target@[k] == old(target)@[k],
        decreases n - i,
    {
        target[i] = source[i];
        i = i + 1;
    }
    assert(target@ =~= source@ + old(target)@.skip(source@.len() as int));
}

impl UserPtr {
    /// An accessor to one region that is both read and written.
    pub fn new_buffered(region: Option<Vec<u8>>, read_size: usize, write_size: usize) -> (ptr:
        UserPtr)
        ensures
            ptr@ == (UserPtrView::Buffered { region: region_view(region), read_size, write_size }),
    {
        UserPtr::Buffered { region, read_size, write_size }
    }

    /// An accessor to a region that is read and another that is written.
    pub fn new_direct(
        read_region: Option<Vec<u8>>,
        write_region: Option<Vec<u8>>,
        read_size: usize,
        write_size: usize,
    ) -> (ptr: UserPtr)
        ensures
            ptr@ == (UserPtrView::Direct {
                read_region: region_view(read_region),
                write_region: region_view(write_region),
                read_size,
                write_size,
            }),
    {
        UserPtr::Direct { read_region, write_region, read_size, write_size }
    }

    /// An accessor to no memory.
    pub fn new_neither() -> (ptr: UserPtr)
        ensures
            ptr@ == UserPtrView::Neither,
    {
        UserPtr::Neither
    }

    /// The number of bytes declared readable; zero where there is no memory.
    pub fn read_size(&self) -> (size: usize)
        ensures
            size == self@.read_size(),
    {
        match self {
            UserPtr::Buffered { read_size, .. } => *read_size,
            UserPtr::Direct { read_size, .. } => *read_size,
            UserPtr::Neither => 0,
        }
    }

    /// The number of bytes declared writable; zero where there is no memory.
    pub fn write_size(&self) -> (size: usize)
        ensures
            size == self@.write_size(),
    {
        match self {
            UserPtr::Buffered { write_size, .. } => *write_size,
            UserPtr::Direct { write_size, .. } => *write_size,
            UserPtr::Neither => 0,
        }
    }

    /// The readable bytes: never more than were declared, and empty where the
    /// region is absent.
    pub fn as_slice(&self) -> (slice: &[u8])
        ensures
            slice@ == self@.readable(),
    {
        let (region, size) = match self {
            UserPtr::Buffered { region, read_size, .. } => (region.as_ref(), *read_size),
            UserPtr::Direct { read_region, read_size, .. } => (read_region.as_ref(), *read_size),
            UserPtr::Neither => (None, 0),
        };
        match region {
            Some(bytes) => {
                let n = if size <= bytes.len() {
                    size
                } else {
                    bytes.len()
                };
                let slice = slice_subrange(bytes.as_slice(), 0, n);
                assert(slice@ =~= self@.readable());
                slice
            },
            None => &[],
        }
    }

    /// The writable bytes, open to change: never more than were declared, and
    /// empty where the region is absent. What the caller leaves in the slice is
    /// what the region then holds at its start.
    pub fn as_mut_slice(&mut self) -> (slice: &mut [u8])
        ensures
            slice@ == old(self)@.writable(),
            final(self)@ == old(self)@.with_writable(final(slice)@),
    {
        match self {
            UserPtr::Buffered { region: Some(bytes), write_size, .. } => {
                let n = if *write_size <= bytes.len() {
                    *write_size
                } else {
                    bytes.len()
                };
                let (head, tail) = bytes.as_mut_slice().split_at_mut(n);
                head
            },
            UserPtr::Direct { write_region: Some(bytes), write_size, .. } => {
                let n = if *write_size <= bytes.len() {
                    *write_size
                } else {
                    bytes.len()
                };
                let (head, tail) = bytes.as_mut_slice().split_at_mut(n);
                head
            },
            _ => &mut [],
        }
    }

    /// Reads one value from the start of the readable region.
    ///
    /// The value is made of the first `T::size()` bytes of the region, and is
    /// read only if that many bytes were declared readable and are there.
    pub fn read<T: Plain>(&self) -> (result: Result<T, Error>)
        ensures
            match self@.read_check(T::size()) {
                Ok(()) => result == Ok::<T, Error>(
                    T::of_bytes(self@.read_region().unwrap().take(T::size() as int)),
                ),
                Err(error) => result == Err::<T, Error>(error),
            },
            result matches Ok(value) ==> value.bytes() == self@.read_region().unwrap().take(
                T::size() as int,
            ),
    {
        let (region, size) = match self {
            UserPtr::Buffered { region, read_size, .. } => (region.as_ref(), *read_size),
            UserPtr::Direct { read_region, read_size, .. } => (read_region.as_ref(), *read_size),
            UserPtr::Neither => (None, 0),
        };
        let wanted = T::size_of();
        match region {
            None => Err(Error::access_violation()),
            Some(bytes) => {
                if size == 0 || wanted > size {
                    Err(Error::invalid_user_buffer())
                } else if wanted > bytes.len() {
                    Err(Error::access_violation())
                } else {
                    let source = slice_subrange(bytes.as_slice(), 0, wanted);
                    proof {
                        T::lemma_of_bytes(source@);
                    }
                    Ok(T::from_bytes(source))
                }
            },
        }
    }

    /// Writes one value at the start of the writable region, and reports the
    /// number of bytes written: the size of the value.
    ///
    /// The value is written only if that many bytes were declared writable and
    /// are there; otherwise nothing changes.
    pub fn write<T: Plain>(&mut self, obj: &T) -> (result: Result<usize, Error>)
        ensures
            match old(self)@.write_check(T::size()) {
                Ok(()) => result == Ok::<usize, Error>(T::size() as usize) && final(self)@ == old(
                    self,
                )@.written(obj.bytes()),
                Err(error) => result == Err::<usize, Error>(error) && final(self)@ == old(self)@,
            },
    {
        let wanted = T::size_of();
        proof {
            T::lemma_bytes(*obj);
        }
        match self {
            UserPtr::Buffered { region: Some(bytes), write_size, .. } => {
                if *write_size == 0 || wanted > *write_size {
                    Err(Error::invalid_user_buffer())
                } else if wanted > bytes.len() {
                    Err(Error::access_violation())
                } else {
                    let source = obj.to_bytes();
                    copy_to_prefix(bytes.as_mut_slice(), source.as_slice());
                    Ok(wanted)
                }
            },
            UserPtr::Direct { write_region: Some(bytes), write_size, .. } => {
                if *write_size == 0 || wanted > *write_size {
                    Err(Error::invalid_user_buffer())
                } else if wanted > bytes.len() {
                    Err(Error::access_violation())
                } else {
                    let source = obj.to_bytes();
                    copy_to_prefix(bytes.as_mut_slice(), source.as_slice());
                    Ok(wanted)
                }
            },
            _ => Err(Error::access_violation()),
        }
    }
}

} // verus!
