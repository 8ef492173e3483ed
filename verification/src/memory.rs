//! Addresses of memory, and mappings of device memory.

use vstd::prelude::*;
use vstd::std_specs::convert::FromSpecImpl;
use crate::error::{Error, STATUS_INVALID_PARAMETER};

verus! {

/// The source of a copy is a physical address.
pub const MM_COPY_MEMORY_PHYSICAL: u32 = 0x1;

/// The source of a copy is a virtual address.
pub const MM_COPY_MEMORY_VIRTUAL: u32 = 0x2;

/// How the processor caches a mapping.
#[derive(Clone, Copy, Debug, PartialEq, Eq, Structural)]
pub enum MemoryCaching {
    NonCached,
    Cached,
    WriteCombined,
    NotMapped,
}

impl MemoryCaching {
    /// The number by which the host knows this kind of caching.
    pub open spec fn spec_code(&self) -> i32 {
        match *self {
            MemoryCaching::NonCached => 0i32,
            MemoryCaching::Cached => 1i32,
            MemoryCaching::WriteCombined => 2i32,
            MemoryCaching::NotMapped => -1i32,
        }
    }

    /// The number by which the host knows this kind of caching.
    #[verifier::when_used_as_spec(spec_code)]
    pub fn code(&self) -> (code: i32)
        ensures
            code == self.spec_code(),
    {
        match *self {
            MemoryCaching::NonCached => 0,
            MemoryCaching::Cached => 1,
            MemoryCaching::WriteCombined => 2,
            MemoryCaching::NotMapped => -1,
        }
    }
}

/// An address of physical memory.
#[derive(Clone, Copy, Debug, PartialEq, Eq, Structural, PartialOrd, Ord)]
pub struct PhysicalAddress(pub u64);

impl From<u64> for PhysicalAddress {
    fn from(value: u64) -> (address: PhysicalAddress) {
        PhysicalAddress(value)
    }
}

impl FromSpecImpl<u64> for PhysicalAddress {
    open spec fn obeys_from_spec() -> bool {
        true
    }

    open spec fn from_spec(value: u64) -> PhysicalAddress {
        PhysicalAddress(value)
    }
}

impl From<PhysicalAddress> for u64 {
    fn from(address: PhysicalAddress) -> (value: u64) {
        address.0
    }
}

impl FromSpecImpl<PhysicalAddress> for u64 {
    open spec fn obeys_from_spec() -> bool {
        true
    }

    open spec fn from_spec(address: PhysicalAddress) -> u64 {
        address.0
    }
}

/// The address that a copy reads from.
#[derive(Copy, Clone, Debug, PartialEq, Eq, Structural)]
pub enum CopyAddress {
    /// An address in the address space of the caller.
    Virtual(usize),
    /// An address of physical memory.
    Physical(PhysicalAddress),
}

impl CopyAddress {
    /// The flag that tells the host which kind of address this is.
    pub open spec fn spec_flags(&self) -> u32 {
        match *self {
            CopyAddress::Virtual(_) => MM_COPY_MEMORY_VIRTUAL,
            CopyAddress::Physical(_) => MM_COPY_MEMORY_PHYSICAL,
        }
    }

    /// The address as a number.
    pub open spec fn spec_address(&self) -> u64 {
        match *self {
            CopyAddress::Virtual(address) => address as u64,
            CopyAddress::Physical(address) => address.0,
        }
    }

    /// The flag that tells the host which kind of address this is.
    #[verifier::when_used_as_spec(spec_flags)]
    pub fn flags(&self) -> (flags: u32)
        ensures
            flags == self.spec_flags(),
    {
        match *self {
            CopyAddress::Virtual(_) => MM_COPY_MEMORY_VIRTUAL,
            CopyAddress::Physical(_) => MM_COPY_MEMORY_PHYSICAL,
        }
    }

    /// The address as a number.
    #[verifier::when_used_as_spec(spec_address)]
    pub fn address(&self) -> (address: u64)
        ensures
            address == self.spec_address(),
    {
        match *self {
            CopyAddress::Virtual(address) => address as u64,
            CopyAddress::Physical(address) => address.0,
        }
    }
}

/// A range of device memory that the host has mapped.
#[derive(Debug)]
pub struct IoMapping {
    ptr: usize,
    size: usize,
}

impl View for IoMapping {
    type V = (usize, usize);

    closed spec fn view(&self) -> (usize, usize) {
        (self.ptr, self.size)
    }
}

impl IoMapping {
    /// The mapping of `size` bytes that the host made at address `ptr`. A
    /// null address says that the host made none: that is an invalid
    /// parameter.
    pub fn new(ptr: usize, size: usize) -> (mapping: Result<IoMapping, Error>)
        ensures
            if ptr != 0 {
                mapping matches Ok(made) && made@ == (ptr, size)
            } else {
                mapping matches Err(error) && error == Error(STATUS_INVALID_PARAMETER)
            },
    {
        if ptr == 0 {
            return Err(Error::invalid_parameter());
        }
        Ok(IoMapping { ptr, size })
    }

    /// Where the mapping begins.
    pub fn ptr(&self) -> (ptr: usize)
        ensures
            ptr == self@.0,
    {
        self.ptr
    }

    /// The number of bytes mapped.
    pub fn size(&self) -> (size: usize)
        ensures
            size == self@.1,
    {
        self.size
    }
}

} // verus!
