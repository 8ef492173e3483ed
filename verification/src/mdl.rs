//! Lists of locked pages, from their allocation to their release.
//!
//! A list is allocated, its pages are mapped, the mapping is undone, and the
//! list is freed. Each step is a call to the host, which this library does not
//! make; the types here keep the addresses that the steps work on and say
//! which step may follow which.

use vstd::prelude::*;
use crate::error::{Error, STATUS_INSUFFICIENT_RESOURCES};

verus! {

/// On whose behalf memory is reached: the kernel's or a caller's.
#[derive(Clone, Copy, Debug, PartialEq, Eq, Structural)]
pub enum AccessMode {
    KernelMode,
    UserMode,
}

impl AccessMode {
    /// The number by which the host knows this mode.
    pub open spec fn spec_code(&self) -> i32 {
        match *self {
            AccessMode::KernelMode => 0,
            AccessMode::UserMode => 1,
        }
    }

    /// The number by which the host knows this mode.
    #[verifier::when_used_as_spec(spec_code)]
    pub fn code(&self) -> (code: i32)
        ensures
            code == self.spec_code(),
    {
        match *self {
            AccessMode::KernelMode => 0,
            AccessMode::UserMode => 1,
        }
    }
}

/// A list of locked pages that the host has allocated.
#[derive(Debug)]
pub struct MemoryDescriptorList {
    raw: usize,
}

/// A list of locked pages whose pages are mapped.
#[derive(Debug)]
pub struct LockedMapping {
    raw: usize,
    ptr: usize,
}

impl MemoryDescriptorList {
    /// The address of the list.
    pub closed spec fn spec_raw(&self) -> usize {
        self.raw
    }

    /// The list that the host allocated at address `raw`. A null address says
    /// that the host had no resources for a list.
    pub fn new(raw: usize) -> (list: Result<MemoryDescriptorList, Error>)
        ensures
            if raw != 0 {
                list matches Ok(made) && made.spec_raw() == raw
            } else {
                list matches Err(error) && error == Error(STATUS_INSUFFICIENT_RESOURCES)
            },
    {
        if raw == 0 {
            return Err(Error::insufficient_resources());
        }
        Ok(MemoryDescriptorList { raw })
    }

    /// The address of the list.
    #[verifier::when_used_as_spec(spec_raw)]
    pub fn as_raw(&self) -> (raw: usize)
        ensures
            raw == self.spec_raw(),
    {
        self.raw
    }

    /// The pages of the list have been mapped at address `ptr`.
    pub fn map_locked_pages(self, ptr: usize) -> (mapping: LockedMapping)
        ensures
            mapping.spec_raw() == self.spec_raw(),
            mapping.spec_ptr() == ptr,
    {
        LockedMapping { raw: self.raw, ptr }
    }
}

impl LockedMapping {
    /// The address of the list.
    pub closed spec fn spec_raw(&self) -> usize {
        self.raw
    }

    /// The address at which the pages are mapped.
    pub closed spec fn spec_ptr(&self) -> usize {
        self.ptr
    }

    /// The address of the list.
    #[verifier::when_used_as_spec(spec_raw)]
    pub fn as_raw(&self) -> (raw: usize)
        ensures
            raw == self.spec_raw(),
    {
        self.raw
    }

    /// The address at which the pages are mapped.
    #[verifier::when_used_as_spec(spec_ptr)]
    pub fn ptr(&self) -> (ptr: usize)
        ensures
            ptr == self.spec_ptr(),
    {
        self.ptr
    }

    /// The mapping has been undone: what is left is the list.
    pub fn unlock(self) -> (list: MemoryDescriptorList)
        ensures
            list.spec_raw() == self.spec_raw(),
    {
        MemoryDescriptorList { raw: self.raw }
    }
}

} // verus!
