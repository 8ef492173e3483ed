//! The choice of the pool interface by which a driver allocates memory.
//!
//! The host offers two interfaces to its pool of memory, an older one and a
//! newer one. Which of them a driver must call depends on the version of the
//! host; every allocation is marked with the tag of the driver.

use vstd::prelude::*;
use crate::version::VersionInfo;

verus! {

/// The major version from which on the newer interface is always there.
pub const POOL2_MAJOR: u32 = 10;

/// The build of major version [`POOL2_MAJOR`] that has the newer interface.
pub const POOL2_BUILD: u32 = 19041;

/// The interfaces to the pool of the host.
#[derive(Clone, Copy, Debug, PartialEq, Eq, Structural)]
pub enum PoolInterface {
    /// The older interface, which takes the kind of pool and a tag.
    WithTag,
    /// The newer interface, which takes flags and a tag.
    Pool2,
}

/// The interface that a host of version `version` is allocated through: the
/// newer one above major version [`POOL2_MAJOR`], and in that major version
/// on build [`POOL2_BUILD`]; the older one otherwise.
pub open spec fn pool_interface(version: (u32, u32, u32)) -> PoolInterface {
    if version.0 > POOL2_MAJOR || (version.0 == POOL2_MAJOR && version.2 == POOL2_BUILD) {
        PoolInterface::Pool2
    } else {
        PoolInterface::WithTag
    }
}

/// An allocator over the pool of the host.
#[derive(Clone, Copy, Debug, PartialEq, Eq, Structural)]
pub struct KernelAllocator {
    tag: u32,
}

impl KernelAllocator {
    /// The tag that marks the allocations.
    pub closed spec fn spec_tag(&self) -> u32 {
        self.tag
    }

    /// An allocator that marks its allocations with `tag`, most often four
    /// characters read as one number.
    pub fn new(tag: u32) -> (allocator: KernelAllocator)
        ensures
            allocator.spec_tag() == tag,
    {
        KernelAllocator { tag }
    }

    /// The tag that marks the allocations.
    #[verifier::when_used_as_spec(spec_tag)]
    pub fn tag(&self) -> (tag: u32)
        ensures
            tag == self.spec_tag(),
    {
        self.tag
    }

    /// The interface through which to allocate on a host of the given
    /// version.
    pub fn interface(&self, version: &VersionInfo) -> (interface: PoolInterface)
        ensures
            interface == pool_interface(version@),
    {
        if version.major() > POOL2_MAJOR || (version.major() == POOL2_MAJOR
            && version.build_number() == POOL2_BUILD) {
            PoolInterface::Pool2
        } else {
            PoolInterface::WithTag
        }
    }
}

} // verus!
