//! The parameters of a view of a section of shared memory.

use vstd::prelude::*;

verus! {

/// Whether a view of a section is passed on to the children of a process.
#[derive(Clone, Copy, Debug, PartialEq, Eq, Structural)]
pub enum SectionInherit {
    ViewShare,
    ViewUnmap,
}

impl SectionInherit {
    /// The number by which the host knows this choice.
    pub open spec fn spec_code(&self) -> i32 {
        match *self {
            SectionInherit::ViewShare => 1,
            SectionInherit::ViewUnmap => 2,
        }
    }

    /// The number by which the host knows this choice.
    #[verifier::when_used_as_spec(spec_code)]
    pub fn code(&self) -> (code: i32)
        ensures
            code == self.spec_code(),
    {
        match *self {
            SectionInherit::ViewShare => 1,
            SectionInherit::ViewUnmap => 2,
        }
    }
}

/// Where a view is to lie: at a given address, or at any address whose given
/// number of high bits is zero.
#[derive(Clone, Copy, Debug, PartialEq, Eq, Structural)]
pub enum BaseAddress {
    Desired(usize),
    ZeroBits(usize),
}

impl BaseAddress {
    /// The address to ask the host for; null where the host is to choose.
    pub open spec fn spec_address(&self) -> usize {
        match *self {
            BaseAddress::Desired(address) => address,
            BaseAddress::ZeroBits(_) => 0,
        }
    }

    /// The number of high bits of the address that must be zero.
    pub open spec fn spec_zero_bits(&self) -> usize {
        match *self {
            BaseAddress::Desired(_) => 0,
            BaseAddress::ZeroBits(bits) => bits,
        }
    }

    /// The address to ask the host for; null where the host is to choose.
    #[verifier::when_used_as_spec(spec_address)]
    pub fn address(&self) -> (address: usize)
        ensures
            address == self.spec_address(),
    {
        match *self {
            BaseAddress::Desired(address) => address,
            BaseAddress::ZeroBits(_) => 0,
        }
    }

    /// The number of high bits of the address that must be zero.
    #[verifier::when_used_as_spec(spec_zero_bits)]
    pub fn zero_bits(&self) -> (bits: usize)
        ensures
            bits == self.spec_zero_bits(),
    {
        match *self {
            BaseAddress::Desired(_) => 0,
            BaseAddress::ZeroBits(bits) => bits,
        }
    }
}

} // verus!
