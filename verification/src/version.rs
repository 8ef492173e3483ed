//! The version of the host.

use vstd::prelude::*;

verus! {

/// The version of the host: its major and minor number and the number of its
/// build.
#[derive(Clone, Copy, Debug, PartialEq, Eq, Structural)]
pub struct VersionInfo {
    major: u32,
    minor: u32,
    build_number: u32,
}

impl View for VersionInfo {
    type V = (u32, u32, u32);

    closed spec fn view(&self) -> (u32, u32, u32) {
        (self.major, self.minor, self.build_number)
    }
}

impl VersionInfo {
    /// The version with the given major number, minor number and build number.
    pub fn new(major: u32, minor: u32, build_number: u32) -> (version: VersionInfo)
        ensures
            version@ == (major, minor, build_number),
    {
        VersionInfo { major, minor, build_number }
    }

    /// The major number of the version.
    pub fn major(&self) -> (major: u32)
        ensures
            major == self@.0,
    {
        self.major
    }

    /// The minor number of the version.
    pub fn minor(&self) -> (minor: u32)
        ensures
            minor == self@.1,
    {
        self.minor
    }

    /// The number of the build.
    pub fn build_number(&self) -> (build_number: u32)
        ensures
            build_number == self@.2,
    {
        self.build_number
    }
}

} // verus!
