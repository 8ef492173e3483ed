//! Symbolic links: names under which callers find a device.
//!
//! A link is made and unmade by calls to the host, which this library does not
//! make. [`SymbolicLink::new`] prepares the call that makes the link, and
//! [`CreateSymbolicLink::finish`] turns the outcome of the call into the link,
//! or into the error. The link keeps its name, by which it is unmade.

use vstd::prelude::*;
use vstd::pervasive::unreached;
use crate::error::{status_result, Error, NTSTATUS, STATUS_SUCCESS};
use crate::string::{utf16_units, wide_name};

verus! {

/// A symbolic link that exists.
#[derive(Debug)]
pub struct SymbolicLink {
    name: Vec<u16>,
}

impl View for SymbolicLink {
    type V = Seq<u16>;

    closed spec fn view(&self) -> Seq<u16> {
        self.name@
    }
}

/// What the host is asked when a symbolic link is made.
#[derive(Debug)]
pub struct CreateSymbolicLink {
    /// The name of the link, in UTF-16 and without a terminator.
    pub name: Vec<u16>,
    /// The name that the link leads to, in UTF-16 and without a terminator.
    pub target: Vec<u16>,
}

impl SymbolicLink {
    /// Prepares the making of a link from `name` to `target`: the call to the
    /// host, in plain values. Both names must be names that the host can take,
    /// without the character zero.
    pub fn new(name: &str, target: &str) -> (call: CreateSymbolicLink)
        requires
            !name@.contains('\0'),
            !target@.contains('\0'),
        ensures
            call.name@ == utf16_units(name@),
            call.target@ == utf16_units(target@),
    {
        let name = match wide_name(name) {
            Some(units) => units,
            None => unreached(),
        };
        let target = match wide_name(target) {
            Some(units) => units,
            None => unreached(),
        };
        CreateSymbolicLink { name, target }
    }

    /// The name of the link, by which the host unmakes it.
    pub fn name(&self) -> (name: &[u16])
        ensures
            name@ == self@,
    {
        self.name.as_slice()
    }
}

impl CreateSymbolicLink {
    /// Concludes the making of a link with the status that the host returned:
    /// the link for a status of success, and for every other status the error
    /// of that status.
    pub fn finish(self, status: NTSTATUS) -> (made: Result<SymbolicLink, Error>)
        ensures
            match status_result(status) {
                Ok(()) => made matches Ok(link) && link@ == self.name@,
                Err(error) => made matches Err(e) && e == error,
            },
    {
        if status != STATUS_SUCCESS {
            return Err(Error::from_ntstatus(status));
        }
        Ok(SymbolicLink { name: self.name })
    }
}

} // verus!
