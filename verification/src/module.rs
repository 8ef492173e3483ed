//! The module of a driver: what is set up when the driver is loaded and torn
//! down when it is unloaded.
//!
//! A driver has one module. Its state lives in a [`ModuleSlot`], which the
//! code that answers the host owns and hands to the two entry points:
//! [`ModuleSlot::driver_entry`] when the host loads the driver, and
//! [`ModuleSlot::driver_exit`] when it unloads it.

use vstd::prelude::*;
use crate::driver::Driver;
use crate::error::{Error, NTSTATUS, STATUS_SUCCESS};

verus! {

/// The module of a driver.
pub trait KernelModule: Sized {
    /// What setting the module up may come to for the given driver and
    /// registry path: the module says so itself. A module that tells nothing
    /// of its setting up lets every outcome be one.
    open spec fn sets_up(
        driver: Driver,
        registry_path: Seq<char>,
        outcome: Result<Self, Error>,
    ) -> bool {
        true
    }

    /// Sets the module up. `registry_path` is where the host keeps the
    /// settings of the driver.
    fn init(driver: Driver, registry_path: &str) -> (outcome: Result<Self, Error>)
        ensures
            Self::sets_up(driver, registry_path@, outcome),
    ;

    /// Tears the module down.
    fn cleanup(&mut self, driver: Driver) {
    }
}

/// The place of the one module of a driver: empty until the driver is loaded,
/// and empty again once it is unloaded.
#[derive(Debug)]
pub struct ModuleSlot<M> {
    module: Option<M>,
}

impl<M> View for ModuleSlot<M> {
    type V = Option<M>;

    closed spec fn view(&self) -> Option<M> {
        self.module
    }
}

/// The slot after an attempt to set a module up: it holds the module if there
/// is one, and what it held before if there is none.
pub open spec fn loaded<M>(before: Option<M>, outcome: Result<M, Error>) -> Option<M> {
    match outcome {
        Ok(module) => Some(module),
        Err(_) => before,
    }
}

/// The status that the host is told after an attempt to set a module up:
/// success, or the status of the error.
pub open spec fn load_status<M>(outcome: Result<M, Error>) -> NTSTATUS {
    match outcome {
        Ok(_) => STATUS_SUCCESS,
        Err(error) => error.0,
    }
}

impl<M: KernelModule> ModuleSlot<M> {
    /// An empty slot.
    pub fn new() -> (slot: ModuleSlot<M>)
        ensures
            slot@ is None,
    {
        ModuleSlot { module: None }
    }

    /// Whether the slot holds a module.
    pub fn is_loaded(&self) -> (is_loaded: bool)
        ensures
            is_loaded == self@ is Some,
    {
        self.module.is_some()
    }

    /// Records the outcome of setting the module up, and returns the status
    /// for the host.
    pub fn load(&mut self, outcome: Result<M, Error>) -> (status: NTSTATUS)
        ensures
            final(self)@ == loaded(old(self)@, outcome),
            status == load_status(outcome),
    {
        match outcome {
            Ok(module) => {
                self.module = Some(module);
                STATUS_SUCCESS
            },
            Err(error) => error.to_ntstatus(),
        }
    }

    /// The driver is loaded: sets the module up for this driver and this
    /// registry path, and records the outcome as [`ModuleSlot::load`] does. So
    /// the slot holds a module afterwards only if it held one before or the
    /// host is told of success.
    pub fn driver_entry(&mut self, driver: Driver, registry_path: &str) -> (status: NTSTATUS)
        ensures
            exists|outcome: Result<M, Error>|
                #[trigger] M::sets_up(driver, registry_path@, outcome) && final(self)@ == loaded(
                    old(self)@,
                    outcome,
                ) && status == load_status(outcome),
            final(self)@ == old(self)@ || (final(self)@ is Some && status == STATUS_SUCCESS),
    {
        let outcome = M::init(driver, registry_path);
        let ghost seen = outcome;
        let status = self.load(outcome);
        assert(M::sets_up(driver, registry_path@, seen) && self@ == loaded(old(self)@, seen)
            && status == load_status(seen));
        status
    }

    /// The driver is unloaded: tears the module down, if there is one. The
    /// slot is empty afterwards.
    pub fn driver_exit(&mut self, driver: Driver)
        ensures
            final(self)@ is None,
    {
        match self.module.take() {
            Some(mut module) => module.cleanup(driver),
            None => (),
        }
    }
}

} // verus!
