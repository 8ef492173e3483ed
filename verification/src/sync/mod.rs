//! Locks that guard the state of a device against the dispatch calls that
//! run on it at the same time.

pub mod fast_mutex;
pub mod push_lock;
mod tickets;

pub use crate::sync::fast_mutex::FastMutex as Mutex;
pub use crate::sync::push_lock::PushLock as RwLock;
