//! An access layer for LevelDB, an embedded, ordered key-value storage engine.
//!
//! The engine is reached through a narrow C interface of opaque handles and error
//! out-parameters. This crate holds everything the layer decides about that
//! interface: how configuration is translated, which native call an operation
//! makes, how the engine's answer becomes a result, how a cursor moves inside
//! its bounds, in which order handles are released. Every such decision is a
//! function with a contract that Verus proves. A native call is described by a
//! [`database::engine::Call`]; a driver outside this crate performs it and hands
//! back what the engine answered.
//!
//! ```rust,ignore
//! let mut options = Options::new();
//! options.create_if_missing = true;
//! let call = Database::open("/tmp/demo", &options);
//! let (handle, status) = driver.perform(call);
//! let database = Database::open_reply(handle, status, options)?;
//!
//! let call = database.put(&WriteOptions::new(), &[1], &[1]);
//! Error::from_status(driver.perform(call))?;
//! ```
pub use crate::database::batch;
pub use crate::database::comparator;
pub use crate::database::error;
pub use crate::database::iterator;
pub use crate::database::management;
pub use crate::database::options;
pub use crate::database::snapshots;
use vstd::prelude::*;

pub mod database;

verus! {

/// Version information of the linked engine.
#[derive(Debug, Copy, Clone)]
pub struct Version {
    /// Major version
    pub major: isize,
    /// Minor version
    pub minor: isize,
}

/// Library version information, from the two numbers that the engine reports.
pub fn version(major: i32, minor: i32) -> (v: Version)
    ensures
        v.major == major,
        v.minor == minor,
{
    Version { major: major as isize, minor: minor as isize }
}

} // verus!
