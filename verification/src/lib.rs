pub mod config;
pub mod edges;
pub mod geometry;
pub mod navigate;
pub mod workspace;

use vstd::prelude::*;

verus! {

/// The failures this library reports to its callers.
#[derive(Clone, Copy, PartialEq, Eq, Structural, Debug)]
pub enum Error {
    /// A monitor name is missing from the configured roster, or the roster
    /// of currently connected monitors is empty.
    ConfigurationError,
    /// The window manager reported a state the library cannot work from,
    /// such as no focused monitor or no monitor with a requested id.
    PreconditionViolation,
}

} // verus!
