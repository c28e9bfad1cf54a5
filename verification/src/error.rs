//! The error taxonomy of the session manager.

use vstd::prelude::*;

use crate::arch::Architecture;

verus! {

/// An error raised by the chip registry while resolving a target selector.
#[derive(Clone, Copy, Debug, PartialEq, Eq, Structural)]
pub enum RegistryError {
    /// A lookup by chip name found no chip of that name.
    NameNotFound,
    /// Autodetection obtained no chip identity to look up.
    AutodetectFailed,
}

/// An error raised by a session operation.
///
/// Every attach path, resolution path and breakpoint operation reports its
/// failure through this type; only session teardown swallows it and reports a
/// diagnostic instead.
#[derive(Clone, Copy, Debug, PartialEq, Eq, Structural)]
pub enum Error {
    /// A core index at or beyond the declared core count was addressed.
    CoreNotFound(usize),
    /// The communication interface of the given architecture is absent on
    /// the transport.
    InterfaceUnavailable(Architecture),
    /// The target selector could not be resolved to a chip.
    ChipNotFound(RegistryError),
    /// The adapter reported an I/O failure.
    Transport,
    /// The wait for the core to halt exceeded its bound.
    Timeout,
}

} // verus!
