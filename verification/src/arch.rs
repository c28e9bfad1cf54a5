//! Debug architectures, core types and per-core state.

use vstd::prelude::*;

verus! {

/// One of the two debug architectures a session can speak.
#[derive(Clone, Copy, Debug, PartialEq, Eq, Structural)]
pub enum Architecture {
    Arm,
    Riscv,
}

/// The static identity of a core, as a target descriptor declares it.
#[derive(Clone, Copy, Debug, PartialEq, Eq, Structural)]
pub enum CoreType {
    /// ARM Cortex-M0.
    M0,
    /// ARM Cortex-M3.
    M3,
    /// ARM Cortex-M4.
    M4,
    /// ARM Cortex-M33.
    M33,
    /// A RISC-V core.
    Riscv,
}

impl CoreType {
    /// The debug architecture that reaches a core of this type.
    pub open spec fn spec_architecture(self) -> Architecture {
        match self {
            CoreType::Riscv => Architecture::Riscv,
            _ => Architecture::Arm,
        }
    }

    /// The debug architecture that reaches a core of this type.
    pub fn architecture(&self) -> (r: Architecture)
        ensures
            r == self.spec_architecture(),
    {
        match self {
            CoreType::Riscv => Architecture::Riscv,
            _ => Architecture::Arm,
        }
    }
}

/// The architecture-specific slice of a per-core entry: the static core-type
/// identity the target descriptor declared for that core.
#[derive(Clone, Copy, Debug, PartialEq, Eq, Structural)]
pub struct SpecificCoreState {
    /// The core type the target descriptor declared.
    pub core_type: CoreType,
}

impl SpecificCoreState {
    /// The declared core type.
    pub open spec fn spec_core_type(self) -> CoreType {
        self.core_type
    }

    /// Makes the per-core identity record for a declared core type.
    pub fn from_core_type(core_type: CoreType) -> (r: Self)
        ensures
            r.spec_core_type() == core_type,
    {
        SpecificCoreState { core_type }
    }

    /// The declared core type.
    pub fn core_type(&self) -> (r: CoreType)
        ensures
            r == self.spec_core_type(),
    {
        self.core_type
    }
}

/// The mutable runtime state of one core, retained across attach calls:
/// the last-known halt flag.
#[derive(Clone, Copy, Debug, PartialEq, Eq, Structural)]
pub struct CoreState {
    /// Whether the core was halted when its halt status was last learned.
    pub halted: bool,
}

impl CoreState {
    /// A fresh per-core state: no halt has been observed yet.
    pub fn new() -> (r: Self)
        ensures
            !r.halted,
    {
        CoreState { halted: false }
    }
}

/// A transient, exclusive view into one core, minted by a session for the
/// scope of one call.
///
/// Minting the handle goes through the session's architecture interface and
/// succeeds only when the matching communication interface is present on the
/// transport; the handle therefore certifies an established communication
/// path to the core it names.
#[derive(Clone, Copy, Debug, PartialEq, Eq, Structural)]
pub struct Core {
    /// The index of the core within the session's core table.
    pub index: usize,
    /// The declared type of the addressed core.
    pub core_type: CoreType,
    /// The architecture of the communication path.
    pub architecture: Architecture,
    /// The core's last-known halt flag, as cached in its per-core state.
    pub halted: bool,
}

impl Core {
    /// The last-known halt flag of the addressed core.
    pub fn core_halted(&self) -> (r: bool)
        ensures
            r == self.halted,
    {
        self.halted
    }
}

} // verus!
