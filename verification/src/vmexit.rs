//! Why a virtual machine stopped running.

use vstd::prelude::*;

verus! {

/// The exception a machine stopped on.
#[derive(Clone, Copy, Debug, PartialEq, Eq, Structural)]
pub enum ExceptionCode {
    /// The engine itself could not go on; the value says why.
    InternalError,
    /// The guest brought its processor down.
    Halt,
}

/// The outcome of running a machine.
#[derive(Clone, Copy, Debug, PartialEq, Eq)]
pub enum VmExit {
    /// The guest executed a halt.
    Halt,
    /// The host interrupted the run.
    Interrupted,
    /// The budget of the run is used up.
    InstructionLimit,
    /// An exception that nothing in the guest or the engine handled.
    UnhandledException((ExceptionCode, u64)),
}

} // verus!
