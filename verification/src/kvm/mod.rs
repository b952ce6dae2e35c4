//! KVM-backed execution engine (x86-64 first).
//!
//! The engine runs the guest natively on the host through KVM and turns
//! vmexits into device accesses. What talks to the kernel lives with the
//! caller; the decisions live here: how a VM is constructed and torn down
//! ([`vcpu`]), which calls install its memory and registers ([`host`]), what the
//! kernel is handed ([`abi`], [`x86`]), the guest's page table ([`paging`]), and
//! what each vmexit asks for ([`runloop`]).

use vstd::prelude::*;

use crate::vmexit::VmExit;

pub mod abi;
pub mod error;
pub mod host;
pub mod machine_laws;
pub mod paging;
pub mod run_laws;
pub mod runloop;
pub mod vcpu;
pub mod x86;

verus! {

/// Run a KVM-backed machine until an exit.
///
/// A machine for which KVM is selected is not executed yet: it is left as it
/// is, and the run counts as interrupted.
pub fn run<M>(_vm: &mut M) -> (exit: VmExit)
    ensures
        exit == VmExit::Interrupted,
        *final(_vm) == *old(_vm),
{
    VmExit::Interrupted
}

} // verus!
