//! Guest-facing sockets and the KVM execution engine of an emulator, as
//! verified code.

pub mod errno;
pub mod fs;
pub mod kvm;
pub mod le;
pub mod socket;
pub mod vmexit;
