//! Installing guest memory and setting the first registers, one kernel call at a
//! time.
//!
//! The caller performs each call and hands back what the kernel answered, with
//! the OS error as the call left it. Which call comes next, and what is given
//! back when one fails, is decided here.

use vstd::prelude::*;

use crate::kvm::abi::{KvmRegs, KvmUserspaceMemoryRegion};
use crate::kvm::abi::{KVM_SET_REGS, KVM_SET_SREGS, KVM_SET_USER_MEMORY_REGION};
use crate::kvm::error::KvmError;
#[allow(unused_imports)]
use crate::kvm::vcpu::{has_span, memory_region, page_span};
use crate::kvm::vcpu::{check_ioctl, KernelReply, MemoryRefused, Vcpu, X86Setup, PAGE};

verus! {

/// A call to be made of the kernel.
pub enum HostCall {
    /// Map this many bytes of private memory, readable and writable.
    MapPrivate { len: usize },
    Unmap { addr: usize, len: usize },
    /// An ioctl whose argument is a structure with this image.
    IoctlWith { fd: i32, request: u64, arg: Vec<u8> },
}

/// What a call asks of the kernel.
pub enum Asked {
    MapPrivate { len: usize },
    Unmap { addr: usize, len: usize },
    IoctlWith { fd: i32, request: u64, arg: Seq<u8> },
}

impl View for HostCall {
    type V = Asked;

    open spec fn view(&self) -> Asked {
        match *self {
            HostCall::MapPrivate { len } => Asked::MapPrivate { len },
            HostCall::Unmap { addr, len } => Asked::Unmap { addr, len },
            HostCall::IoctlWith { fd, request, arg } => Asked::IoctlWith { fd, request, arg: arg@ },
        }
    }
}

/// An ioctl that succeeded.
pub open spec fn is_success(reply: KernelReply) -> bool {
    reply matches KernelReply::Code(rc) && rc >= 0
}

/// The result of an ioctl; an answer to another kind of call counts as a
/// failure.
fn code_of(reply: KernelReply) -> (rc: i32)
    ensures
        rc >= 0 <==> is_success(reply),
{
    match reply {
        KernelReply::Code(rc) => rc,
        _ => -1,
    }
}

/// How far installing guest memory has come.
pub enum Installation {
    /// About to map the buffer.
    MapBuffer { guest_base: u64, size: usize },
    /// About to unmap the buffer before it.
    UnmapPrevious { addr: usize, len: usize, region: KvmUserspaceMemoryRegion },
    /// About to set the memory slot.
    SetSlot { region: KvmUserspaceMemoryRegion },
    /// About to unmap the buffer that the kernel refused.
    GiveUp { addr: usize, len: usize, error: KvmError },
}

/// What follows from the kernel's answer.
pub enum InstallStep {
    Next(Installation),
    Failed(KvmError),
    Done,
}

/// How long a buffer is asked for: the span of `size` or, where there is none,
/// a length that no kernel grants.
pub open spec fn buffer_len(size: usize) -> int {
    if has_span(size) {
        page_span(size as int)
    } else {
        usize::MAX as int
    }
}

impl Installation {
    /// The call that the state is waiting for.
    pub open spec fn pending(self, v: Vcpu) -> Asked {
        match self {
            Installation::MapBuffer { size, .. } => Asked::MapPrivate { len: buffer_len(size) as usize },
            Installation::UnmapPrevious { addr, len, .. } => Asked::Unmap { addr, len },
            Installation::SetSlot { region } => Asked::IoctlWith {
                fd: v.vm,
                request: KVM_SET_USER_MEMORY_REGION,
                arg: region.bytes(),
            },
            Installation::GiveUp { addr, len, .. } => Asked::Unmap { addr, len },
        }
    }

    /// How many answers of the kernel lie between the state and its end, at
    /// most.
    pub open spec fn calls_left(self) -> nat {
        match self {
            Installation::MapBuffer { .. } => 4,
            Installation::UnmapPrevious { .. } => 3,
            Installation::SetSlot { .. } => 2,
            Installation::GiveUp { .. } => 1,
        }
    }

    /// What follows from `reply`, with `os` the OS error as the call left it.
    pub open spec fn leads_to(
        self,
        before: Vcpu,
        reply: KernelReply,
        os: std::io::Error,
        after: Vcpu,
        step: InstallStep,
    ) -> bool {
        match self {
            Installation::MapBuffer { guest_base, size } => match reply {
                KernelReply::Mapped(addr) if has_span(size) => {
                    let len = page_span(size as int) as usize;
                    let region = memory_region(guest_base, size, addr);
                    &&& after == (Vcpu { guest_ram: addr, guest_ram_len: len, ..before })
                    &&& step == InstallStep::Next(
                        match before.ram() {
                            Some((addr, len)) => Installation::UnmapPrevious { addr, len, region },
                            None => Installation::SetSlot { region },
                        },
                    )
                },
                _ => {
                    &&& after == before
                    &&& step == InstallStep::Failed(KvmError::Ioctl("mmap(guest_ram)", os))
                },
            },
            Installation::UnmapPrevious { region, .. } => {
                &&& after == before
                &&& step == InstallStep::Next(Installation::SetSlot { region })
            },
            Installation::SetSlot { .. } => if is_success(reply) {
                &&& after == before
                &&& step == InstallStep::Done
            } else {
                &&& after == (Vcpu { guest_ram: 0, guest_ram_len: 0, ..before })
                &&& step == InstallStep::Next(
                    Installation::GiveUp {
                        addr: before.guest_ram,
                        len: before.guest_ram_len,
                        error: KvmError::Ioctl("KVM_SET_USER_MEMORY_REGION", os),
                    },
                )
            },
            Installation::GiveUp { error, .. } => {
                &&& after == before
                &&& step == InstallStep::Failed(error)
            },
        }
    }

    /// The next call to the kernel.
    pub fn call(&self, v: &Vcpu) -> (c: HostCall)
        ensures
            c@ == self.pending(*v),
    {
        match self {
            Installation::MapBuffer { size, .. } => {
                let len: usize = if *size <= usize::MAX - (PAGE - 1) {
                    Vcpu::memory_span(*size)
                } else {
                    usize::MAX
                };
                HostCall::MapPrivate { len }
            },
            Installation::UnmapPrevious { addr, len, .. } => HostCall::Unmap {
                addr: *addr,
                len: *len,
            },
            Installation::SetSlot { region } => HostCall::IoctlWith {
                fd: v.vm_fd(),
                request: KVM_SET_USER_MEMORY_REGION,
                arg: region.to_bytes(),
            },
            Installation::GiveUp { addr, len, .. } => HostCall::Unmap { addr: *addr, len: *len },
        }
    }

    /// Takes the kernel's answer to [`Installation::call`].
    pub fn step(self, v: &mut Vcpu, reply: KernelReply, os: std::io::Error) -> (s: InstallStep)
        ensures
            self.leads_to(*old(v), reply, os, *final(v), s),
    {
        match self {
            Installation::MapBuffer { guest_base, size } => {
                let mapping: Option<usize> = match reply {
                    KernelReply::Mapped(addr) => Some(addr),
                    _ => None,
                };
                match v.install_memory(guest_base, size, mapping) {
                    Err(cause) => InstallStep::Failed(cause.into_error(os)),
                    Ok(plan) => {
                        let region: KvmUserspaceMemoryRegion = plan.region;
                        match plan.unmap {
                            Some((addr, len)) => InstallStep::Next(
                                Installation::UnmapPrevious { addr, len, region },
                            ),
                            None => InstallStep::Next(Installation::SetSlot { region }),
                        }
                    },
                }
            },
            Installation::UnmapPrevious { region, .. } => InstallStep::Next(
                Installation::SetSlot { region },
            ),
            Installation::SetSlot { .. } => match v.memory_installed(code_of(reply)) {
                Ok(()) => InstallStep::Done,
                Err(refused) => {
                    let MemoryRefused { unmap, cause } = refused;
                    let (addr, len) = unmap;
                    InstallStep::Next(
                        Installation::GiveUp { addr, len, error: cause.into_error(os) },
                    )
                },
            },
            Installation::GiveUp { error, .. } => InstallStep::Failed(error),
        }
    }
}

/// One turn of an installation.
pub struct InstallTurn {
    pub state: Installation,
    pub before: Vcpu,
    pub reply: KernelReply,
    pub os: std::io::Error,
    pub after: Vcpu,
    pub step: InstallStep,
}

/// The turns of installing `size` bytes of memory at `guest_base` into `v`.
pub open spec fn is_installation(
    v: Vcpu,
    guest_base: u64,
    size: usize,
    turns: Seq<InstallTurn>,
) -> bool {
    &&& turns.len() > 0
    &&& turns[0].state == Installation::MapBuffer { guest_base, size }
    &&& turns[0].before == v
    &&& forall|i: int|
        0 <= i < turns.len() ==> {
            let turn = #[trigger] turns[i];
            &&& turn.state.leads_to(turn.before, turn.reply, turn.os, turn.after, turn.step)
            &&& i > 0 ==> turns[i - 1].step == InstallStep::Next(turn.state)
            &&& i > 0 ==> turn.before == turns[i - 1].after
        }
}

/// The calls of an installation, in order.
pub open spec fn install_calls(turns: Seq<InstallTurn>) -> Seq<Asked> {
    Seq::new(turns.len(), |i: int| turns[i].state.pending(turns[i].before))
}

/// The calls up to setting the slot: the buffer is mapped, the one before it is
/// unmapped if there was one, and the slot is set.
pub open spec fn calls_to_slot(v: Vcpu, guest_base: u64, size: usize, addr: usize) -> Seq<Asked> {
    let map = seq![Asked::MapPrivate { len: page_span(size as int) as usize }];
    let unmap = match v.ram() {
        Some((addr, len)) => seq![Asked::Unmap { addr, len }],
        None => Seq::empty(),
    };
    let slot = seq![
        Asked::IoctlWith {
            fd: v.vm,
            request: KVM_SET_USER_MEMORY_REGION,
            arg: memory_region(guest_base, size, addr).bytes(),
        },
    ];
    map + unmap + slot
}

/// An installation that has ended made its calls in one order: a mapping that
/// failed is the only call and changes nothing; otherwise the previous buffer is
/// unmapped before the slot is set, a slot that the kernel accepts is the last
/// call, and a buffer that it refuses is unmapped after that.
pub proof fn law_installation_order(
    v: Vcpu,
    guest_base: u64,
    size: usize,
    turns: Seq<InstallTurn>,
)
    requires
        is_installation(v, guest_base, size, turns),
        !(turns.last().step is Next),
    ensures
        match turns[0].reply {
            KernelReply::Mapped(addr) if has_span(size) => {
                let len = page_span(size as int) as usize;
                match turns.last().step {
                    InstallStep::Done => {
                        &&& install_calls(turns) == calls_to_slot(v, guest_base, size, addr)
                        &&& turns.last().after == (Vcpu {
                            guest_ram: addr,
                            guest_ram_len: len,
                            ..v
                        })
                    },
                    _ => {
                        &&& install_calls(turns) == calls_to_slot(v, guest_base, size, addr).push(
                            Asked::Unmap { addr, len },
                        )
                        &&& turns.last().after == (Vcpu { guest_ram: 0, guest_ram_len: 0, ..v })
                        &&& turns.last().step matches InstallStep::Failed(KvmError::Ioctl(op, _))
                        &&& op == "KVM_SET_USER_MEMORY_REGION"
                    },
                }
            },
            _ => {
                &&& install_calls(turns) == seq![Asked::MapPrivate { len: buffer_len(size) as usize }]
                &&& turns.last().after == v
                &&& turns.last().step == InstallStep::Failed(
                    KvmError::Ioctl("mmap(guest_ram)", turns[0].os),
                )
            },
        },
{
    let t0 = turns[0];
    let calls = install_calls(turns);
    if t0.step is Next {
        let t1 = turns[1];
        let addr = t0.reply->Mapped_0;
        let prefix = calls_to_slot(v, guest_base, size, addr);
        if t1.state is UnmapPrevious {
            let t2 = turns[2];
            if t2.step is Next {
                let t3 = turns[3];
                assert(turns.len() > 4 ==> turns[4].before == t3.after);
                assert(calls =~= prefix.push(Asked::Unmap { addr, len: t3.state->GiveUp_len }));
            } else {
                assert(turns.len() > 3 ==> turns[3].before == t2.after);
                assert(calls =~= prefix);
            }
        } else if t1.step is Next {
            let t2 = turns[2];
            assert(turns.len() > 3 ==> turns[3].before == t2.after);
            assert(calls =~= prefix.push(Asked::Unmap { addr, len: t2.state->GiveUp_len }));
        } else {
            assert(turns.len() > 2 ==> turns[2].before == t1.after);
            assert(calls =~= prefix);
        }
    } else {
        assert(turns.len() > 1 ==> turns[1].before == t0.after);
        assert(calls =~= seq![Asked::MapPrivate { len: buffer_len(size) as usize }]);
    }
}

/// An installation that goes on comes closer to its end: it takes four calls at
/// most.
pub proof fn law_installation_ends(
    state: Installation,
    before: Vcpu,
    reply: KernelReply,
    os: std::io::Error,
    after: Vcpu,
    next: Installation,
)
    requires
        state.leads_to(before, reply, os, after, InstallStep::Next(next)),
    ensures
        0 < next.calls_left() < state.calls_left() <= 4,
{
}

/// How far setting a guest's first registers has come.
pub enum EntrySetup {
    /// About to set the special registers.
    SetSregs { setup: X86Setup },
    /// About to set the general registers.
    SetRegs { regs: KvmRegs },
}

/// What follows from the kernel's answer.
pub enum EntryStep {
    Next(EntrySetup),
    Failed(KvmError),
    Done,
}

impl EntrySetup {
    /// The call that the state is waiting for.
    pub open spec fn pending(self, v: Vcpu) -> Asked {
        match self {
            EntrySetup::SetSregs { setup } => Asked::IoctlWith {
                fd: v.vcpu,
                request: KVM_SET_SREGS,
                arg: setup.sregs.bytes(),
            },
            EntrySetup::SetRegs { regs } => Asked::IoctlWith {
                fd: v.vcpu,
                request: KVM_SET_REGS,
                arg: regs.bytes(),
            },
        }
    }

    /// What follows from `reply`, with `os` the OS error as the call left it:
    /// the general registers come after the special ones, and not at all where
    /// those failed.
    pub open spec fn leads_to(self, reply: KernelReply, os: std::io::Error) -> EntryStep {
        match self {
            EntrySetup::SetSregs { setup } => if is_success(reply) {
                EntryStep::Next(EntrySetup::SetRegs { regs: setup.regs })
            } else {
                EntryStep::Failed(KvmError::Ioctl("KVM_SET_SREGS", os))
            },
            EntrySetup::SetRegs { .. } => if is_success(reply) {
                EntryStep::Done
            } else {
                EntryStep::Failed(KvmError::Ioctl("KVM_SET_REGS", os))
            },
        }
    }

    /// The next call to the kernel.
    pub fn call(&self, v: &Vcpu) -> (c: HostCall)
        ensures
            c@ == self.pending(*v),
    {
        match self {
            EntrySetup::SetSregs { setup } => HostCall::IoctlWith {
                fd: v.vcpu_fd(),
                request: KVM_SET_SREGS,
                arg: setup.sregs.to_bytes(),
            },
            EntrySetup::SetRegs { regs } => HostCall::IoctlWith {
                fd: v.vcpu_fd(),
                request: KVM_SET_REGS,
                arg: regs.to_bytes(),
            },
        }
    }

    /// Takes the kernel's answer to [`EntrySetup::call`].
    pub fn step(self, reply: KernelReply, os: std::io::Error) -> (s: EntryStep)
        ensures
            s == self.leads_to(reply, os),
    {
        let rc: i32 = code_of(reply);
        match self {
            EntrySetup::SetSregs { setup } => match check_ioctl("KVM_SET_SREGS", rc) {
                Ok(()) => EntryStep::Next(EntrySetup::SetRegs { regs: setup.regs }),
                Err(cause) => EntryStep::Failed(cause.into_error(os)),
            },
            EntrySetup::SetRegs { .. } => match check_ioctl("KVM_SET_REGS", rc) {
                Ok(()) => EntryStep::Done,
                Err(cause) => EntryStep::Failed(cause.into_error(os)),
            },
        }
    }
}

/// The registers are set with two calls at most, the special ones first. The
/// second is made exactly if the first succeeded, and the setup is done exactly
/// if both did.
pub proof fn law_special_registers_come_first(
    v: Vcpu,
    setup: X86Setup,
    first: KernelReply,
    first_os: std::io::Error,
    second: KernelReply,
    second_os: std::io::Error,
)
    ensures
        (EntrySetup::SetSregs { setup }).pending(v) == (Asked::IoctlWith {
            fd: v.vcpu,
            request: KVM_SET_SREGS,
            arg: setup.sregs.bytes(),
        }),
        match (EntrySetup::SetSregs { setup }).leads_to(first, first_os) {
            EntryStep::Next(next) => {
                &&& is_success(first)
                &&& next.pending(v) == (Asked::IoctlWith {
                    fd: v.vcpu,
                    request: KVM_SET_REGS,
                    arg: setup.regs.bytes(),
                })
                &&& next.leads_to(second, second_os) is Done <==> is_success(second)
                &&& !(next.leads_to(second, second_os) is Next)
            },
            EntryStep::Failed(e) => !is_success(first) && e == KvmError::Ioctl(
                "KVM_SET_SREGS",
                first_os,
            ),
            EntryStep::Done => false,
        },
{
}

} // verus!
