//! A KVM VM with one vCPU: construction, guest memory, first registers, and
//! teardown.
//!
//! The kernel is reached by the caller alone. Each function here takes what
//! the kernel answered and says what has to be asked of it next; descriptors
//! and host addresses are plain numbers.

use vstd::prelude::*;

use crate::kvm::abi::{KvmRegs, KvmSregs, KvmUserspaceMemoryRegion};
use crate::kvm::abi::{
    KVM_CREATE_VCPU, KVM_CREATE_VM, KVM_GET_API_VERSION, KVM_GET_VCPU_MMAP_SIZE,
};
#[allow(unused_imports)]
use crate::kvm::abi::is_entry_regs;
use crate::kvm::error::{Cause, KvmError};
use crate::kvm::paging::write_identity_map;
#[allow(unused_imports)]
use crate::kvm::paging::{
    holds_identity_map, huge_pages, is_linear, is_mappable, law_walk_is_identity, same_outside,
    tables_size, walk, Translation, MAX_MAPPED, PAGE_2M,
};

use crate::kvm::x86::flat_x86_64_sregs;
#[allow(unused_imports)]
use crate::kvm::x86::is_flat_sregs;

verus! {

/// The minimum `KVM_GET_API_VERSION` the engine assumes.
pub const MIN_API: i32 = 12;

/// The capability behind `KVM_SET_USER_MEMORY_REGION`.
pub const KVM_CAP_USER_MEMORY: i32 = 3;

/// Memory slots are page-aligned in both address and length.
pub const PAGE: usize = 4096;

/// A constructed KVM VM and vCPU with its `kvm_run` area mapped.
///
/// This owns the three kernel descriptors, the run area and the guest memory.
pub struct Vcpu {
    /// Host address and length of the `kvm_run` area.
    pub run: usize,
    pub run_len: usize,
    pub vcpu: i32,
    pub vm: i32,
    pub kvm: i32,
    /// Host address of the buffer behind the memory slot, 0 if there is none.
    pub guest_ram: usize,
    /// Length of the memory slot, in bytes.
    pub guest_ram_len: usize,
}

/// How far the construction has come. Each state owns the descriptors that it
/// names.
pub enum Construction {
    /// About to ask for the API version.
    ApiVersion { kvm: i32 },
    /// About to create the VM.
    CreateVm { kvm: i32 },
    /// About to create the vCPU.
    CreateVcpu { kvm: i32, vm: i32 },
    /// About to ask for the size of the run area.
    MmapSize { kvm: i32, vm: i32, vcpu: i32 },
    /// About to map the run area.
    MapRun { kvm: i32, vm: i32, vcpu: i32, run_len: usize },
}

/// What a construction asks of the kernel.
#[derive(Clone, Copy, Debug, PartialEq, Eq, Structural)]
pub enum KernelCall {
    /// An ioctl with argument 0.
    Ioctl { fd: i32, request: u64 },
    /// A shared, readable and writable mapping of the descriptor's start.
    MapShared { fd: i32, len: usize },
}

/// What the kernel answered.
#[derive(Clone, Copy, Debug, PartialEq, Eq, Structural)]
pub enum KernelReply {
    /// The result of an ioctl; negative on failure.
    Code(i32),
    /// The address of a mapping.
    Mapped(usize),
    /// The mapping failed.
    MapFailed,
}

/// What follows from the kernel's answer.
pub enum Progress {
    Next(Construction),
    /// Close these descriptors, in this order, and give up.
    Failed(Vec<i32>, Cause),
    Done(Vcpu),
}

impl Construction {
    /// The descriptors owned, in the order in which they were obtained.
    pub open spec fn held(self) -> Seq<i32> {
        match self {
            Construction::ApiVersion { kvm } => seq![kvm],
            Construction::CreateVm { kvm } => seq![kvm],
            Construction::CreateVcpu { kvm, vm } => seq![kvm, vm],
            Construction::MmapSize { kvm, vm, vcpu } => seq![kvm, vm, vcpu],
            Construction::MapRun { kvm, vm, vcpu, .. } => seq![kvm, vm, vcpu],
        }
    }

    /// How many answers of the kernel lie between the state and its end.
    pub open spec fn calls_left(self) -> nat {
        match self {
            Construction::ApiVersion { .. } => 5,
            Construction::CreateVm { .. } => 4,
            Construction::CreateVcpu { .. } => 3,
            Construction::MmapSize { .. } => 2,
            Construction::MapRun { .. } => 1,
        }
    }

    /// The call that the state is waiting for.
    pub open spec fn pending(self) -> KernelCall {
        match self {
            Construction::ApiVersion { kvm } => KernelCall::Ioctl {
                fd: kvm,
                request: KVM_GET_API_VERSION,
            },
            Construction::CreateVm { kvm } => KernelCall::Ioctl {
                fd: kvm,
                request: KVM_CREATE_VM,
            },
            Construction::CreateVcpu { vm, .. } => KernelCall::Ioctl {
                fd: vm,
                request: KVM_CREATE_VCPU,
            },
            Construction::MmapSize { kvm, .. } => KernelCall::Ioctl {
                fd: kvm,
                request: KVM_GET_VCPU_MMAP_SIZE,
            },
            Construction::MapRun { vcpu, run_len, .. } => KernelCall::MapShared {
                fd: vcpu,
                len: run_len,
            },
        }
    }

    /// The name of that call in an error.
    pub open spec fn operation(self) -> &'static str {
        match self {
            Construction::ApiVersion { .. } => "KVM_GET_API_VERSION",
            Construction::CreateVm { .. } => "KVM_CREATE_VM",
            Construction::CreateVcpu { .. } => "KVM_CREATE_VCPU",
            Construction::MmapSize { .. } => "KVM_GET_VCPU_MMAP_SIZE",
            Construction::MapRun { .. } => "mmap(kvm_run)",
        }
    }

    /// The state fails on `reply`, and why. A reply to another kind of call
    /// than the pending one counts as a failure of that call.
    pub open spec fn failure(self, reply: KernelReply) -> Option<Cause> {
        match reply {
            KernelReply::Code(rc) if !(self is MapRun) && rc >= 0 => if self is ApiVersion && rc
                < MIN_API {
                Some(Cause::ApiTooOld(rc))
            } else {
                None
            },
            KernelReply::Mapped(_) if self is MapRun => None,
            _ => Some(Cause::Call(self.operation())),
        }
    }

    /// What a `reply` that the state does not fail on leads to.
    pub open spec fn success(self, reply: KernelReply, progress: Progress) -> bool {
        match (self, reply) {
            (Construction::ApiVersion { kvm }, _) => progress == Progress::Next(
                Construction::CreateVm { kvm },
            ),
            (Construction::CreateVm { kvm }, KernelReply::Code(vm)) => progress == Progress::Next(
                Construction::CreateVcpu { kvm, vm },
            ),
            (Construction::CreateVcpu { kvm, vm }, KernelReply::Code(vcpu)) => progress
                == Progress::Next(Construction::MmapSize { kvm, vm, vcpu }),
            (Construction::MmapSize { kvm, vm, vcpu }, KernelReply::Code(len)) => progress
                == Progress::Next(Construction::MapRun { kvm, vm, vcpu, run_len: len as usize }),
            (Construction::MapRun { kvm, vm, vcpu, run_len }, KernelReply::Mapped(run)) => progress
                == Progress::Done(
                Vcpu { run, run_len, vcpu, vm, kvm, guest_ram: 0, guest_ram_len: 0 },
            ),
            _ => false,
        }
    }

    /// `progress` is what follows from `reply`: a failure gives back every
    /// descriptor owned, the latest first.
    pub open spec fn leads_to(self, reply: KernelReply, progress: Progress) -> bool {
        match self.failure(reply) {
            Some(cause) => progress matches Progress::Failed(close, c) && c == cause && close@
                == self.held().reverse(),
            None => self.success(reply, progress),
        }
    }

    /// Starts from the answer to opening `/dev/kvm`.
    pub fn open(reply: Result<i32, std::io::Error>) -> (r: Result<Construction, KvmError>)
        ensures
            r == match reply {
                Ok(kvm) => Ok::<Construction, KvmError>(Construction::ApiVersion { kvm }),
                Err(e) => Err(KvmError::Open(e)),
            },
    {
        match reply {
            Ok(kvm) => Ok(Construction::ApiVersion { kvm }),
            Err(e) => Err(KvmError::Open(e)),
        }
    }

    /// The next call to the kernel.
    pub fn call(&self) -> (c: KernelCall)
        ensures
            c == self.pending(),
    {
        match self {
            Construction::ApiVersion { kvm } => KernelCall::Ioctl {
                fd: *kvm,
                request: KVM_GET_API_VERSION,
            },
            Construction::CreateVm { kvm } => KernelCall::Ioctl {
                fd: *kvm,
                request: KVM_CREATE_VM,
            },
            Construction::CreateVcpu { vm, .. } => KernelCall::Ioctl {
                fd: *vm,
                request: KVM_CREATE_VCPU,
            },
            // The size of the run area is asked of the KVM device, not of the
            // vCPU.
            Construction::MmapSize { kvm, .. } => KernelCall::Ioctl {
                fd: *kvm,
                request: KVM_GET_VCPU_MMAP_SIZE,
            },
            Construction::MapRun { vcpu, run_len, .. } => KernelCall::MapShared {
                fd: *vcpu,
                len: *run_len,
            },
        }
    }

    fn name(&self) -> (op: &'static str)
        ensures
            op == self.operation(),
    {
        match self {
            Construction::ApiVersion { .. } => "KVM_GET_API_VERSION",
            Construction::CreateVm { .. } => "KVM_CREATE_VM",
            Construction::CreateVcpu { .. } => "KVM_CREATE_VCPU",
            Construction::MmapSize { .. } => "KVM_GET_VCPU_MMAP_SIZE",
            Construction::MapRun { .. } => "mmap(kvm_run)",
        }
    }

    /// Gives up: all descriptors owned are to be closed, the latest first.
    fn fail(&self, cause: Cause) -> (p: Progress)
        ensures
            p matches Progress::Failed(close, c) && c == cause && close@ == self.held().reverse(),
    {
        let close: Vec<i32> = match self {
            Construction::ApiVersion { kvm } => vec![*kvm],
            Construction::CreateVm { kvm } => vec![*kvm],
            Construction::CreateVcpu { kvm, vm } => vec![*vm, *kvm],
            Construction::MmapSize { kvm, vm, vcpu } => vec![*vcpu, *vm, *kvm],
            Construction::MapRun { kvm, vm, vcpu, .. } => vec![*vcpu, *vm, *kvm],
        };
        assert(close@ =~= self.held().reverse());
        Progress::Failed(close, cause)
    }

    /// Takes the kernel's answer to [`Construction::call`].
    pub fn step(self, reply: KernelReply) -> (p: Progress)
        ensures
            self.leads_to(reply, p),
    {
        match (self, reply) {
            (Construction::ApiVersion { kvm }, KernelReply::Code(version)) if version >= 0 => {
                if version < MIN_API {
                    Construction::ApiVersion { kvm }.fail(Cause::ApiTooOld(version))
                } else {
                    Progress::Next(Construction::CreateVm { kvm })
                }
            },
            (Construction::CreateVm { kvm }, KernelReply::Code(vm)) if vm >= 0 => Progress::Next(
                Construction::CreateVcpu { kvm, vm },
            ),
            (Construction::CreateVcpu { kvm, vm }, KernelReply::Code(vcpu)) if vcpu >= 0 => {
                Progress::Next(Construction::MmapSize { kvm, vm, vcpu })
            },
            (Construction::MmapSize { kvm, vm, vcpu }, KernelReply::Code(len)) if len >= 0 => {
                Progress::Next(Construction::MapRun { kvm, vm, vcpu, run_len: len as usize })
            },
            (Construction::MapRun { kvm, vm, vcpu, run_len }, KernelReply::Mapped(run)) => {
                Progress::Done(
                    Vcpu { run, run_len, vcpu, vm, kvm, guest_ram: 0, guest_ram_len: 0 },
                )
            },
            (state, _) => state.fail(Cause::Call(state.name())),
        }
    }
}

/// What installing guest memory asks for, once the buffer is mapped.
pub struct MemoryPlan {
    /// The previous buffer, address and length, to be unmapped first.
    pub unmap: Option<(usize, usize)>,
    /// The slot to be handed to `KVM_SET_USER_MEMORY_REGION`.
    pub region: KvmUserspaceMemoryRegion,
}

/// A memory slot that the kernel refused.
pub struct MemoryRefused {
    /// The buffer, address and length, to be unmapped.
    pub unmap: (usize, usize),
    pub cause: Cause,
}

/// The registers a flat long-mode guest starts with.
pub struct X86Setup {
    /// To be set by `KVM_SET_SREGS` first.
    pub sregs: KvmSregs,
    /// To be set by `KVM_SET_REGS` then.
    pub regs: KvmRegs,
}

/// One step of the teardown.
#[derive(Clone, Copy, Debug, PartialEq, Eq, Structural)]
pub enum Release {
    Unmap { addr: usize, len: usize },
    Close(i32),
}

/// The least multiple of the page size that holds `size` bytes.
pub open spec fn page_span(size: int) -> int {
    (size + PAGE - 1) / (PAGE as int) * PAGE
}

/// A buffer for `size` bytes of guest memory has a length at all.
pub open spec fn has_span(size: usize) -> bool {
    size + PAGE - 1 <= usize::MAX
}

/// The memory slot for `size` bytes of guest memory at `guest_base`, with their
/// buffer at the host address `addr`.
pub open spec fn memory_region(
    guest_base: u64,
    size: usize,
    addr: usize,
) -> KvmUserspaceMemoryRegion {
    KvmUserspaceMemoryRegion {
        slot: 0,
        flags: 0,
        guest_phys_addr: guest_base,
        memory_size: page_span(size as int) as u64,
        userspace_addr: addr as u64,
    }
}

/// What the answer to mapping a buffer for `size` bytes of guest memory leads
/// to: a failure changes nothing, a buffer replaces the one before it. No
/// buffer can be mapped for a size that has no span.
pub open spec fn memory_taken(
    before: Vcpu,
    guest_base: u64,
    size: usize,
    mapping: Option<usize>,
    after: Vcpu,
    r: Result<MemoryPlan, Cause>,
) -> bool {
    match mapping {
        Some(addr) if has_span(size) => {
            let len = page_span(size as int) as usize;
            &&& after == (Vcpu { guest_ram: addr, guest_ram_len: len, ..before })
            &&& r matches Ok(plan)
            &&& plan.unmap == before.ram()
            &&& plan.region == memory_region(guest_base, size, addr)
        },
        _ => {
            &&& r == Err::<MemoryPlan, Cause>(Cause::Call("mmap(guest_ram)"))
            &&& after == before
        },
    }
}

/// What the kernel's answer to the memory slot leads to: a refused buffer is
/// given up.
pub open spec fn memory_settled(
    before: Vcpu,
    rc: i32,
    after: Vcpu,
    r: Result<(), MemoryRefused>,
) -> bool {
    if rc < 0 {
        &&& after == (Vcpu { guest_ram: 0, guest_ram_len: 0, ..before })
        &&& r matches Err(refused)
        &&& refused.unmap == (before.guest_ram, before.guest_ram_len)
        &&& refused.cause == Cause::Call("KVM_SET_USER_MEMORY_REGION")
    } else {
        &&& after == before
        &&& r is Ok
    }
}

impl Vcpu {
    /// Guest memory comes in whole pages, and has a length exactly if it is
    /// there.
    pub open spec fn wf(self) -> bool {
        &&& self.guest_ram_len % PAGE == 0
        &&& self.guest_ram == 0 <==> self.guest_ram_len == 0
    }

    /// The buffer behind the memory slot, if there is one.
    pub open spec fn ram(self) -> Option<(usize, usize)> {
        if self.guest_ram == 0 {
            None
        } else {
            Some((self.guest_ram, self.guest_ram_len))
        }
    }

    /// Everything owned, in the order in which it is given back.
    pub open spec fn releases(self) -> Seq<Release> {
        let rest = seq![
            Release::Unmap { addr: self.run, len: self.run_len },
            Release::Close(self.vcpu),
            Release::Close(self.vm),
            Release::Close(self.kvm),
        ];
        match self.ram() {
            Some((addr, len)) => seq![Release::Unmap { addr, len }] + rest,
            None => rest,
        }
    }

    /// The VM descriptor.
    pub fn vm_fd(&self) -> (fd: i32)
        ensures
            fd == self.vm,
    {
        self.vm
    }

    /// The vCPU descriptor, for `KVM_RUN` and register access.
    pub fn vcpu_fd(&self) -> (fd: i32)
        ensures
            fd == self.vcpu,
    {
        self.vcpu
    }

    /// The host address of the `kvm_run` area.
    pub fn kvm_run(&self) -> (addr: usize)
        ensures
            addr == self.run,
    {
        self.run
    }

    /// The host address and length of the installed guest memory; the address
    /// is 0 if there is none.
    pub fn guest_ram(&self) -> (ram: (usize, usize))
        ensures
            ram == (self.guest_ram, self.guest_ram_len),
    {
        (self.guest_ram, self.guest_ram_len)
    }

    /// Whether the host exposes a capability, from what `KVM_CHECK_EXTENSION`
    /// answered.
    pub fn has_cap(reply: i32) -> (yes: bool)
        ensures
            yes == (reply > 0),
    {
        reply > 0
    }

    /// How long a buffer must be mapped for `size` bytes of guest memory.
    pub fn memory_span(size: usize) -> (len: usize)
        requires
            has_span(size),
        ensures
            len == page_span(size as int),
            len % PAGE == 0,
            size <= len < size + PAGE,
    {
        ((size + (PAGE - 1)) / PAGE) * PAGE
    }

    /// Takes the buffer mapped for `size` bytes of guest memory at
    /// `guest_base`, of [`Vcpu::memory_span`] bytes, or learns that the mapping
    /// failed (`None`). It replaces the previous buffer. A size so large that
    /// its span does not fit a `usize` counts as a failed mapping.
    pub fn install_memory(
        &mut self,
        guest_base: u64,
        size: usize,
        mapping: Option<usize>,
    ) -> (r: Result<MemoryPlan, Cause>)
        ensures
            old(self).wf() && (mapping is Some ==> size > 0 && mapping->0 != 0)
                ==> final(self).wf(),
            memory_taken(*old(self), guest_base, size, mapping, *final(self), r),
    {
        let addr: usize = match mapping {
            Some(addr) => addr,
            None => {
                return Err(Cause::Call("mmap(guest_ram)"));
            },
        };
        if size > usize::MAX - (PAGE - 1) {
            return Err(Cause::Call("mmap(guest_ram)"));
        }
        let unmap: Option<(usize, usize)> = if self.guest_ram == 0 {
            None
        } else {
            Some((self.guest_ram, self.guest_ram_len))
        };
        let len: usize = Self::memory_span(size);
        self.guest_ram = addr;
        self.guest_ram_len = len;
        let region = KvmUserspaceMemoryRegion {
            slot: 0,
            flags: 0,
            guest_phys_addr: guest_base,
            memory_size: len as u64,
            userspace_addr: addr as u64,
        };
        Ok(MemoryPlan { unmap, region })
    }

    /// Takes the kernel's answer to the memory slot of
    /// [`Vcpu::install_memory`]. A refused buffer is given up.
    pub fn memory_installed(&mut self, rc: i32) -> (r: Result<(), MemoryRefused>)
        ensures
            old(self).wf() ==> final(self).wf(),
            memory_settled(*old(self), rc, *final(self), r),
    {
        if rc < 0 {
            let unmap: (usize, usize) = (self.guest_ram, self.guest_ram_len);
            self.guest_ram = 0;
            self.guest_ram_len = 0;
            return Err(
                MemoryRefused { unmap, cause: Cause::Call("KVM_SET_USER_MEMORY_REGION") },
            );
        }
        Ok(())
    }

    /// Prepares a flat long-mode guest in its memory `ram`, which lies at
    /// `ram_guest_base`: the identity page table goes into the last pages of the
    /// memory, where it never collides with firmware at low guest addresses, and
    /// the registers select it, flat 64-bit code and data, and `entry_rip`. The
    /// table takes three pages, and one or two more where the memory crosses a
    /// boundary between tables.
    pub fn setup_x86_64(
        &self,
        ram: &mut [u8],
        ram_guest_base: u64,
        entry_rip: u64,
    ) -> (r: Result<X86Setup, Cause>)
        requires
            self.guest_ram != 0 ==> {
                &&& old(ram)@.len() == self.guest_ram_len
                &&& ram_guest_base + old(ram)@.len() <= 0x1_0000_0000_0000_0000
                &&& old(ram)@.len() >= tables_size(
                    ram_guest_base as nat,
                    huge_pages(ram_guest_base as nat, old(ram)@.len()),
                )
            },
        ensures
            self.guest_ram == 0 ==> {
                &&& r == Err::<X86Setup, Cause>(Cause::Call("setup_x86_64: no guest ram"))
                &&& final(ram)@ == old(ram)@
            },
            self.guest_ram != 0 ==> {
                &&& holds_identity_map(
                    final(ram)@,
                    ram_guest_base as nat,
                    huge_pages(ram_guest_base as nat, old(ram)@.len()),
                )
                &&& same_outside(
                    old(ram)@,
                    final(ram)@,
                    old(ram)@.len() - tables_size(
                        ram_guest_base as nat,
                        huge_pages(ram_guest_base as nat, old(ram)@.len()),
                    ),
                    old(ram)@.len() as int,
                )
                &&& r matches Ok(setup) && is_flat_sregs(
                    setup.sregs,
                    (ram_guest_base + old(ram)@.len() - 0x3000) as u64,
                ) && is_entry_regs(setup.regs, entry_rip)
            },
    {
        if self.guest_ram == 0 {
            return Err(Cause::Call("setup_x86_64: no guest ram"));
        }
        write_identity_map(ram, ram_guest_base);
        let top: u64 = (ram.len() - 0x3000) as u64;
        let sregs: KvmSregs = flat_x86_64_sregs(ram_guest_base + top);
        let regs: KvmRegs = KvmRegs::at_entry(entry_rip);
        Ok(X86Setup { sregs, regs })
    }

    /// Everything to be given back when the vCPU goes away, in order.
    pub fn release(&self) -> (steps: Vec<Release>)
        ensures
            steps@ == self.releases(),
    {
        let mut steps: Vec<Release> = Vec::new();
        if self.guest_ram != 0 {
            steps.push(Release::Unmap { addr: self.guest_ram, len: self.guest_ram_len });
        }
        steps.push(Release::Unmap { addr: self.run, len: self.run_len });
        steps.push(Release::Close(self.vcpu));
        steps.push(Release::Close(self.vm));
        steps.push(Release::Close(self.kvm));
        assert(steps@ =~= self.releases());
        steps
    }
}

/// Whether the ioctl `op` succeeded.
pub fn check_ioctl(op: &'static str, rc: i32) -> (r: Result<(), Cause>)
    ensures
        r == if rc < 0 {
            Err::<(), Cause>(Cause::Call(op))
        } else {
            Ok(())
        },
{
    if rc < 0 {
        Err(Cause::Call(op))
    } else {
        Ok(())
    }
}

/// A construction never loses a descriptor: one that goes on owns those it
/// owned and at most the one just obtained, one that fails gives back each it
/// owned exactly once, and one that is done has handed them to the vCPU.
pub proof fn law_construction_keeps_descriptors(
    state: Construction,
    reply: KernelReply,
    progress: Progress,
)
    requires
        state.leads_to(reply, progress),
    ensures
        match progress {
            Progress::Next(next) => {
                ||| next.held() == state.held()
                ||| reply matches KernelReply::Code(fd) && next.held() == state.held().push(fd)
            },
            Progress::Failed(close, _) => close@.to_multiset() == state.held().to_multiset(),
            Progress::Done(v) => seq![v.kvm, v.vm, v.vcpu] == state.held(),
        },
{
    match progress {
        Progress::Next(next) => {
            match (state, reply) {
                (Construction::CreateVm { .. }, KernelReply::Code(fd)) => {
                    assert(next.held() =~= state.held().push(fd));
                },
                (Construction::CreateVcpu { .. }, KernelReply::Code(fd)) => {
                    assert(next.held() =~= state.held().push(fd));
                },
                _ => {
                    assert(next.held() =~= state.held());
                },
            }
        },
        Progress::Failed(close, _) => {
            let held = state.held();
            broadcast use vstd::seq_lib::group_to_multiset_ensures;

            if held.len() == 1 {
                assert(close@ =~= held);
            } else if held.len() == 2 {
                assert(close@ =~= Seq::empty().push(held[1]).push(held[0]));
                assert(held =~= Seq::empty().push(held[0]).push(held[1]));
                assert(close@.to_multiset() =~= held.to_multiset());
            } else {
                assert(close@ =~= Seq::empty().push(held[2]).push(held[1]).push(held[0]));
                assert(held =~= Seq::empty().push(held[0]).push(held[1]).push(held[2]));
                assert(close@.to_multiset() =~= held.to_multiset());
            }
        },
        Progress::Done(v) => {
            assert(seq![v.kvm, v.vm, v.vcpu] =~= state.held());
        },
    }
}

/// A construction that goes on asks for something new each time: it takes
/// five answers at most.
pub proof fn law_construction_ends(state: Construction, reply: KernelReply, next: Construction)
    requires
        state.leads_to(reply, Progress::Next(next)),
    ensures
        0 < next.calls_left() < state.calls_left() <= 5,
{
}

/// The teardown of a fresh vCPU closes exactly the descriptors that its
/// construction obtained, after unmapping the run area.
pub proof fn law_release_undoes_construction(
    state: Construction,
    run: usize,
    progress: Progress,
)
    requires
        state.leads_to(KernelReply::Mapped(run), progress),
        progress is Done,
    ensures
        progress->Done_0.wf(),
        progress->Done_0.releases() == seq![
            Release::Unmap { addr: run, len: state->MapRun_run_len },
            Release::Close(state.held()[2]),
            Release::Close(state.held()[1]),
            Release::Close(state.held()[0]),
        ],
{
}

/// Guest memory always has exactly one owner: taking a buffer hands the one
/// before it back for unmapping, a buffer that the kernel refuses is handed back
/// as well, and one that it accepts is what the teardown unmaps.
pub proof fn law_memory_has_one_owner(
    v0: Vcpu,
    guest_base: u64,
    size: usize,
    addr: usize,
    v1: Vcpu,
    r1: Result<MemoryPlan, Cause>,
    rc: i32,
    v2: Vcpu,
    r2: Result<(), MemoryRefused>,
)
    requires
        addr != 0,
        has_span(size),
        memory_taken(v0, guest_base, size, Some(addr), v1, r1),
        memory_settled(v1, rc, v2, r2),
    ensures
        r1 matches Ok(plan) && plan.unmap == v0.ram(),
        rc < 0 ==> v2.ram() is None && (r2 matches Err(refused) && Some(refused.unmap) == v1.ram()),
        rc >= 0 ==> r2 is Ok && v2.ram() == v1.ram(),
        v1.releases() == seq![
            Release::Unmap { addr, len: page_span(size as int) as usize },
        ] + (Vcpu { guest_ram: 0, ..v0 }).releases(),
{
    assert(v1.releases() =~= seq![
        Release::Unmap { addr, len: page_span(size as int) as usize },
    ] + (Vcpu { guest_ram: 0, ..v0 }).releases());
}

/// What can happen to the guest memory of a vCPU.
pub enum MemoryEvent {
    /// [`Vcpu::install_memory`] is told of a mapping for `size` bytes.
    Taken { guest_base: u64, size: usize, mapping: Option<usize> },
    /// [`Vcpu::memory_installed`] is told of the kernel's answer.
    Settled { rc: i32 },
}

/// `event` turns `before` into `after`.
pub open spec fn memory_step(before: Vcpu, event: MemoryEvent, after: Vcpu) -> bool {
    match event {
        MemoryEvent::Taken { guest_base, size, mapping } => {
            &&& mapping matches Some(addr) ==> size > 0 && addr != 0
            &&& exists|r: Result<MemoryPlan, Cause>| #[trigger]
                memory_taken(before, guest_base, size, mapping, after, r)
        },
        MemoryEvent::Settled { rc } => exists|r: Result<(), MemoryRefused>| #[trigger]
            memory_settled(before, rc, after, r),
    }
}

/// The buffer that was installed last and not refused, when `start` was there
/// to begin with.
pub open spec fn last_installed(
    start: Option<(usize, usize)>,
    events: Seq<MemoryEvent>,
) -> Option<(usize, usize)>
    decreases events.len(),
{
    if events.len() == 0 {
        start
    } else {
        match events.last() {
            MemoryEvent::Taken { size, mapping: Some(addr), .. } if has_span(size) => Some(
                (addr, page_span(size as int) as usize),
            ),
            MemoryEvent::Settled { rc } if rc < 0 => None,
            _ => last_installed(start, events.drop_last()),
        }
    }
}

/// Over the whole life of a vCPU its guest memory is the buffer that was
/// installed last and not refused, in whole pages, and nothing else of the vCPU
/// changes with it.
pub proof fn law_memory_is_the_last_installed(states: Seq<Vcpu>, events: Seq<MemoryEvent>)
    requires
        states.len() == events.len() + 1,
        states[0].wf(),
        forall|i: int|
            0 <= i < events.len() ==> memory_step(
                states[i],
                #[trigger] events[i],
                states[i + 1],
            ),
    ensures
        states.last().wf(),
        states.last().ram() == last_installed(states[0].ram(), events),
        states.last() == (Vcpu {
            guest_ram: states.last().guest_ram,
            guest_ram_len: states.last().guest_ram_len,
            ..states[0]
        }),
    decreases events.len(),
{
    if events.len() > 0 {
        let n = events.len() - 1;
        let earlier = states.drop_last();
        assert forall|i: int| 0 <= i < events.drop_last().len() implies memory_step(
            earlier[i],
            #[trigger] events.drop_last()[i],
            earlier[i + 1],
        ) by {
            assert(events.drop_last()[i] == events[i]);
        }
        law_memory_is_the_last_installed(earlier, events.drop_last());
        assert(memory_step(states[n], events[n], states[n + 1]));
    }
}

/// Setting a guest up spares its firmware: whatever was put into the memory
/// below the page table is still there, and of memory that crosses no boundary
/// between tables that is all but the last three pages.
pub proof fn law_setup_spares_firmware(
    before: Seq<u8>,
    after: Seq<u8>,
    base: nat,
    firmware: nat,
)
    requires
        same_outside(
            before,
            after,
            before.len() - tables_size(base, huge_pages(base, before.len())),
            before.len() as int,
        ),
        firmware <= before.len() - tables_size(base, huge_pages(base, before.len())),
    ensures
        after.take(firmware as int) == before.take(firmware as int),
        tables_size(base, huge_pages(base, before.len())) <= 0x5000,
        before.len() > 0 && base as int / 0x4000_0000 == (base + before.len() - 1) / 0x4000_0000
            ==> tables_size(base, huge_pages(base, before.len())) == 0x3000,
{
    assert(after.take(firmware as int) =~= before.take(firmware as int));
}

/// A guest that was set up sees exactly its memory, wherever that lies: every
/// linear address in the first GiB of it translates to itself and may be
/// written, and every address, in either half, that is a huge page or more away
/// from it is unmapped.
pub proof fn law_guest_sees_its_memory(ram: Seq<u8>, base: nat, sregs: KvmSregs, va: int)
    requires
        holds_identity_map(ram, base, huge_pages(base, ram.len())),
        is_mappable(base, ram.len()),
        is_flat_sregs(sregs, (base + ram.len() - 0x3000) as u64),
        is_linear(va),
    ensures
        base <= va < base + ram.len() && va < base + MAX_MAPPED ==> walk(
            ram,
            base,
            sregs.cr3 as int,
            va,
        ) == Some(Translation { addr: va, writable: true }),
        va + PAGE_2M <= base || va >= base + ram.len() + PAGE_2M ==> walk(
            ram,
            base,
            sregs.cr3 as int,
            va,
        ) is None,
{
    law_walk_is_identity(ram, base, va);
}

} // verus!
