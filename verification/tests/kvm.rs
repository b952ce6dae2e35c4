use std::io::Error;

use icicle_host::kvm::abi::{
    KvmRegs, KvmUserspaceMemoryRegion, KVM_CHECK_EXTENSION, KVM_CREATE_VCPU, KVM_CREATE_VM,
    KVM_GET_API_VERSION, KVM_GET_REGS, KVM_GET_VCPU_MMAP_SIZE, KVM_RUN, KVM_SET_REGS,
    KVM_SET_SREGS, KVM_SET_USER_MEMORY_REGION,
};
use icicle_host::kvm::error::{Cause, KvmError};
use icicle_host::kvm::host::{EntrySetup, EntryStep, HostCall, InstallStep, Installation};
use icicle_host::kvm::paging::{huge_page_count, tables_len, write_identity_map};
use icicle_host::kvm::run;
use icicle_host::kvm::runloop::{
    check_run_area, classify_exit, complete, run_failed, ExitNote, ExitStep, IoRequest, RunAction,
    RunEvent, RunLoop, EXIT_EXCEPTION, EXIT_HLT, EXIT_INTR, EXIT_IO, EXIT_MMIO, EXIT_SHUTDOWN,
};
use icicle_host::kvm::vcpu::{
    check_ioctl, Construction, KernelCall, KernelReply, Progress, Release, Vcpu,
    KVM_CAP_USER_MEMORY,
};
use icicle_host::kvm::x86::flat_x86_64_sregs;
use icicle_host::le::{copy_at, push_le, read_le, write_u64};
use icicle_host::vmexit::{ExceptionCode, VmExit};

/// The replies of a host on which everything works.
fn working_host(call: KernelCall) -> KernelReply {
    match call {
        KernelCall::Ioctl { fd: 3, request: KVM_GET_API_VERSION } => KernelReply::Code(12),
        KernelCall::Ioctl { fd: 3, request: KVM_CREATE_VM } => KernelReply::Code(4),
        KernelCall::Ioctl { fd: 4, request: KVM_CREATE_VCPU } => KernelReply::Code(5),
        KernelCall::Ioctl { fd: 3, request: KVM_GET_VCPU_MMAP_SIZE } => KernelReply::Code(12288),
        KernelCall::MapShared { fd: 5, len: 12288 } => KernelReply::Mapped(0x7f00_0000_0000),
        _ => panic!("unexpected call"),
    }
}

fn constructed() -> Vcpu {
    let mut state = Construction::open(Ok(3)).unwrap();
    loop {
        let reply = working_host(state.call());
        match state.step(reply) {
            Progress::Next(next) => state = next,
            Progress::Done(vcpu) => return vcpu,
            Progress::Failed(_, _) => panic!("construction failed"),
        }
    }
}

fn failed(p: Progress) -> (Vec<i32>, Cause) {
    match p {
        Progress::Failed(close, cause) => (close, cause),
        _ => panic!("did not fail"),
    }
}

fn os_error() -> Error {
    Error::from_raw_os_error(22)
}

/// A run area with the given exit reason.
fn area(reason: u32) -> Vec<u8> {
    let mut a = vec![0u8; 256];
    copy_at(&mut a, 8, &reason.to_le_bytes());
    a
}

fn port_area(direction: u8, size: u8, port: u16, offset: u64) -> Vec<u8> {
    let mut a = area(EXIT_IO);
    a[32] = direction;
    a[33] = size;
    copy_at(&mut a, 34, &port.to_le_bytes());
    write_u64(&mut a, 40, offset);
    a
}

fn mmio_area(addr: u64, data: &[u8], len: u32, is_write: u8) -> Vec<u8> {
    let mut a = area(EXIT_MMIO);
    write_u64(&mut a, 32, addr);
    copy_at(&mut a, 40, data);
    copy_at(&mut a, 48, &len.to_le_bytes());
    a[52] = is_write;
    a
}

fn dispatched(step: ExitStep) -> IoRequest {
    match step {
        ExitStep::Dispatch(req) => req,
        ExitStep::Stop(_, _) => panic!("stopped"),
    }
}

fn stopped(step: ExitStep) -> (VmExit, ExitNote) {
    match step {
        ExitStep::Dispatch(_) => panic!("dispatched"),
        ExitStep::Stop(exit, note) => (exit, note),
    }
}

fn internal(v: u64) -> VmExit {
    VmExit::UnhandledException((ExceptionCode::InternalError, v))
}

#[test]
fn constructs_on_kvm_host() {
    let vcpu = constructed();
    assert!(vcpu.vm_fd() >= 0);
    assert!(vcpu.vcpu_fd() >= 0);
    let (ptr, len) = (vcpu.kvm_run(), vcpu.run_len);
    assert!(ptr != 0);
    assert!(len > 0);
    // KVM_CHECK_EXTENSION answers 1 for user memory.
    assert_eq!(KVM_CAP_USER_MEMORY, 3);
    assert!(Vcpu::has_cap(1));
}

#[test]
fn errors_when_kvm_absent() {
    let e = Construction::open(Err(Error::from_raw_os_error(2)));
    assert!(e.is_err());
}

#[test]
fn runs_a_flat_x86_guest_through_kvm_and_halts() {
    // mov al,0x41; mov dx,0x9000; out dx,al; hlt
    let code: [u8; 8] = [0xb0, 0x41, 0x66, 0xba, 0x00, 0x90, 0xee, 0xf4];
    let mut vcpu = constructed();
    let len = Vcpu::memory_span(0x100000);
    assert_eq!(len, 0x100000);
    let plan = match vcpu.install_memory(0, len, Some(0x7f11_0000_0000)) {
        Ok(plan) => plan,
        Err(_) => panic!("refused"),
    };
    assert!(plan.unmap.is_none());
    assert_eq!(plan.region.memory_size, 0x100000);
    assert!(vcpu.memory_installed(0).is_ok());

    let mut ram = vec![0u8; len];
    copy_at(&mut ram, 0x1000, &code);
    let setup = match vcpu.setup_x86_64(&mut ram, 0, 0x1000) {
        Ok(setup) => setup,
        Err(_) => panic!("no setup"),
    };
    assert_eq!(&ram[0x1000..0x1008], &code);
    assert_eq!(setup.regs.rip, 0x1000);
    assert_eq!(setup.sregs.cr3, 0xf_d000);

    // The kernel reports the port write, then the halt.
    let mut run_area = vec![0u8; 4096];
    let mut output: Vec<(u64, Vec<u8>)> = Vec::new();
    let mut lap = RunLoop::new(u64::MAX);
    let mut exits = 0;
    let mut action = lap.step(&mut run_area, RunEvent::Start);
    let exit = loop {
        action = match action {
            RunAction::Run => {
                exits += 1;
                if exits == 1 {
                    let described = port_area(1, 1, 0x9000, 0x100);
                    copy_at(&mut run_area, 0, &described);
                    run_area[0x100] = 0x41;
                } else {
                    copy_at(&mut run_area, 0, &area(EXIT_HLT));
                }
                assert!(check_run_area(&run_area));
                lap.step(&mut run_area, RunEvent::Exited)
            }
            RunAction::Dispatch(req) => {
                assert!(req.port_io);
                assert!(req.is_write);
                output.push((req.addr, req.data.clone()));
                lap.step(&mut run_area, RunEvent::Dispatched(req, true))
            }
            RunAction::Finish(exit, _) => break exit,
        };
    };
    assert_eq!(exit, VmExit::Halt);
    assert_eq!(output, vec![(0x9000, vec![0x41])]);
    assert!(vcpu.vcpu_fd() >= 0);
}

#[test]
fn construction_asks_in_order() {
    let vcpu = constructed();
    assert_eq!(vcpu.kvm, 3);
    assert_eq!(vcpu.vm_fd(), 4);
    assert_eq!(vcpu.vcpu_fd(), 5);
    assert_eq!(vcpu.kvm_run(), 0x7f00_0000_0000);
    assert_eq!(vcpu.run_len, 12288);
    assert_eq!(vcpu.guest_ram(), (0, 0));
}

#[test]
fn failed_construction_closes_what_it_opened() {
    let (close, cause) =
        failed(Construction::ApiVersion { kvm: 3 }.step(KernelReply::Code(-1)));
    assert_eq!(close, vec![3]);
    assert!(matches!(cause, Cause::Call("KVM_GET_API_VERSION")));

    let (close, cause) = failed(Construction::CreateVm { kvm: 3 }.step(KernelReply::Code(-1)));
    assert_eq!(close, vec![3]);
    assert!(matches!(cause, Cause::Call("KVM_CREATE_VM")));

    let (close, cause) =
        failed(Construction::CreateVcpu { kvm: 3, vm: 4 }.step(KernelReply::Code(-1)));
    assert_eq!(close, vec![4, 3]);
    assert!(matches!(cause, Cause::Call("KVM_CREATE_VCPU")));

    let (close, cause) =
        failed(Construction::MmapSize { kvm: 3, vm: 4, vcpu: 5 }.step(KernelReply::Code(-1)));
    assert_eq!(close, vec![5, 4, 3]);
    assert!(matches!(cause, Cause::Call("KVM_GET_VCPU_MMAP_SIZE")));

    let state = Construction::MapRun { kvm: 3, vm: 4, vcpu: 5, run_len: 12288 };
    let (close, cause) = failed(state.step(KernelReply::MapFailed));
    assert_eq!(close, vec![5, 4, 3]);
    assert!(matches!(cause, Cause::Call("mmap(kvm_run)")));
}

#[test]
fn old_api_is_refused() {
    let (close, cause) =
        failed(Construction::ApiVersion { kvm: 3 }.step(KernelReply::Code(11)));
    assert_eq!(close, vec![3]);
    assert!(matches!(cause, Cause::ApiTooOld(11)));
    assert!(matches!(
        Construction::ApiVersion { kvm: 3 }.step(KernelReply::Code(12)),
        Progress::Next(Construction::CreateVm { kvm: 3 })
    ));
}

#[test]
fn reply_of_another_kind_fails_the_call() {
    let (close, cause) =
        failed(Construction::CreateVm { kvm: 3 }.step(KernelReply::Mapped(0x1000)));
    assert_eq!(close, vec![3]);
    assert!(matches!(cause, Cause::Call("KVM_CREATE_VM")));
}

#[test]
fn error_messages() {
    let old = Cause::ApiTooOld(11).into_error(os_error());
    assert_eq!(old.message(), "KVM API too old: 11 < 12");
    assert_eq!(KvmError::ApiTooOld(0).message(), "KVM API too old: 0 < 12");
    assert_eq!(KvmError::ApiTooOld(-7).message(), "KVM API too old: -7 < 12");
    assert_eq!(
        KvmError::ApiTooOld(i32::MIN).message(),
        "KVM API too old: -2147483648 < 12"
    );

    let open = match Construction::open(Err(os_error())) {
        Err(e) => e,
        Ok(_) => panic!("opened"),
    };
    assert_eq!(open.message(), format!("failed to open /dev/kvm: {}", os_error()));

    let call = Cause::Call("KVM_CREATE_VM").into_error(os_error());
    assert_eq!(
        call.message(),
        format!("KVM ioctl KVM_CREATE_VM failed: {}", os_error())
    );
    assert_eq!(call.message_with("nope"), "KVM ioctl KVM_CREATE_VM failed: nope");
}

#[test]
fn ioctl_results() {
    assert!(check_ioctl("KVM_SET_REGS", 0).is_ok());
    assert!(matches!(check_ioctl("KVM_SET_REGS", -1), Err(Cause::Call("KVM_SET_REGS"))));
    assert!(Vcpu::has_cap(1));
    assert!(!Vcpu::has_cap(0));
    assert!(!Vcpu::has_cap(-1));
}

#[test]
fn memory_spans_are_whole_pages() {
    assert_eq!(Vcpu::memory_span(0), 0);
    assert_eq!(Vcpu::memory_span(1), 4096);
    assert_eq!(Vcpu::memory_span(4096), 4096);
    assert_eq!(Vcpu::memory_span(4097), 8192);
    assert_eq!(Vcpu::memory_span(usize::MAX - 4095), usize::MAX - 4095);
}

#[test]
fn impossible_sizes_count_as_failed_mappings() {
    let mut vcpu = constructed();
    assert!(vcpu.install_memory(0, 4096, Some(0x1000)).is_ok());
    for size in [usize::MAX, usize::MAX - 4094] {
        assert!(matches!(
            vcpu.install_memory(0, size, None),
            Err(Cause::Call("mmap(guest_ram)"))
        ));
        assert!(matches!(
            vcpu.install_memory(0, size, Some(0x9000)),
            Err(Cause::Call("mmap(guest_ram)"))
        ));
        assert_eq!(vcpu.guest_ram(), (0x1000, 4096));
    }
    // The largest size that has a span is the kernel's to refuse.
    assert!(matches!(
        vcpu.install_memory(0, usize::MAX - 4095, None),
        Err(Cause::Call("mmap(guest_ram)"))
    ));
    assert!(vcpu.install_memory(0, usize::MAX - 4095, Some(0x9000)).is_ok());
    assert_eq!(vcpu.guest_ram(), (0x9000, usize::MAX - 4095));
}

#[test]
fn memory_is_replaced_and_given_back() {
    let mut vcpu = constructed();
    assert!(matches!(
        vcpu.install_memory(0, 4096, None),
        Err(Cause::Call("mmap(guest_ram)"))
    ));
    assert_eq!(vcpu.guest_ram(), (0, 0));

    let first = vcpu.install_memory(0x10000, 4096, Some(0x1000)).ok().unwrap();
    assert_eq!(first.unmap, None);
    assert_eq!(
        first.region,
        KvmUserspaceMemoryRegion {
            slot: 0,
            flags: 0,
            guest_phys_addr: 0x10000,
            memory_size: 4096,
            userspace_addr: 0x1000,
        }
    );
    assert!(vcpu.memory_installed(0).is_ok());
    assert_eq!(vcpu.guest_ram(), (0x1000, 4096));

    let second = vcpu.install_memory(0, 8192, Some(0x9000)).ok().unwrap();
    assert_eq!(second.unmap, Some((0x1000, 4096)));
    assert_eq!(vcpu.guest_ram(), (0x9000, 8192));
    assert_eq!(
        vcpu.release(),
        vec![
            Release::Unmap { addr: 0x9000, len: 8192 },
            Release::Unmap { addr: 0x7f00_0000_0000, len: 12288 },
            Release::Close(5),
            Release::Close(4),
            Release::Close(3),
        ]
    );

    let refused = vcpu.memory_installed(-1).err().unwrap();
    assert_eq!(refused.unmap, (0x9000, 8192));
    assert!(matches!(refused.cause, Cause::Call("KVM_SET_USER_MEMORY_REGION")));
    assert_eq!(vcpu.guest_ram(), (0, 0));
    assert_eq!(
        vcpu.release(),
        vec![
            Release::Unmap { addr: 0x7f00_0000_0000, len: 12288 },
            Release::Close(5),
            Release::Close(4),
            Release::Close(3),
        ]
    );
}

/// Installs memory on a host that answers as told, and lists the calls.
fn install(
    vcpu: &mut Vcpu,
    size: usize,
    mapping: KernelReply,
    slot: i32,
) -> (Vec<String>, Result<(), KvmError>) {
    let mut calls = Vec::new();
    let mut state = Installation::MapBuffer { guest_base: 0x10000, size };
    loop {
        let reply = match state.call(vcpu) {
            HostCall::MapPrivate { len } => {
                calls.push(format!("map {}", len));
                mapping
            }
            HostCall::Unmap { addr, len } => {
                calls.push(format!("unmap {:#x} {}", addr, len));
                KernelReply::Code(0)
            }
            HostCall::IoctlWith { fd, request, arg } => {
                calls.push(format!("ioctl {} {:#x} {:#x}", fd, request, read_le(&arg, 24, 8)));
                KernelReply::Code(slot)
            }
        };
        match state.step(vcpu, reply, os_error()) {
            InstallStep::Next(next) => state = next,
            InstallStep::Failed(e) => return (calls, Err(e)),
            InstallStep::Done => return (calls, Ok(())),
        }
    }
}

#[test]
fn memory_is_installed_in_order() {
    let mut vcpu = constructed();
    let (calls, r) = install(&mut vcpu, 4096, KernelReply::Mapped(0x1000), 0);
    assert!(r.is_ok());
    assert_eq!(calls, vec!["map 4096", "ioctl 4 0x4020ae46 0x1000"]);

    // The buffer before it goes first.
    let (calls, r) = install(&mut vcpu, 8192, KernelReply::Mapped(0x9000), 0);
    assert!(r.is_ok());
    assert_eq!(calls, vec!["map 8192", "unmap 0x1000 4096", "ioctl 4 0x4020ae46 0x9000"]);
    assert_eq!(vcpu.guest_ram(), (0x9000, 8192));

    // A mapping that fails is the only call.
    let (calls, r) = install(&mut vcpu, 4096, KernelReply::MapFailed, 0);
    assert!(matches!(r, Err(KvmError::Ioctl("mmap(guest_ram)", _))));
    assert_eq!(calls, vec!["map 4096"]);
    let (calls, r) = install(&mut vcpu, usize::MAX, KernelReply::MapFailed, 0);
    assert!(matches!(r, Err(KvmError::Ioctl("mmap(guest_ram)", _))));
    assert_eq!(calls, vec![format!("map {}", usize::MAX)]);
    assert_eq!(vcpu.guest_ram(), (0x9000, 8192));

    // A buffer that the kernel refuses is unmapped.
    let (calls, r) = install(&mut vcpu, 4096, KernelReply::Mapped(0x5000), -1);
    assert!(matches!(r, Err(KvmError::Ioctl("KVM_SET_USER_MEMORY_REGION", _))));
    assert_eq!(
        calls,
        vec!["map 4096", "unmap 0x9000 8192", "ioctl 4 0x4020ae46 0x5000", "unmap 0x5000 4096"]
    );
    assert_eq!(vcpu.guest_ram(), (0, 0));
}

#[test]
fn special_registers_come_first() {
    let mut vcpu = constructed();
    assert!(vcpu.install_memory(0, 0x10_0000, Some(0x7f11_0000_0000)).is_ok());
    for (sregs, regs) in [(0, 0), (-1, 0), (0, -1)] {
        let mut ram = vec![0u8; 0x10_0000];
        let setup = vcpu.setup_x86_64(&mut ram, 0, 0x1234).ok().unwrap();
        let mut requests = Vec::new();
        let mut state = EntrySetup::SetSregs { setup };
        let end = loop {
            let reply = match state.call(&vcpu) {
                HostCall::IoctlWith { fd: 5, request: KVM_SET_SREGS, arg } => {
                    requests.push(KVM_SET_SREGS);
                    assert_eq!(read_le(&arg, 240, 8), 0xf_d000);
                    KernelReply::Code(sregs)
                }
                HostCall::IoctlWith { fd: 5, request: KVM_SET_REGS, arg } => {
                    requests.push(KVM_SET_REGS);
                    assert_eq!(read_le(&arg, 128, 8), 0x1234);
                    KernelReply::Code(regs)
                }
                _ => panic!("unexpected call"),
            };
            match state.step(reply, os_error()) {
                EntryStep::Next(next) => state = next,
                EntryStep::Failed(e) => break Err(e),
                EntryStep::Done => break Ok(()),
            }
        };
        if sregs < 0 {
            assert_eq!(requests, vec![KVM_SET_SREGS]);
            assert!(matches!(end, Err(KvmError::Ioctl("KVM_SET_SREGS", _))));
        } else {
            assert_eq!(requests, vec![KVM_SET_SREGS, KVM_SET_REGS]);
            if regs < 0 {
                assert!(matches!(end, Err(KvmError::Ioctl("KVM_SET_REGS", _))));
            } else {
                assert!(end.is_ok());
            }
        }
    }
}

#[test]
fn setup_needs_memory() {
    let vcpu = constructed();
    let mut none: [u8; 0] = [];
    assert!(matches!(
        vcpu.setup_x86_64(&mut none, 0, 0x1000),
        Err(Cause::Call("setup_x86_64: no guest ram"))
    ));
}

#[test]
fn identity_map_covers_the_memory() {
    // Just over two huge pages of memory at guest address 0.
    let mut ram = vec![0xffu8; 0x40_1000];
    write_identity_map(&mut ram, 0);
    assert_eq!(read_le(&ram, 0x3f_e000, 8), 0x3f_f003);
    assert_eq!(read_le(&ram, 0x3f_e008, 8), 0);
    assert_eq!(read_le(&ram, 0x3f_f000, 8), 0x40_0003);
    assert_eq!(read_le(&ram, 0x3f_fff8, 8), 0);
    assert_eq!(read_le(&ram, 0x40_0000, 8), 0x83);
    assert_eq!(read_le(&ram, 0x40_0008, 8), 0x20_0083);
    assert_eq!(read_le(&ram, 0x40_0010, 8), 0x40_0083);
    assert_eq!(read_le(&ram, 0x40_0018, 8), 0);
    assert!(ram[..0x3f_e000].iter().all(|b| *b == 0xff));
}

#[test]
fn identity_map_follows_the_base() {
    // One huge page of memory at guest address 0x20_0000.
    let mut ram = vec![0u8; 0x20_0000];
    write_identity_map(&mut ram, 0x20_0000);
    assert_eq!(read_le(&ram, 0x1f_d000, 8), 0x3f_e003);
    assert_eq!(read_le(&ram, 0x1f_e000, 8), 0x3f_f003);
    assert_eq!(read_le(&ram, 0x1f_f000, 8), 0);
    assert_eq!(read_le(&ram, 0x1f_f008, 8), 0x20_0083);
    assert_eq!(read_le(&ram, 0x1f_f010, 8), 0);
}

#[test]
fn firmware_is_spared() {
    let mut vcpu = constructed();
    assert!(vcpu.install_memory(0, 0x10_0000, Some(0x7f11_0000_0000)).is_ok());
    assert!(vcpu.memory_installed(0).is_ok());
    let firmware: Vec<u8> = (0..0x8000).map(|i| (i % 251) as u8).collect();
    let mut ram = vec![0u8; 0x10_0000];
    copy_at(&mut ram, 0, &firmware);
    assert!(vcpu.setup_x86_64(&mut ram, 0, 0x1000).is_ok());
    assert_eq!(&ram[..0x8000], &firmware[..]);
}

/// Where a linear address leads, following the tables the way a processor does,
/// with the memory at `base`.
fn translate(ram: &[u8], base: u64, cr3: u64, va: u64) -> Option<u64> {
    let mut table = cr3;
    for shift in [39, 30, 21] {
        assert!(table >= base && table - base + 0x1000 <= ram.len() as u64);
        let entry = read_le(ram, (table - base + 8 * ((va >> shift) & 511)) as usize, 8);
        if entry & 1 == 0 {
            return None;
        }
        assert_eq!(entry & 2, 2);
        table = entry & 0x000f_ffff_ffff_f000;
        if shift == 21 {
            assert_eq!(entry & 0x80, 0x80);
        }
    }
    Some((table & !0x1f_ffff) + (va & 0x1f_ffff))
}

fn set_up(base: u64, len: usize) -> (Vec<u8>, u64) {
    let mut vcpu = constructed();
    assert!(vcpu.install_memory(base, len, Some(0x7f11_0000_0000)).is_ok());
    assert!(vcpu.memory_installed(0).is_ok());
    let mut ram = vec![0u8; len];
    match vcpu.setup_x86_64(&mut ram, base, base + 0x1000) {
        Ok(setup) => (ram, setup.sregs.cr3),
        Err(_) => panic!("no setup"),
    }
}

#[test]
fn guest_sees_its_memory() {
    let (ram, cr3) = set_up(0, 0x30_0000);
    assert_eq!(cr3, 0x2f_d000);
    for va in [0, 0x1000, 0x4008, 0x1f_ffff, 0x20_0000, 0x2f_ffff, 0x3f_ffff] {
        assert_eq!(translate(&ram, 0, cr3, va), Some(va));
    }
    for va in [
        0x40_0000,
        0x0900_0000,
        0x4000_0000,
        0x80_0000_0000,
        0x7fff_ffff_f000,
        0x8000_0000_0000,
        0xffff_8000_0000_0000,
        0xffff_ffff_ffff_f000,
    ] {
        assert_eq!(translate(&ram, 0, cr3, va), None);
    }
}

#[test]
fn guest_sees_its_memory_elsewhere() {
    let (ram, cr3) = set_up(0x20_0000, 0x20_0000);
    assert_eq!(cr3, 0x3f_d000);
    for va in [0x20_0000, 0x20_1000, 0x3f_ffff] {
        assert_eq!(translate(&ram, 0x20_0000, cr3, va), Some(va));
    }
    for va in [0, 0x1f_ffff, 0x40_0000, 0x4020_0000, 0x80_0020_0000] {
        assert_eq!(translate(&ram, 0x20_0000, cr3, va), None);
    }

    // High up, and not at a huge page boundary.
    let base = 0x12_7453_1000;
    let (ram, cr3) = set_up(base, 0x20_0000);
    assert_eq!(cr3, base + 0x1f_d000);
    for va in [base, base + 0x1f_ffff] {
        assert_eq!(translate(&ram, base, cr3, va), Some(va));
    }
    for va in [0, base - 0x20_0000, base + 0x40_0000] {
        assert_eq!(translate(&ram, base, cr3, va), None);
    }

}

#[test]
fn guest_sees_memory_that_crosses_a_table() {
    // Across a GiB boundary there is a second directory.
    let base = 0x3fe0_0000;
    assert_eq!(tables_len(base, 0x40_0000), 0x4000);
    let (ram, cr3) = set_up(base, 0x40_0000);
    assert_eq!(cr3, base + 0x3f_d000);
    for va in [base, 0x3fff_ffff, 0x4000_0000, 0x401f_ffff] {
        assert_eq!(translate(&ram, base, cr3, va), Some(va));
    }
    for va in [0, base - 1, 0x4020_0000, 0x8000_0000, 0x7fe0_0000] {
        assert_eq!(translate(&ram, base, cr3, va), None);
    }
    assert!(ram[..0x3f_c000].iter().all(|b| *b == 0));

    // Across a 512 GiB boundary there is a second pointer table as well.
    let base = 0x7f_ffe0_0000;
    assert_eq!(tables_len(base, 0x40_0000), 0x5000);
    let (ram, cr3) = set_up(base, 0x40_0000);
    for va in [base, 0x7f_ffff_ffff, 0x80_0000_0000, 0x80_001f_ffff] {
        assert_eq!(translate(&ram, base, cr3, va), Some(va));
    }
    for va in [0, 0x4000_0000, base - 1, 0x80_0020_0000, 0x100_0000_0000] {
        assert_eq!(translate(&ram, base, cr3, va), None);
    }
    assert!(ram[..0x3f_b000].iter().all(|b| *b == 0));

    // Memory that crosses nothing takes three pages.
    assert_eq!(tables_len(0, 0x10_0000), 0x3000);
    assert_eq!(tables_len(0, 0x4000_0000), 0x3000);
}

#[test]
fn huge_page_counts() {
    assert_eq!(huge_page_count(0, 0), 0);
    assert_eq!(huge_page_count(0, 1), 1);
    assert_eq!(huge_page_count(0, 0x20_0000), 1);
    assert_eq!(huge_page_count(0, 0x20_0001), 2);
    assert_eq!(huge_page_count(0, 0x4000_0000), 512);
    assert_eq!(huge_page_count(0, u64::MAX), 512);
    assert_eq!(huge_page_count(0x10_0000, 0x20_0000), 2);
    assert_eq!(huge_page_count(0x20_0000, 0x20_0000), 1);
    assert_eq!(huge_page_count(0x3fe0_0000, 0x40_0000), 2);
    assert_eq!(huge_page_count(0x10_0000, 0x4000_0000), 513);
}

#[test]
fn flat_registers() {
    let r = flat_x86_64_sregs(0x1234_4000);
    assert_eq!(r.cr0, 0x8000_0001);
    assert_eq!(r.cr3, 0x1234_4000);
    assert_eq!(r.cr4, 0x20);
    assert_eq!(r.efer, 0x500);
    assert_eq!(r.apic_base, 0xfee0_0000);
    assert_eq!((r.cs.selector, r.cs.type_, r.cs.l, r.cs.s), (0x10, 0xb, 1, 1));
    assert_eq!((r.ds.selector, r.ds.type_, r.ds.l, r.ds.s), (0, 0x3, 0, 1));
    assert_eq!((r.cs.limit, r.cs.g, r.cs.present), (0xffff_ffff, 1, 1));
    assert_eq!(r.ds, r.ss);
    assert_eq!((r.tr.unusable, r.tr.present), (1, 0));
    assert_eq!(r.tr, r.ldt);
}

#[test]
fn register_images() {
    let s = flat_x86_64_sregs(0x4000).to_bytes();
    assert_eq!(s.len(), 312);
    // cs: limit at 8, selector at 12, type at 14, l at 19.
    assert_eq!(read_le(&s, 8, 4), 0xffff_ffff);
    assert_eq!(read_le(&s, 12, 2), 0x10);
    assert_eq!((s[14], s[19]), (0xb, 1));
    // ds starts at 24, tr at 144: its `unusable` is byte 22.
    assert_eq!((s[24 + 14], s[144 + 22]), (0x3, 1));
    assert_eq!(read_le(&s, 224, 8), 0x8000_0001);
    assert_eq!(read_le(&s, 240, 8), 0x4000);
    assert_eq!(read_le(&s, 248, 8), 0x20);
    assert_eq!(read_le(&s, 264, 8), 0x500);
    assert_eq!(read_le(&s, 272, 8), 0xfee0_0000);

    let r = KvmRegs::at_entry(0x1000).to_bytes();
    assert_eq!(r.len(), 144);
    assert_eq!(read_le(&r, 128, 8), 0x1000);
    assert_eq!(read_le(&r, 136, 8), 2);
    assert!(r[..128].iter().all(|b| *b == 0));

    let m = KvmUserspaceMemoryRegion {
        slot: 1,
        flags: 2,
        guest_phys_addr: 3,
        memory_size: 4,
        userspace_addr: 0x1122_3344_5566_7788,
    }
    .to_bytes();
    assert_eq!(m.len(), 32);
    assert_eq!((read_le(&m, 0, 4), read_le(&m, 4, 4)), (1, 2));
    assert_eq!((read_le(&m, 8, 8), read_le(&m, 16, 8)), (3, 4));
    assert_eq!(&m[24..], &[0x88, 0x77, 0x66, 0x55, 0x44, 0x33, 0x22, 0x11]);
}

#[test]
fn ioctl_numbers_carry_the_sizes() {
    let plain = |nr: u64| (0xAE << 8) | nr;
    let write = |nr: u64, size: u64| (1 << 30) | (size << 16) | plain(nr);
    let read = |nr: u64, size: u64| (2 << 30) | (size << 16) | plain(nr);
    assert_eq!(KVM_GET_API_VERSION, plain(0x00));
    assert_eq!(KVM_CREATE_VM, plain(0x01));
    assert_eq!(KVM_CHECK_EXTENSION, plain(0x03));
    assert_eq!(KVM_GET_VCPU_MMAP_SIZE, plain(0x04));
    assert_eq!(KVM_CREATE_VCPU, plain(0x41));
    assert_eq!(KVM_RUN, plain(0x80));
    assert_eq!(KVM_SET_USER_MEMORY_REGION, write(0x46, 32));
    assert_eq!(KVM_GET_REGS, read(0x81, 144));
    assert_eq!(KVM_SET_REGS, write(0x82, 144));
    assert_eq!(KVM_SET_SREGS, write(0x84, 312));
}

#[test]
fn mmio_exits() {
    let a = mmio_area(0x0900_0000, &[1, 2, 3, 4, 5, 6, 7, 8], 4, 1);
    let req = dispatched(classify_exit(&a));
    assert!(!req.port_io);
    assert!(req.is_write);
    assert_eq!(req.addr, 0x0900_0000);
    assert_eq!(req.data, vec![1, 2, 3, 4]);
    assert_eq!(req.offset, 40);

    let a = mmio_area(0x0900_0000, &[], 9, 0);
    assert_eq!(stopped(classify_exit(&a)), (internal(1), ExitNote::Nothing));
}

#[test]
fn port_exits() {
    let mut a = port_area(0, 2, 0x3f8, 0x80);
    a[0x80] = 0xaa;
    a[0x81] = 0xbb;
    let req = dispatched(classify_exit(&a));
    assert!(req.port_io);
    assert!(!req.is_write);
    assert_eq!(req.addr, 0x3f8);
    assert_eq!(req.data, vec![0xaa, 0xbb]);
    assert_eq!(req.offset, 0x80);

    let a = port_area(1, 9, 0x3f8, 0x80);
    assert_eq!(stopped(classify_exit(&a)), (internal(3), ExitNote::Nothing));
}

#[test]
fn other_exits() {
    assert_eq!(stopped(classify_exit(&area(EXIT_HLT))), (VmExit::Halt, ExitNote::Nothing));
    assert_eq!(
        stopped(classify_exit(&area(EXIT_INTR))),
        (VmExit::Interrupted, ExitNote::Nothing)
    );
    assert_eq!(
        stopped(classify_exit(&area(EXIT_SHUTDOWN))),
        (
            VmExit::UnhandledException((ExceptionCode::Halt, 0xDEAD)),
            ExitNote::FetchRegisters
        )
    );
    assert_eq!(
        stopped(classify_exit(&area(EXIT_EXCEPTION))),
        (internal(3), ExitNote::UnknownReason(3))
    );
    assert_eq!(
        stopped(classify_exit(&area(17))),
        (internal(17), ExitNote::UnknownReason(17))
    );
}

#[test]
fn replies_go_back_into_the_area() {
    let mut a = mmio_area(0x1000, &[0; 8], 2, 0);
    let before = a.clone();
    let mut req = dispatched(classify_exit(&a));
    req.data[0] = 0x55;
    req.data[1] = 0x66;
    assert_eq!(complete(&mut a, &req, true), None);
    assert_eq!(&a[40..44], &[0x55, 0x66, 0, 0]);
    assert_eq!(&a[..40], &before[..40]);
    assert_eq!(&a[42..], &before[42..]);

    // A write leaves the area alone, whatever the device does with the bytes.
    let mut a = mmio_area(0x1000, &[7; 8], 2, 1);
    let before = a.clone();
    let mut req = dispatched(classify_exit(&a));
    req.data[0] = 0x55;
    assert_eq!(complete(&mut a, &req, true), None);
    assert_eq!(a, before);

    // A device that refuses ends the run.
    assert_eq!(complete(&mut a, &req, false), Some(internal(2)));
    let mut p = port_area(0, 1, 0x60, 0x80);
    let mut req = dispatched(classify_exit(&p));
    req.data[0] = 9;
    let before = p.clone();
    assert_eq!(complete(&mut p, &req, false), Some(internal(4)));
    assert_eq!(p, before);
    assert_eq!(complete(&mut p, &req, true), None);
    assert_eq!(p[0x80], 9);
}

#[test]
fn run_area_is_checked() {
    assert!(!check_run_area(&[0u8; 52]));
    assert!(check_run_area(&[0u8; 53]));
    assert!(check_run_area(&port_area(0, 4, 1, 252)));
    assert!(!check_run_area(&port_area(0, 4, 1, 253)));
    assert!(!check_run_area(&port_area(0, 4, 1, u64::MAX)));
    // A payload that is not going to be read may be anywhere.
    assert!(check_run_area(&port_area(0, 9, 1, u64::MAX)));
}

#[test]
fn failed_runs_report_the_os_error() {
    assert_eq!(run_failed(Some(4)), internal(4));
    assert_eq!(run_failed(None), internal(0));
    assert_eq!(run_failed(Some(-1)), internal(u64::MAX));
    let mut lap = RunLoop::new(5);
    let mut a = area(0);
    match lap.step(&mut a, RunEvent::RunFailed(Some(14))) {
        RunAction::Finish(exit, note) => {
            assert_eq!((exit, note), (internal(14), ExitNote::Nothing));
        }
        _ => panic!("went on"),
    }
    assert_eq!(lap.left, 5);
}

#[test]
fn the_budget_bounds_the_run() {
    let mut a = port_area(1, 1, 0x80, 0x80);
    let mut lap = RunLoop::new(3);
    let mut runs = 0;
    let mut action = lap.step(&mut a, RunEvent::Start);
    let exit = loop {
        action = match action {
            RunAction::Run => {
                runs += 1;
                lap.step(&mut a, RunEvent::Exited)
            }
            RunAction::Dispatch(req) => lap.step(&mut a, RunEvent::Dispatched(req, true)),
            RunAction::Finish(exit, _) => break exit,
        };
    };
    assert_eq!(runs, 3);
    assert_eq!(exit, VmExit::InstructionLimit);

    let mut none = RunLoop::new(0);
    assert_eq!(none.begin(), Some(VmExit::InstructionLimit));
    assert_eq!(none.left, 0);
}

#[test]
fn a_refusing_device_ends_the_loop() {
    let mut a = mmio_area(0x1000, &[0; 8], 1, 0);
    let mut lap = RunLoop::new(3);
    assert!(matches!(lap.step(&mut a, RunEvent::Start), RunAction::Run));
    let req = match lap.step(&mut a, RunEvent::Exited) {
        RunAction::Dispatch(req) => req,
        _ => panic!("no dispatch"),
    };
    assert!(matches!(
        lap.step(&mut a, RunEvent::Dispatched(req, false)),
        RunAction::Finish(
            VmExit::UnhandledException((ExceptionCode::InternalError, 2)),
            ExitNote::Nothing
        )
    ));
    assert_eq!(lap.left, 2);
}

#[test]
fn a_selected_machine_is_not_executed_yet() {
    let mut machine = 5u32;
    assert_eq!(run(&mut machine), VmExit::Interrupted);
    assert_eq!(machine, 5);
}

#[test]
fn little_endian_round_trip() {
    let mut out = vec![9u8];
    push_le(&mut out, 0x1122_3344, 4);
    assert_eq!(out, vec![9, 0x44, 0x33, 0x22, 0x11]);
    assert_eq!(read_le(&out, 1, 4), 0x1122_3344);
    assert_eq!(read_le(&out, 1, 0), 0);
}
