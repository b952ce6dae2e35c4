//! What constructing, preparing and tearing down a machine does, in terms of
//! the calls, the registers and the bytes that the kernel sees.

use vstd::prelude::*;

#[allow(unused_imports)]
use crate::kvm::abi::{
    law_regs_layout, law_sregs_layout, KvmRegs, KvmSegment, KvmSregs, KvmUserspaceMemoryRegion,
};
#[allow(unused_imports)]
use crate::kvm::error::{decimal, error_text, Cause, KvmError};
#[allow(unused_imports)]
use crate::kvm::host::{
    Asked, EntrySetup, EntryStep, HostCall, InstallStep, Installation,
};
#[allow(unused_imports)]
use crate::kvm::paging::{law_tables_spell_out_the_identity, write_identity_map};
#[allow(unused_imports)]
use crate::kvm::vcpu::{
    check_ioctl, Construction, KernelCall, KernelReply, MemoryPlan, MemoryRefused, Progress,
    Release, Vcpu, X86Setup,
};
#[allow(unused_imports)]
use crate::kvm::x86::flat_x86_64_sregs;
#[allow(unused_imports)]
use crate::le::{le_at, le_bytes, lemma_le_bounds, lemma_le_bytes_len, lemma_le_round_trip};

verus! {

/// The special registers of a flat guest, field by field: 64-bit code, writable
/// data in all data segments, no task or local table, no descriptor tables,
/// protected mode with paging, PAE, long mode, and the given page table.
pub proof fn law_flat_registers(cr3: u64, r: KvmSregs)
    requires
        call_ensures(flat_x86_64_sregs, (cr3,), r),
    ensures
        r.cs == (KvmSegment {
            base: 0,
            limit: 0xffff_ffff,
            selector: 0x10,
            type_: 0xb,
            present: 1,
            dpl: 0,
            db: 0,
            s: 1,
            l: 1,
            g: 1,
            avl: 0,
            unusable: 0,
            padding: 0,
        }),
        r.ds == (KvmSegment {
            base: 0,
            limit: 0xffff_ffff,
            selector: 0,
            type_: 3,
            present: 1,
            dpl: 0,
            db: 0,
            s: 1,
            l: 0,
            g: 1,
            avl: 0,
            unusable: 0,
            padding: 0,
        }),
        r.es == (KvmSegment {
            base: 0,
            limit: 0xffff_ffff,
            selector: 0,
            type_: 3,
            present: 1,
            dpl: 0,
            db: 0,
            s: 1,
            l: 0,
            g: 1,
            avl: 0,
            unusable: 0,
            padding: 0,
        }),
        r.fs == (KvmSegment {
            base: 0,
            limit: 0xffff_ffff,
            selector: 0,
            type_: 3,
            present: 1,
            dpl: 0,
            db: 0,
            s: 1,
            l: 0,
            g: 1,
            avl: 0,
            unusable: 0,
            padding: 0,
        }),
        r.gs == (KvmSegment {
            base: 0,
            limit: 0xffff_ffff,
            selector: 0,
            type_: 3,
            present: 1,
            dpl: 0,
            db: 0,
            s: 1,
            l: 0,
            g: 1,
            avl: 0,
            unusable: 0,
            padding: 0,
        }),
        r.ss == (KvmSegment {
            base: 0,
            limit: 0xffff_ffff,
            selector: 0,
            type_: 3,
            present: 1,
            dpl: 0,
            db: 0,
            s: 1,
            l: 0,
            g: 1,
            avl: 0,
            unusable: 0,
            padding: 0,
        }),
        r.tr == (KvmSegment {
            base: 0,
            limit: 0,
            selector: 0,
            type_: 0,
            present: 0,
            dpl: 0,
            db: 0,
            s: 0,
            l: 0,
            g: 0,
            avl: 0,
            unusable: 1,
            padding: 0,
        }),
        r.ldt == (KvmSegment {
            base: 0,
            limit: 0,
            selector: 0,
            type_: 0,
            present: 0,
            dpl: 0,
            db: 0,
            s: 0,
            l: 0,
            g: 0,
            avl: 0,
            unusable: 1,
            padding: 0,
        }),
        r.gdt.base == 0 && r.gdt.limit == 0,
        r.idt.base == 0 && r.idt.limit == 0,
        forall|i: int| 0 <= i < 3 ==> #[trigger] r.gdt.padding@[i] == 0,
        forall|i: int| 0 <= i < 3 ==> #[trigger] r.idt.padding@[i] == 0,
        r.cr0 == 0x8000_0001,
        r.cr2 == 0,
        r.cr3 == cr3,
        r.cr4 == 0x20,
        r.cr8 == 0,
        r.efer == 0x500,
        r.apic_base == 0xfee0_0000,
        forall|i: int| 0 <= i < 4 ==> #[trigger] r.interrupt_bitmap@[i] == 0,
{
}

/// Every segment that a guest is set up with can be used as a flat program
/// expects: code and data are present and usable, start at 0 and span the whole
/// address space, code is 64-bit code and the rest writable data.
pub proof fn law_a_guest_has_flat_segments(
    v: &Vcpu,
    ram: &mut [u8],
    base: u64,
    entry_rip: u64,
    setup: X86Setup,
)
    requires
        call_ensures(Vcpu::setup_x86_64, (v, ram, base, entry_rip), Ok(setup)),
    ensures
        setup.sregs.cs == (KvmSegment {
            base: 0,
            limit: 0xffff_ffff,
            selector: 0x10,
            type_: 0xb,
            present: 1,
            dpl: 0,
            db: 0,
            s: 1,
            l: 1,
            g: 1,
            avl: 0,
            unusable: 0,
            padding: 0,
        }),
        setup.sregs.ds == (KvmSegment {
            base: 0,
            limit: 0xffff_ffff,
            selector: 0,
            type_: 3,
            present: 1,
            dpl: 0,
            db: 0,
            s: 1,
            l: 0,
            g: 1,
            avl: 0,
            unusable: 0,
            padding: 0,
        }),
        setup.sregs.es == (KvmSegment {
            base: 0,
            limit: 0xffff_ffff,
            selector: 0,
            type_: 3,
            present: 1,
            dpl: 0,
            db: 0,
            s: 1,
            l: 0,
            g: 1,
            avl: 0,
            unusable: 0,
            padding: 0,
        }),
        setup.sregs.fs == (KvmSegment {
            base: 0,
            limit: 0xffff_ffff,
            selector: 0,
            type_: 3,
            present: 1,
            dpl: 0,
            db: 0,
            s: 1,
            l: 0,
            g: 1,
            avl: 0,
            unusable: 0,
            padding: 0,
        }),
        setup.sregs.gs == (KvmSegment {
            base: 0,
            limit: 0xffff_ffff,
            selector: 0,
            type_: 3,
            present: 1,
            dpl: 0,
            db: 0,
            s: 1,
            l: 0,
            g: 1,
            avl: 0,
            unusable: 0,
            padding: 0,
        }),
        setup.sregs.ss == (KvmSegment {
            base: 0,
            limit: 0xffff_ffff,
            selector: 0,
            type_: 3,
            present: 1,
            dpl: 0,
            db: 0,
            s: 1,
            l: 0,
            g: 1,
            avl: 0,
            unusable: 0,
            padding: 0,
        }),
        setup.sregs.tr == (KvmSegment {
            base: 0,
            limit: 0,
            selector: 0,
            type_: 0,
            present: 0,
            dpl: 0,
            db: 0,
            s: 0,
            l: 0,
            g: 0,
            avl: 0,
            unusable: 1,
            padding: 0,
        }),
        setup.sregs.ldt == (KvmSegment {
            base: 0,
            limit: 0,
            selector: 0,
            type_: 0,
            present: 0,
            dpl: 0,
            db: 0,
            s: 0,
            l: 0,
            g: 0,
            avl: 0,
            unusable: 1,
            padding: 0,
        }),
{
}

/// A guest starts in long mode, on the page table that begins 0x3000 bytes
/// before the end of its memory, at the given instruction, with all other
/// registers clear and interrupts off.
pub proof fn law_a_guest_starts_at_its_entry(
    v: &Vcpu,
    ram: &mut [u8],
    base: u64,
    entry_rip: u64,
    setup: X86Setup,
)
    requires
        call_ensures(Vcpu::setup_x86_64, (v, ram, base, entry_rip), Ok(setup)),
        base + old(ram)@.len() <= 0x1_0000_0000_0000_0000,
        old(ram)@.len() >= 0x3000,
    ensures
        setup.sregs.gdt.base == 0 && setup.sregs.gdt.limit == 0,
        setup.sregs.idt.base == 0 && setup.sregs.idt.limit == 0,
        forall|i: int| 0 <= i < 3 ==> #[trigger] setup.sregs.gdt.padding@[i] == 0,
        forall|i: int| 0 <= i < 3 ==> #[trigger] setup.sregs.idt.padding@[i] == 0,
        setup.sregs.cr0 == 0x8000_0001,
        setup.sregs.cr2 == 0,
        setup.sregs.cr3 == base + old(ram)@.len() - 0x3000,
        setup.sregs.cr4 == 0x20,
        setup.sregs.cr8 == 0,
        setup.sregs.efer == 0x500,
        setup.sregs.apic_base == 0xfee0_0000,
        forall|i: int| 0 <= i < 4 ==> #[trigger] setup.sregs.interrupt_bitmap@[i] == 0,
        setup.regs.rip == entry_rip,
        setup.regs.rflags == 2,
        setup.regs.rax == 0,
        setup.regs.rbx == 0,
        setup.regs.rcx == 0,
        setup.regs.rdx == 0,
        setup.regs.rsi == 0,
        setup.regs.rdi == 0,
        setup.regs.rsp == 0,
        setup.regs.rbp == 0,
        setup.regs.r8 == 0,
        setup.regs.r9 == 0,
        setup.regs.r10 == 0,
        setup.regs.r11 == 0,
        setup.regs.r12 == 0,
        setup.regs.r13 == 0,
        setup.regs.r14 == 0,
        setup.regs.r15 == 0,
{
    lemma_words_are_registers(setup.regs);
}

/// The words of the register image, one by one.
proof fn lemma_words_are_registers(r: KvmRegs)
    ensures
        forall|i: int|
            0 <= i < 16 ==> #[trigger] r.as_words()[i] == seq![
                r.rax,
                r.rbx,
                r.rcx,
                r.rdx,
                r.rsi,
                r.rdi,
                r.rsp,
                r.rbp,
                r.r8,
                r.r9,
                r.r10,
                r.r11,
                r.r12,
                r.r13,
                r.r14,
                r.r15,
            ][i],
        r.as_words()[0] == r.rax && r.as_words()[1] == r.rbx && r.as_words()[2] == r.rcx
            && r.as_words()[3] == r.rdx && r.as_words()[4] == r.rsi && r.as_words()[5] == r.rdi
            && r.as_words()[6] == r.rsp && r.as_words()[7] == r.rbp && r.as_words()[8] == r.r8
            && r.as_words()[9] == r.r9 && r.as_words()[10] == r.r10 && r.as_words()[11] == r.r11
            && r.as_words()[12] == r.r12 && r.as_words()[13] == r.r13 && r.as_words()[14] == r.r14
            && r.as_words()[15] == r.r15,
{
}

/// A guest is set up exactly if it has memory; without, nothing is written, and
/// the error says so.
pub proof fn law_a_guest_needs_memory(
    v: &Vcpu,
    ram: &mut [u8],
    base: u64,
    entry_rip: u64,
    r: Result<X86Setup, Cause>,
)
    requires
        call_ensures(Vcpu::setup_x86_64, (v, ram, base, entry_rip), r),
    ensures
        r is Ok <==> v.guest_ram != 0,
        v.guest_ram == 0 ==> final(ram)@ == old(ram)@ && r == Err::<X86Setup, Cause>(
            Cause::Call("setup_x86_64: no guest ram"),
        ),
{
}

/// The page table of a guest that was set up leads every address of its memory,
/// up to the first GiB, to itself: the entries on the way, from the table that
/// CR3 names on, are present and writable and lie in the memory, and the last
/// one is the huge page of the address.
pub proof fn law_a_guest_reaches_its_memory(
    v: &Vcpu,
    ram: &mut [u8],
    base: u64,
    entry_rip: u64,
    setup: X86Setup,
    va: int,
)
    requires
        call_ensures(Vcpu::setup_x86_64, (v, ram, base, entry_rip), Ok(setup)),
        base % 0x1000 == 0,
        old(ram)@.len() % 0x1000 == 0,
        old(ram)@.len() >= 0x3000,
        base + old(ram)@.len() <= 0x10_0000_0000_0000,
        base + old(ram)@.len() <= 0x8000_0000_0000 || base + 0x4000_0000 <= 0x8000_0000_0000,
        base <= va < base + old(ram)@.len(),
        va < base + 0x4000_0000,
    ensures
        ({
            let m = final(ram)@;
            let e4 = le_at(m, setup.sregs.cr3 - base + 8 * (va / 0x80_0000_0000 % 512), 8);
            let pdp = e4 as int / 0x1000 * 0x1000 - base;
            let e3 = le_at(m, pdp + 8 * (va / 0x4000_0000 % 512), 8);
            let pd = e3 as int / 0x1000 * 0x1000 - base;
            let e2 = le_at(m, pd + 8 * (va / 0x20_0000 % 512), 8);
            &&& m.len() == old(ram)@.len()
            &&& e4 % 0x1000 == 3
            &&& 0 <= pdp <= m.len() - 0x1000
            &&& e3 % 0x1000 == 3
            &&& 0 <= pd <= m.len() - 0x1000
            &&& e2 == va / 0x20_0000 * 0x20_0000 + 0x83
        }),
{
    crate::kvm::paging::law_way_to_memory(final(ram)@, base as nat, va);
}

/// A guest that was set up reaches nothing but its memory: on the way to an
/// address of either half that is 2 MiB or more away from the memory, or from its
/// first GiB, some entry is 0.
pub proof fn law_a_guest_reaches_nothing_else(
    v: &Vcpu,
    ram: &mut [u8],
    base: u64,
    entry_rip: u64,
    setup: X86Setup,
    va: int,
)
    requires
        call_ensures(Vcpu::setup_x86_64, (v, ram, base, entry_rip), Ok(setup)),
        base % 0x1000 == 0,
        old(ram)@.len() % 0x1000 == 0,
        old(ram)@.len() >= 0x3000,
        base + old(ram)@.len() <= 0x10_0000_0000_0000,
        base + old(ram)@.len() <= 0x8000_0000_0000 || base + 0x4000_0000 <= 0x8000_0000_0000,
        0 <= va < 0x1_0000_0000_0000 || 0xffff_8000_0000_0000 <= va <= 0xffff_ffff_ffff_ffff,
        va + 0x20_0000 <= base || va >= base + old(ram)@.len() + 0x20_0000 || va >= base
            + 0x4020_0000,
    ensures
        ({
            let m = final(ram)@;
            let e4 = le_at(m, setup.sregs.cr3 - base + 8 * (va / 0x80_0000_0000 % 512), 8);
            let pdp = e4 as int / 0x1000 * 0x1000 - base;
            let e3 = le_at(m, pdp + 8 * (va / 0x4000_0000 % 512), 8);
            let pd = e3 as int / 0x1000 * 0x1000 - base;
            let e2 = le_at(m, pd + 8 * (va / 0x20_0000 % 512), 8);
            ||| e4 == 0
            ||| 0 <= pdp <= m.len() - 0x1000 && e3 == 0
            ||| 0 <= pdp <= m.len() - 0x1000 && 0 <= pd <= m.len() - 0x1000 && e2 == 0
        }),
{
    crate::kvm::paging::law_no_way_elsewhere(final(ram)@, base as nat, va);
}

/// Setting a guest up leaves its memory alone below the last five pages, and
/// below the last three where the memory does not cross a GiB boundary.
pub proof fn law_a_guest_keeps_its_firmware(
    v: &Vcpu,
    ram: &mut [u8],
    base: u64,
    entry_rip: u64,
    r: Result<X86Setup, Cause>,
    i: int,
)
    requires
        call_ensures(Vcpu::setup_x86_64, (v, ram, base, entry_rip), r),
        0 <= i < old(ram)@.len(),
    ensures
        final(ram)@.len() == old(ram)@.len(),
        i < old(ram)@.len() - 0x5000 ==> final(ram)@[i] == old(ram)@[i],
        i < old(ram)@.len() - 0x3000 && base as int / 0x4000_0000 == (base + old(ram)@.len() - 1)
            / 0x4000_0000 ==> final(ram)@[i] == old(ram)@[i],
{
}

/// A guest's first registers: the given instruction, all others clear, and in
/// the flags nothing but the reserved bit.
pub proof fn law_entry_registers(entry_rip: u64, r: KvmRegs)
    requires
        call_ensures(KvmRegs::at_entry, (entry_rip,), r),
    ensures
        r.rip == entry_rip,
        r.rflags == 2,
        r.rax == 0,
        r.rbx == 0,
        r.rcx == 0,
        r.rdx == 0,
        r.rsi == 0,
        r.rdi == 0,
        r.rsp == 0,
        r.rbp == 0,
        r.r8 == 0,
        r.r9 == 0,
        r.r10 == 0,
        r.r11 == 0,
        r.r12 == 0,
        r.r13 == 0,
        r.r14 == 0,
        r.r15 == 0,
{
    lemma_words_are_registers(r);
}

/// The kernel finds each field of the code and data segment where it looks for it.
pub proof fn law_code_and_data_in_memory(r: &KvmSregs, out: Vec<u8>)
    requires
        call_ensures(KvmSregs::to_bytes, (r,), out),
    ensures
        out@.len() == 312,
        le_at(out@, 0, 8) == r.cs.base,
        le_at(out@, 8, 4) == r.cs.limit,
        le_at(out@, 12, 2) == r.cs.selector,
        out@[14] == r.cs.type_,
        out@[15] == r.cs.present,
        out@[16] == r.cs.dpl,
        out@[17] == r.cs.db,
        out@[18] == r.cs.s,
        out@[19] == r.cs.l,
        out@[20] == r.cs.g,
        out@[21] == r.cs.avl,
        out@[22] == r.cs.unusable,
        out@[23] == r.cs.padding,
        le_at(out@, 24, 8) == r.ds.base,
        le_at(out@, 32, 4) == r.ds.limit,
        le_at(out@, 36, 2) == r.ds.selector,
        out@[38] == r.ds.type_,
        out@[39] == r.ds.present,
        out@[40] == r.ds.dpl,
        out@[41] == r.ds.db,
        out@[42] == r.ds.s,
        out@[43] == r.ds.l,
        out@[44] == r.ds.g,
        out@[45] == r.ds.avl,
        out@[46] == r.ds.unusable,
        out@[47] == r.ds.padding,
{
    let b = r.bytes();
    lemma_special_registers_at(*r);
    lemma_segment_at(b, 0, r.cs);
    lemma_segment_at(b, 24, r.ds);
}

/// The kernel finds each field of the extra data segments where it looks for it.
pub proof fn law_extra_segments_in_memory(r: &KvmSregs, out: Vec<u8>)
    requires
        call_ensures(KvmSregs::to_bytes, (r,), out),
    ensures
        out@.len() == 312,
        le_at(out@, 48, 8) == r.es.base,
        le_at(out@, 56, 4) == r.es.limit,
        le_at(out@, 60, 2) == r.es.selector,
        out@[62] == r.es.type_,
        out@[63] == r.es.present,
        out@[64] == r.es.dpl,
        out@[65] == r.es.db,
        out@[66] == r.es.s,
        out@[67] == r.es.l,
        out@[68] == r.es.g,
        out@[69] == r.es.avl,
        out@[70] == r.es.unusable,
        out@[71] == r.es.padding,
        le_at(out@, 72, 8) == r.fs.base,
        le_at(out@, 80, 4) == r.fs.limit,
        le_at(out@, 84, 2) == r.fs.selector,
        out@[86] == r.fs.type_,
        out@[87] == r.fs.present,
        out@[88] == r.fs.dpl,
        out@[89] == r.fs.db,
        out@[90] == r.fs.s,
        out@[91] == r.fs.l,
        out@[92] == r.fs.g,
        out@[93] == r.fs.avl,
        out@[94] == r.fs.unusable,
        out@[95] == r.fs.padding,
        le_at(out@, 96, 8) == r.gs.base,
        le_at(out@, 104, 4) == r.gs.limit,
        le_at(out@, 108, 2) == r.gs.selector,
        out@[110] == r.gs.type_,
        out@[111] == r.gs.present,
        out@[112] == r.gs.dpl,
        out@[113] == r.gs.db,
        out@[114] == r.gs.s,
        out@[115] == r.gs.l,
        out@[116] == r.gs.g,
        out@[117] == r.gs.avl,
        out@[118] == r.gs.unusable,
        out@[119] == r.gs.padding,
{
    let b = r.bytes();
    lemma_special_registers_at(*r);
    lemma_segment_at(b, 48, r.es);
    lemma_segment_at(b, 72, r.fs);
    lemma_segment_at(b, 96, r.gs);
}

/// The kernel finds each field of the stack and system segments where it looks
/// for it.
pub proof fn law_stack_and_system_segments_in_memory(r: &KvmSregs, out: Vec<u8>)
    requires
        call_ensures(KvmSregs::to_bytes, (r,), out),
    ensures
        out@.len() == 312,
        le_at(out@, 120, 8) == r.ss.base,
        le_at(out@, 128, 4) == r.ss.limit,
        le_at(out@, 132, 2) == r.ss.selector,
        out@[134] == r.ss.type_,
        out@[135] == r.ss.present,
        out@[136] == r.ss.dpl,
        out@[137] == r.ss.db,
        out@[138] == r.ss.s,
        out@[139] == r.ss.l,
        out@[140] == r.ss.g,
        out@[141] == r.ss.avl,
        out@[142] == r.ss.unusable,
        out@[143] == r.ss.padding,
        le_at(out@, 144, 8) == r.tr.base,
        le_at(out@, 152, 4) == r.tr.limit,
        le_at(out@, 156, 2) == r.tr.selector,
        out@[158] == r.tr.type_,
        out@[159] == r.tr.present,
        out@[160] == r.tr.dpl,
        out@[161] == r.tr.db,
        out@[162] == r.tr.s,
        out@[163] == r.tr.l,
        out@[164] == r.tr.g,
        out@[165] == r.tr.avl,
        out@[166] == r.tr.unusable,
        out@[167] == r.tr.padding,
        le_at(out@, 168, 8) == r.ldt.base,
        le_at(out@, 176, 4) == r.ldt.limit,
        le_at(out@, 180, 2) == r.ldt.selector,
        out@[182] == r.ldt.type_,
        out@[183] == r.ldt.present,
        out@[184] == r.ldt.dpl,
        out@[185] == r.ldt.db,
        out@[186] == r.ldt.s,
        out@[187] == r.ldt.l,
        out@[188] == r.ldt.g,
        out@[189] == r.ldt.avl,
        out@[190] == r.ldt.unusable,
        out@[191] == r.ldt.padding,
{
    let b = r.bytes();
    lemma_special_registers_at(*r);
    lemma_segment_at(b, 120, r.ss);
    lemma_segment_at(b, 144, r.tr);
    lemma_segment_at(b, 168, r.ldt);
}

/// The kernel finds each descriptor table and control register where it looks
/// for it.
pub proof fn law_control_registers_in_memory(r: &KvmSregs, out: Vec<u8>)
    requires
        call_ensures(KvmSregs::to_bytes, (r,), out),
    ensures
        out@.len() == 312,
        le_at(out@, 192, 8) == r.gdt.base,
        le_at(out@, 200, 2) == r.gdt.limit,
        le_at(out@, 202, 2) == r.gdt.padding@[0],
        le_at(out@, 204, 2) == r.gdt.padding@[1],
        le_at(out@, 206, 2) == r.gdt.padding@[2],
        le_at(out@, 208, 8) == r.idt.base,
        le_at(out@, 216, 2) == r.idt.limit,
        le_at(out@, 218, 2) == r.idt.padding@[0],
        le_at(out@, 220, 2) == r.idt.padding@[1],
        le_at(out@, 222, 2) == r.idt.padding@[2],
        le_at(out@, 224, 8) == r.cr0,
        le_at(out@, 232, 8) == r.cr2,
        le_at(out@, 240, 8) == r.cr3,
        le_at(out@, 248, 8) == r.cr4,
        le_at(out@, 256, 8) == r.cr8,
        le_at(out@, 264, 8) == r.efer,
        le_at(out@, 272, 8) == r.apic_base,
        le_at(out@, 280, 8) == r.interrupt_bitmap@[0],
        le_at(out@, 288, 8) == r.interrupt_bitmap@[1],
        le_at(out@, 296, 8) == r.interrupt_bitmap@[2],
        le_at(out@, 304, 8) == r.interrupt_bitmap@[3],
{
    law_sregs_layout(*r);
    lemma_table_at(r.bytes(), 192, r.gdt);
    lemma_table_at(r.bytes(), 208, r.idt);
    assert(r.interrupt_bitmap[0] == r.interrupt_bitmap@[0]);
    assert(r.interrupt_bitmap[1] == r.interrupt_bitmap@[1]);
    assert(r.interrupt_bitmap[2] == r.interrupt_bitmap@[2]);
    assert(r.interrupt_bitmap[3] == r.interrupt_bitmap@[3]);
}

/// Where the segments stand in the image of the special registers.
proof fn lemma_special_registers_at(r: KvmSregs)
    ensures
        r.bytes().len() == 312,
        r.bytes().subrange(0, 24) == r.cs.bytes(),
        r.bytes().subrange(24, 48) == r.ds.bytes(),
        r.bytes().subrange(48, 72) == r.es.bytes(),
        r.bytes().subrange(72, 96) == r.fs.bytes(),
        r.bytes().subrange(96, 120) == r.gs.bytes(),
        r.bytes().subrange(120, 144) == r.ss.bytes(),
        r.bytes().subrange(144, 168) == r.tr.bytes(),
        r.bytes().subrange(168, 192) == r.ldt.bytes(),
{
    law_sregs_layout(r);
}

/// The fields of a segment in an image that holds it at `off`.
proof fn lemma_segment_at(b: Seq<u8>, off: int, s: KvmSegment)
    requires
        0 <= off,
        off + 24 <= b.len(),
        b.subrange(off, off + 24) == s.bytes(),
    ensures
        le_at(b, off, 8) == s.base,
        le_at(b, off + 8, 4) == s.limit,
        le_at(b, off + 12, 2) == s.selector,
        b[off + 14] == s.type_,
        b[off + 15] == s.present,
        b[off + 16] == s.dpl,
        b[off + 17] == s.db,
        b[off + 18] == s.s,
        b[off + 19] == s.l,
        b[off + 20] == s.g,
        b[off + 21] == s.avl,
        b[off + 22] == s.unusable,
        b[off + 23] == s.padding,
{
    let img = s.bytes();
    lemma_le_bytes_len(s.base as nat, 8);
    lemma_le_bytes_len(s.limit as nat, 4);
    lemma_le_bytes_len(s.selector as nat, 2);
    lemma_le_bounds();
    lemma_le_round_trip(s.base as nat, 8);
    lemma_le_round_trip(s.limit as nat, 4);
    lemma_le_round_trip(s.selector as nat, 2);
    assert forall|k: int| 0 <= k < 24 implies b[off + k] == #[trigger] img[k] by {
        assert(b.subrange(off, off + 24)[k] == b[off + k]);
    }
    assert(img.subrange(0, 8) =~= le_bytes(s.base as nat, 8));
    assert(img.subrange(8, 12) =~= le_bytes(s.limit as nat, 4));
    assert(img.subrange(12, 14) =~= le_bytes(s.selector as nat, 2));
    assert(b.subrange(off, off + 8) =~= b.subrange(off, off + 24).subrange(0, 8));
    assert(b.subrange(off + 8, off + 12) =~= b.subrange(off, off + 24).subrange(8, 12));
    assert(b.subrange(off + 12, off + 14) =~= b.subrange(off, off + 24).subrange(12, 14));
    assert(img[14] == s.type_ && img[15] == s.present && img[16] == s.dpl && img[17] == s.db
        && img[18] == s.s && img[19] == s.l && img[20] == s.g && img[21] == s.avl && img[22]
        == s.unusable && img[23] == s.padding);
}

/// The fields of a descriptor table register in an image that holds it at
/// `off`.
proof fn lemma_table_at(b: Seq<u8>, off: int, t: crate::kvm::abi::KvmDtable)
    requires
        0 <= off,
        off + 16 <= b.len(),
        b.subrange(off, off + 16) == t.bytes(),
    ensures
        le_at(b, off, 8) == t.base,
        le_at(b, off + 8, 2) == t.limit,
        le_at(b, off + 10, 2) == t.padding@[0],
        le_at(b, off + 12, 2) == t.padding@[1],
        le_at(b, off + 14, 2) == t.padding@[2],
{
    let img = t.bytes();
    let whole = b.subrange(off, off + 16);
    lemma_le_bytes_len(t.base as nat, 8);
    lemma_le_bytes_len(t.limit as nat, 2);
    lemma_le_bytes_len(t.padding[0] as nat, 2);
    lemma_le_bytes_len(t.padding[1] as nat, 2);
    lemma_le_bytes_len(t.padding[2] as nat, 2);
    lemma_le_bounds();
    lemma_le_round_trip(t.base as nat, 8);
    lemma_le_round_trip(t.limit as nat, 2);
    lemma_le_round_trip(t.padding[0] as nat, 2);
    lemma_le_round_trip(t.padding[1] as nat, 2);
    lemma_le_round_trip(t.padding[2] as nat, 2);
    assert(img.subrange(0, 8) =~= le_bytes(t.base as nat, 8));
    assert(img.subrange(8, 10) =~= le_bytes(t.limit as nat, 2));
    assert(img.subrange(10, 12) =~= le_bytes(t.padding[0] as nat, 2));
    assert(img.subrange(12, 14) =~= le_bytes(t.padding[1] as nat, 2));
    assert(img.subrange(14, 16) =~= le_bytes(t.padding[2] as nat, 2));
    assert(b.subrange(off, off + 8) =~= whole.subrange(0, 8));
    assert(b.subrange(off + 8, off + 10) =~= whole.subrange(8, 10));
    assert(b.subrange(off + 10, off + 12) =~= whole.subrange(10, 12));
    assert(b.subrange(off + 12, off + 14) =~= whole.subrange(12, 14));
    assert(b.subrange(off + 14, off + 16) =~= whole.subrange(14, 16));
}

/// The kernel finds each general purpose register where it looks for it.
pub proof fn law_general_registers_in_memory(r: &KvmRegs, out: Vec<u8>)
    requires
        call_ensures(KvmRegs::to_bytes, (r,), out),
    ensures
        out@.len() == 144,
        le_at(out@, 0, 8) == r.rax,
        le_at(out@, 8, 8) == r.rbx,
        le_at(out@, 16, 8) == r.rcx,
        le_at(out@, 24, 8) == r.rdx,
        le_at(out@, 32, 8) == r.rsi,
        le_at(out@, 40, 8) == r.rdi,
        le_at(out@, 48, 8) == r.rsp,
        le_at(out@, 56, 8) == r.rbp,
        le_at(out@, 64, 8) == r.r8,
        le_at(out@, 72, 8) == r.r9,
        le_at(out@, 80, 8) == r.r10,
        le_at(out@, 88, 8) == r.r11,
        le_at(out@, 96, 8) == r.r12,
        le_at(out@, 104, 8) == r.r13,
        le_at(out@, 112, 8) == r.r14,
        le_at(out@, 120, 8) == r.r15,
        le_at(out@, 128, 8) == r.rip,
        le_at(out@, 136, 8) == r.rflags,
{
    law_regs_layout(*r);
    lemma_words_are_registers(*r);
}

/// The kernel finds each field of a memory slot where it looks for it.
pub proof fn law_memory_slot_in_memory(r: &KvmUserspaceMemoryRegion, out: Vec<u8>)
    requires
        call_ensures(KvmUserspaceMemoryRegion::to_bytes, (r,), out),
    ensures
        out@.len() == 32,
        le_at(out@, 0, 4) == r.slot,
        le_at(out@, 4, 4) == r.flags,
        le_at(out@, 8, 8) == r.guest_phys_addr,
        le_at(out@, 16, 8) == r.memory_size,
        le_at(out@, 24, 8) == r.userspace_addr,
{
    crate::kvm::abi::law_memory_region_layout(*r);
}

/// Guest memory is installed as it was asked for: the slot covers exactly the
/// buffer that the vCPU holds after the call, in whole pages, at least as much as
/// was asked for and less than a page more, at the address where it was mapped
/// and the guest address that was asked for. The buffer before it is handed back.
pub proof fn law_the_slot_covers_the_buffer(
    v: &mut Vcpu,
    guest_base: u64,
    size: usize,
    mapping: Option<usize>,
    r: Result<MemoryPlan, Cause>,
)
    requires
        call_ensures(Vcpu::install_memory, (v, guest_base, size, mapping), r),
    ensures
        r is Ok <==> mapping is Some && size + 4095 <= usize::MAX,
        r is Err ==> *final(v) == *old(v) && r == Err::<MemoryPlan, Cause>(
            Cause::Call("mmap(guest_ram)"),
        ),
        r matches Ok(plan) ==> {
            &&& final(v).guest_ram == mapping->0
            &&& final(v).guest_ram_len % 4096 == 0
            &&& size <= final(v).guest_ram_len < size + 4096
            &&& plan.region.slot == 0
            &&& plan.region.flags == 0
            &&& plan.region.guest_phys_addr == guest_base
            &&& plan.region.memory_size == final(v).guest_ram_len
            &&& plan.region.userspace_addr == mapping->0
            &&& old(v).guest_ram == 0 ==> plan.unmap is None
            &&& old(v).guest_ram != 0 ==> plan.unmap == Some(
                (old(v).guest_ram, old(v).guest_ram_len),
            )
            &&& final(v).run == old(v).run && final(v).run_len == old(v).run_len
            &&& final(v).vcpu == old(v).vcpu && final(v).vm == old(v).vm && final(v).kvm == old(
                v,
            ).kvm
        },
{
}

/// A slot that the kernel accepts changes nothing; one that it refuses takes the
/// guest's memory away, and the buffer is handed back.
pub proof fn law_refused_memory_is_handed_back(
    v: &mut Vcpu,
    rc: i32,
    r: Result<(), MemoryRefused>,
)
    requires
        call_ensures(Vcpu::memory_installed, (v, rc), r),
    ensures
        r is Ok <==> rc >= 0,
        rc >= 0 ==> *final(v) == *old(v),
        r matches Err(refused) ==> {
            &&& refused.unmap == (old(v).guest_ram, old(v).guest_ram_len)
            &&& refused.cause == Cause::Call("KVM_SET_USER_MEMORY_REGION")
            &&& final(v).guest_ram == 0 && final(v).guest_ram_len == 0
            &&& final(v).run == old(v).run && final(v).run_len == old(v).run_len
            &&& final(v).vcpu == old(v).vcpu && final(v).vm == old(v).vm && final(v).kvm == old(
                v,
            ).kvm
        },
{
}

/// A buffer is mapped for the least number of whole pages that holds what was
/// asked for.
pub proof fn law_memory_comes_in_whole_pages(size: usize, len: usize)
    requires
        call_ensures(Vcpu::memory_span, (size,), len),
    ensures
        len % 4096 == 0,
        size <= len < size + 4096,
{
}

/// What a vCPU says of itself is what it holds.
pub proof fn law_a_vcpu_tells_what_it_holds(
    v: &Vcpu,
    vm: i32,
    vcpu: i32,
    run: usize,
    ram: (usize, usize),
)
    requires
        call_ensures(Vcpu::vm_fd, (v,), vm),
        call_ensures(Vcpu::vcpu_fd, (v,), vcpu),
        call_ensures(Vcpu::kvm_run, (v,), run),
        call_ensures(Vcpu::guest_ram, (v,), ram),
    ensures
        vm == v.vm,
        vcpu == v.vcpu,
        run == v.run,
        ram == (v.guest_ram, v.guest_ram_len),
{
}

/// A host has a capability exactly if the kernel answers with a positive number,
/// and an ioctl has failed exactly if it answers with a negative one.
pub proof fn law_answers_of_ioctls(
    reply: i32,
    yes: bool,
    op: &'static str,
    rc: i32,
    r: Result<(), Cause>,
)
    requires
        call_ensures(Vcpu::has_cap, (reply,), yes),
        call_ensures(check_ioctl, (op, rc), r),
    ensures
        yes <==> reply > 0,
        r is Ok <==> rc >= 0,
        r is Err ==> r == Err::<(), Cause>(Cause::Call(op)),
{
}

/// Tearing a vCPU down gives everything back once, what depends on something
/// before that: the guest's memory if there is any, the run area, the vCPU, the
/// VM, and KVM itself.
pub proof fn law_teardown_gives_everything_back(v: &Vcpu, steps: Vec<Release>)
    requires
        call_ensures(Vcpu::release, (v,), steps),
    ensures
        v.guest_ram == 0 ==> steps@.len() == 4,
        v.guest_ram != 0 ==> steps@.len() == 5 && steps@[0] == (Release::Unmap {
            addr: v.guest_ram,
            len: v.guest_ram_len,
        }),
        ({
            let k = steps@.len() - 4;
            &&& steps@[k] == (Release::Unmap { addr: v.run, len: v.run_len })
            &&& steps@[k + 1] == Release::Close(v.vcpu)
            &&& steps@[k + 2] == Release::Close(v.vm)
            &&& steps@[k + 3] == Release::Close(v.kvm)
        }),
{
}

/// A construction asks the kernel, in this order, for the API version (0xAE00),
/// a VM (0xAE01) and the size of the run area (0xAE04) on the KVM descriptor,
/// for a vCPU (0xAE41) on the VM's, and for the run area on the vCPU's.
pub proof fn law_construction_asks_the_right_descriptor(state: &Construction, c: KernelCall)
    requires
        call_ensures(Construction::call, (state,), c),
    ensures
        match *state {
            Construction::ApiVersion { kvm } => c == (KernelCall::Ioctl {
                fd: kvm,
                request: 0xAE00,
            }),
            Construction::CreateVm { kvm } => c == (KernelCall::Ioctl { fd: kvm, request: 0xAE01 }),
            Construction::CreateVcpu { vm, .. } => c == (KernelCall::Ioctl {
                fd: vm,
                request: 0xAE41,
            }),
            Construction::MmapSize { kvm, .. } => c == (KernelCall::Ioctl {
                fd: kvm,
                request: 0xAE04,
            }),
            Construction::MapRun { vcpu, run_len, .. } => c == (KernelCall::MapShared {
                fd: vcpu,
                len: run_len,
            }),
        },
{
}

/// A construction that goes on keeps each descriptor that the kernel gave it
/// under its own name, and hands them all to the vCPU; an API version from 12 on
/// will do.
pub proof fn law_construction_goes_on(state: Construction, reply: KernelReply, p: Progress)
    requires
        call_ensures(Construction::step, (state, reply), p),
    ensures
        match (state, reply) {
            (Construction::ApiVersion { kvm }, KernelReply::Code(version)) => version >= 12 ==> p
                == Progress::Next(Construction::CreateVm { kvm }),
            (Construction::CreateVm { kvm }, KernelReply::Code(fd)) => fd >= 0 ==> p
                == Progress::Next(Construction::CreateVcpu { kvm, vm: fd }),
            (Construction::CreateVcpu { kvm, vm }, KernelReply::Code(fd)) => fd >= 0 ==> p
                == Progress::Next(Construction::MmapSize { kvm, vm, vcpu: fd }),
            (Construction::MmapSize { kvm, vm, vcpu }, KernelReply::Code(len)) => len >= 0 ==> {
                &&& p matches Progress::Next(Construction::MapRun { kvm: a, vm: b, vcpu: c, run_len })
                &&& a == kvm && b == vm && c == vcpu
                &&& run_len == len
            },
            (
                Construction::MapRun { kvm, vm, vcpu, run_len },
                KernelReply::Mapped(addr),
            ) => {
                &&& p matches Progress::Done(v)
                &&& v.kvm == kvm && v.vm == vm && v.vcpu == vcpu
                &&& v.run == addr && v.run_len == run_len
                &&& v.guest_ram == 0 && v.guest_ram_len == 0
            },
            _ => true,
        },
{
}

/// A construction that fails says which call failed, or which version is too
/// old, and has every descriptor that it got closed, the latest first.
pub proof fn law_construction_fails_cleanly(state: Construction, reply: KernelReply, p: Progress)
    requires
        call_ensures(Construction::step, (state, reply), p),
        match reply {
            KernelReply::Code(rc) => rc < 0 || state is MapRun || (state is ApiVersion && rc < 12),
            KernelReply::Mapped(_) => !(state is MapRun),
            KernelReply::MapFailed => true,
        },
    ensures
        p matches Progress::Failed(close, cause) && (match state {
            Construction::ApiVersion { kvm } => {
                &&& close@ == seq![kvm]
                &&& match reply {
                    KernelReply::Code(rc) if rc >= 0 => cause == Cause::ApiTooOld(rc),
                    _ => cause == Cause::Call("KVM_GET_API_VERSION"),
                }
            },
            Construction::CreateVm { kvm } => close@ == seq![kvm] && cause == Cause::Call(
                "KVM_CREATE_VM",
            ),
            Construction::CreateVcpu { kvm, vm } => close@ == seq![vm, kvm] && cause == Cause::Call(
                "KVM_CREATE_VCPU",
            ),
            Construction::MmapSize { kvm, vm, vcpu } => close@ == seq![vcpu, vm, kvm] && cause
                == Cause::Call("KVM_GET_VCPU_MMAP_SIZE"),
            Construction::MapRun { kvm, vm, vcpu, .. } => close@ == seq![vcpu, vm, kvm] && cause
                == Cause::Call("mmap(kvm_run)"),
        }),
{
    let held = state.held();
    match p {
        Progress::Failed(close, _) => match state {
            Construction::ApiVersion { kvm } => {
                assert(held.reverse() =~= seq![kvm]);
            },
            Construction::CreateVm { kvm } => {
                assert(held.reverse() =~= seq![kvm]);
            },
            Construction::CreateVcpu { kvm, vm } => {
                assert(held.reverse() =~= seq![vm, kvm]);
            },
            Construction::MmapSize { kvm, vm, vcpu } => {
                assert(held.reverse() =~= seq![vcpu, vm, kvm]);
            },
            Construction::MapRun { kvm, vm, vcpu, .. } => {
                assert(held.reverse() =~= seq![vcpu, vm, kvm]);
            },
        },
        _ => {},
    }
}

/// A construction starts with the descriptor of KVM, or with the error that
/// opening it gave.
pub proof fn law_construction_starts(
    reply: Result<i32, std::io::Error>,
    r: Result<Construction, KvmError>,
)
    requires
        call_ensures(Construction::open, (reply,), r),
    ensures
        reply matches Ok(fd) ==> r == Ok::<Construction, KvmError>(
            Construction::ApiVersion { kvm: fd },
        ),
        reply matches Err(e) ==> r == Err::<Construction, KvmError>(KvmError::Open(e)),
{
}

/// What is asked of the kernel while memory is installed: a buffer of whole
/// pages that holds what was asked for (or of the greatest length there is, for a
/// size beyond that), the unmapping of a buffer named, and the slot, by the
/// ioctl 0x4020AE46 on the VM's descriptor.
pub proof fn law_installation_asks(state: &Installation, v: &Vcpu, c: HostCall)
    requires
        call_ensures(Installation::call, (state, v), c),
    ensures
        match *state {
            Installation::MapBuffer { size, .. } => {
                &&& c matches HostCall::MapPrivate { len }
                &&& size + 4095 <= usize::MAX ==> len % 4096 == 0 && size <= len < size + 4096
                &&& size + 4095 > usize::MAX ==> len == usize::MAX
            },
            Installation::UnmapPrevious { addr, len, .. } => c == (HostCall::Unmap { addr, len }),
            Installation::SetSlot { region } => {
                &&& c matches HostCall::IoctlWith { fd, request, arg }
                &&& fd == v.vm
                &&& request == 0x4020_AE46
                &&& arg@.len() == 32
                &&& le_at(arg@, 0, 4) == region.slot
                &&& le_at(arg@, 4, 4) == region.flags
                &&& le_at(arg@, 8, 8) == region.guest_phys_addr
                &&& le_at(arg@, 16, 8) == region.memory_size
                &&& le_at(arg@, 24, 8) == region.userspace_addr
            },
            Installation::GiveUp { addr, len, .. } => c == (HostCall::Unmap { addr, len }),
        },
{
    if let Installation::SetSlot { region } = *state {
        crate::kvm::abi::law_memory_region_layout(region);
    }
}

/// Installing memory goes one way: once the buffer is there, the one before it
/// goes first, then the slot of exactly that buffer is set, and a buffer whose
/// slot is refused goes again. Each error is that of the call that failed.
pub proof fn law_installation_goes_on(
    state: Installation,
    v: &mut Vcpu,
    reply: KernelReply,
    os: std::io::Error,
    s: InstallStep,
)
    requires
        call_ensures(Installation::step, (state, v, reply, os), s),
    ensures
        match state {
            Installation::MapBuffer { guest_base, size } => {
                if reply is Mapped && size + 4095 <= usize::MAX {
                    let addr = reply->Mapped_0;
                    &&& s matches InstallStep::Next(next)
                    &&& final(v).guest_ram == addr
                    &&& final(v).guest_ram_len % 4096 == 0
                    &&& size <= final(v).guest_ram_len < size + 4096
                    &&& old(v).guest_ram != 0 ==> {
                        &&& next matches Installation::UnmapPrevious { addr: a, len: l, region }
                        &&& a == old(v).guest_ram && l == old(v).guest_ram_len
                        &&& region.slot == 0 && region.flags == 0
                        &&& region.guest_phys_addr == guest_base
                        &&& region.memory_size == final(v).guest_ram_len
                        &&& region.userspace_addr == addr
                    }
                    &&& old(v).guest_ram == 0 ==> {
                        &&& next matches Installation::SetSlot { region }
                        &&& region.slot == 0 && region.flags == 0
                        &&& region.guest_phys_addr == guest_base
                        &&& region.memory_size == final(v).guest_ram_len
                        &&& region.userspace_addr == addr
                    }
                } else {
                    &&& s == InstallStep::Failed(KvmError::Ioctl("mmap(guest_ram)", os))
                    &&& *final(v) == *old(v)
                }
            },
            Installation::UnmapPrevious { region, .. } => s == InstallStep::Next(
                Installation::SetSlot { region },
            ) && *final(v) == *old(v),
            Installation::SetSlot { .. } => if reply is Code && reply->Code_0 >= 0 {
                s == InstallStep::Done && *final(v) == *old(v)
            } else {
                &&& s == InstallStep::Next(
                    Installation::GiveUp {
                        addr: old(v).guest_ram,
                        len: old(v).guest_ram_len,
                        error: KvmError::Ioctl("KVM_SET_USER_MEMORY_REGION", os),
                    },
                )
                &&& final(v).guest_ram == 0 && final(v).guest_ram_len == 0
            },
            Installation::GiveUp { error, .. } => s == InstallStep::Failed(error) && *final(v)
                == *old(v),
        },
        final(v).run == old(v).run && final(v).run_len == old(v).run_len,
        final(v).vcpu == old(v).vcpu && final(v).vm == old(v).vm && final(v).kvm == old(v).kvm,
{
}

/// The special registers go to the vCPU's descriptor by the ioctl 0x4138AE84,
/// the general ones by 0x4090AE82, each as it is.
pub proof fn law_entry_setup_asks(state: &EntrySetup, v: &Vcpu, c: HostCall)
    requires
        call_ensures(EntrySetup::call, (state, v), c),
    ensures
        c matches HostCall::IoctlWith { fd, request, arg } && fd == v.vcpu && (match *state {
            EntrySetup::SetSregs { setup } => {
                &&& request == 0x4138_AE84
                &&& arg@.len() == 312
                &&& arg@ == setup.sregs.bytes()
                &&& le_at(arg@, 240, 8) == setup.sregs.cr3
                &&& le_at(arg@, 224, 8) == setup.sregs.cr0
            },
            EntrySetup::SetRegs { regs } => {
                &&& request == 0x4090_AE82
                &&& arg@.len() == 144
                &&& arg@ == regs.bytes()
                &&& le_at(arg@, 128, 8) == regs.rip
                &&& le_at(arg@, 136, 8) == regs.rflags
            },
        }),
{
    match *state {
        EntrySetup::SetSregs { setup } => law_sregs_layout(setup.sregs),
        EntrySetup::SetRegs { regs } => law_regs_layout(regs),
    }
}

/// The general registers are set after the special ones, those of the same
/// setup, and only where those could be set; each error is that of the call that
/// failed.
pub proof fn law_entry_setup_goes_on(
    state: EntrySetup,
    reply: KernelReply,
    os: std::io::Error,
    s: EntryStep,
)
    requires
        call_ensures(EntrySetup::step, (state, reply, os), s),
    ensures
        ({
            let success = reply is Code && reply->Code_0 >= 0;
            match state {
                EntrySetup::SetSregs { setup } => {
                    &&& success ==> s == EntryStep::Next(EntrySetup::SetRegs { regs: setup.regs })
                    &&& !success ==> s == EntryStep::Failed(KvmError::Ioctl("KVM_SET_SREGS", os))
                },
                EntrySetup::SetRegs { .. } => {
                    &&& success ==> s == EntryStep::Done
                    &&& !success ==> s == EntryStep::Failed(KvmError::Ioctl("KVM_SET_REGS", os))
                },
            }
        }),
{
}

/// An error keeps what it is about: the version that was too old, or the call
/// that failed, with its OS error.
pub proof fn law_errors_keep_their_cause(cause: Cause, os: std::io::Error, e: KvmError)
    requires
        call_ensures(Cause::into_error, (cause, os), e),
    ensures
        cause matches Cause::ApiTooOld(v) ==> e == KvmError::ApiTooOld(v),
        cause matches Cause::Call(op) ==> e == KvmError::Ioctl(op, os),
{
}

/// The number that a sequence of digits reads as.
pub open spec fn read_digits(text: Seq<char>) -> int
    decreases text.len(),
{
    if text.len() == 0 {
        0
    } else {
        10 * read_digits(text.drop_last()) + (text.last() as int - '0' as int)
    }
}

/// A number in decimal notation reads back as the number: it is made of digits,
/// at least one, without a zero in front of others.
pub proof fn law_decimals_read_back(n: nat)
    ensures
        decimal(n).len() > 0,
        read_digits(decimal(n)) == n,
        forall|i: int| 0 <= i < decimal(n).len() ==> '0' <= #[trigger] decimal(n)[i] <= '9',
        n > 0 ==> decimal(n)[0] != '0',
    decreases n,
{
    let d = decimal(n);
    if n < 10 {
        assert(d.drop_last() =~= Seq::<char>::empty());
        assert(read_digits(d.drop_last()) == 0);
    } else {
        law_decimals_read_back(n / 10);
        assert(d.drop_last() =~= decimal(n / 10));
        assert(d[0] == decimal(n / 10)[0]);
        assert forall|i: int| 0 <= i < d.len() implies '0' <= #[trigger] d[i] <= '9' by {
            if i < d.len() - 1 {
                assert(d[i] == decimal(n / 10)[i]);
            }
        }
    }
}

/// A message quotes what it is about: a version that is too old, in decimal
/// notation between its words, with a sign exactly if it is negative; or the
/// call that failed and what the OS said of it, whole.
pub proof fn law_messages_quote_the_error(e: &KvmError, detail: &str, out: String)
    requires
        call_ensures(KvmError::message_with, (e, detail), out),
    ensures
        e matches KvmError::ApiTooOld(v) ==> exists|digits: Seq<char>|
            {
                &&& #[trigger] read_digits(digits) == if v < 0 {
                    -v
                } else {
                    v as int
                }
                &&& out@ == "KVM API too old: "@ + (if v < 0 {
                    seq!['-']
                } else {
                    Seq::<char>::empty()
                }) + digits + " < 12"@
            },
        e is Open ==> out@ == "failed to open /dev/kvm: "@ + detail@,
        e matches KvmError::Ioctl(op, _) ==> out@ == "KVM ioctl "@ + op@ + " failed: "@ + detail@,
{
    if let KvmError::ApiTooOld(v) = *e {
        let digits = decimal(
            if v < 0 {
                (-v) as nat
            } else {
                v as nat
            },
        );
        law_decimals_read_back(
            if v < 0 {
                (-v) as nat
            } else {
                v as nat
            },
        );
        assert(out@ =~= "KVM API too old: "@ + (if v < 0 {
            seq!['-']
        } else {
            Seq::<char>::empty()
        }) + digits + " < 12"@);
    }
}

/// The message of an error that the OS gave quotes what the OS says of it.
pub proof fn law_messages_quote_the_os(e: &KvmError, out: String)
    requires
        call_ensures(KvmError::message, (e,), out),
    ensures
        e matches KvmError::ApiTooOld(v) ==> exists|digits: Seq<char>|
            {
                &&& #[trigger] read_digits(digits) == if v < 0 {
                    -v
                } else {
                    v as int
                }
                &&& out@ == "KVM API too old: "@ + (if v < 0 {
                    seq!['-']
                } else {
                    Seq::<char>::empty()
                }) + digits + " < 12"@
            },
        *e matches KvmError::Open(os) ==> exists|detail: String|
            #[trigger] vstd::string::to_string_from_display_ensures(&os, detail) && out@
                == "failed to open /dev/kvm: "@ + detail@,
        *e matches KvmError::Ioctl(op, os) ==> exists|detail: String|
            #[trigger] vstd::string::to_string_from_display_ensures(&os, detail) && out@
                == "KVM ioctl "@ + op@ + " failed: "@ + detail@,
{
    let detail = choose|detail: String|
        out@ == error_text(*e, #[trigger] detail@) && (match *e {
            KvmError::ApiTooOld(_) => true,
            KvmError::Open(os) => vstd::string::to_string_from_display_ensures(&os, detail),
            KvmError::Ioctl(_, os) => vstd::string::to_string_from_display_ensures(&os, detail),
        });
    match *e {
        KvmError::Open(os) => {
            assert(vstd::string::to_string_from_display_ensures(&os, detail));
        },
        KvmError::Ioctl(_, os) => {
            assert(vstd::string::to_string_from_display_ensures(&os, detail));
        },
        _ => {},
    }
    if let KvmError::ApiTooOld(v) = *e {
        let n = if v < 0 {
            (-v) as nat
        } else {
            v as nat
        };
        let digits = decimal(n);
        law_decimals_read_back(n);
        assert(read_digits(digits) == n);
        assert(out@ =~= "KVM API too old: "@ + (if v < 0 {
            seq!['-']
        } else {
            Seq::<char>::empty()
        }) + digits + " < 12"@);
    }
}

/// A machine for which KVM is selected is not executed yet.
pub proof fn law_a_selected_machine_is_left_alone<M>(vm: &mut M, exit: crate::vmexit::VmExit)
    requires
        call_ensures(crate::kvm::run::<M>, (vm,), exit),
    ensures
        exit == crate::vmexit::VmExit::Interrupted,
        *final(vm) == *old(vm),
{
}

/// Each ioctl is a number of KVM (0xAE in bits 8 to 15); one that carries a
/// structure carries its size in bits 16 to 29, and whether it is written or read
/// above that.
pub proof fn law_ioctls_carry_their_structures(
    sregs: &KvmSregs,
    special: Vec<u8>,
    regs: &KvmRegs,
    general: Vec<u8>,
    region: &KvmUserspaceMemoryRegion,
    slot: Vec<u8>,
)
    requires
        call_ensures(KvmSregs::to_bytes, (sregs,), special),
        call_ensures(KvmRegs::to_bytes, (regs,), general),
        call_ensures(KvmUserspaceMemoryRegion::to_bytes, (region,), slot),
    ensures
        crate::kvm::abi::KVM_SET_SREGS == 0x4000_AE84 + 0x1_0000 * special@.len(),
        crate::kvm::abi::KVM_SET_REGS == 0x4000_AE82 + 0x1_0000 * general@.len(),
        crate::kvm::abi::KVM_GET_REGS == 0x8000_AE81 + 0x1_0000 * general@.len(),
        crate::kvm::abi::KVM_SET_USER_MEMORY_REGION == 0x4000_AE46 + 0x1_0000 * slot@.len(),
        crate::kvm::abi::KVM_GET_API_VERSION == 0xAE00 && crate::kvm::abi::KVM_CREATE_VM == 0xAE01
            && crate::kvm::abi::KVM_CHECK_EXTENSION == 0xAE03
            && crate::kvm::abi::KVM_GET_VCPU_MMAP_SIZE == 0xAE04
            && crate::kvm::abi::KVM_CREATE_VCPU == 0xAE41 && crate::kvm::abi::KVM_RUN == 0xAE80,
        crate::kvm::vcpu::KVM_CAP_USER_MEMORY == 3 && crate::kvm::vcpu::MIN_API == 12,
{
}

} // verus!
