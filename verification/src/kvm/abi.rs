//! The structures handed to KVM, and their layout in memory.
//!
//! Each structure knows its own byte image, in the layout the kernel expects
//! on x86-64: little-endian fields in declaration order, with the padding
//! spelled out.

use vstd::prelude::*;

use crate::le::push_le;
#[allow(unused_imports)]
use crate::le::{le_at, le_bytes, lemma_le_bounds, lemma_le_bytes_len, lemma_le_round_trip};

verus! {

/// KVM ioctl numbers. Those without an argument structure are plain `_IO`
/// numbers, `(KVMIO << 8) | nr` with KVMIO = 0xAE; the others carry the size
/// of their structure in bits 16 to 29 and the direction above it.
pub const KVM_GET_API_VERSION: u64 = 0xAE00;

pub const KVM_CREATE_VM: u64 = 0xAE01;

pub const KVM_CHECK_EXTENSION: u64 = 0xAE03;

pub const KVM_GET_VCPU_MMAP_SIZE: u64 = 0xAE04;

pub const KVM_CREATE_VCPU: u64 = 0xAE41;

pub const KVM_SET_USER_MEMORY_REGION: u64 = 0x4020_AE46;

pub const KVM_RUN: u64 = 0xAE80;

pub const KVM_GET_REGS: u64 = 0x8090_AE81;

pub const KVM_SET_REGS: u64 = 0x4090_AE82;

pub const KVM_SET_SREGS: u64 = 0x4138_AE84;

/// Sizes of the structures, in bytes.
pub const KVM_SEGMENT_SIZE: usize = 24;

pub const KVM_DTABLE_SIZE: usize = 16;

pub const KVM_REGS_SIZE: usize = 144;

pub const KVM_SREGS_SIZE: usize = 312;

pub const KVM_MEMORY_REGION_SIZE: usize = 32;

/// The byte image of consecutive 64-bit words.
pub open spec fn words(w: Seq<u64>) -> Seq<u8>
    decreases w.len(),
{
    if w.len() == 0 {
        Seq::empty()
    } else {
        words(w.drop_last()) + le_bytes(w.last() as nat, 8)
    }
}

/// Word `i` of an image of words stands at byte `8 * i`.
pub proof fn lemma_words(w: Seq<u64>)
    ensures
        words(w).len() == 8 * w.len(),
        forall|i: int| 0 <= i < w.len() ==> le_at(words(w), 8 * i, 8) == #[trigger] w[i],
    decreases w.len(),
{
    if w.len() > 0 {
        let head = words(w.drop_last());
        let tail = le_bytes(w.last() as nat, 8);
        lemma_words(w.drop_last());
        lemma_le_bytes_len(w.last() as nat, 8);
        lemma_le_bounds();
        lemma_le_round_trip(w.last() as nat, 8);
        assert forall|i: int| 0 <= i < w.len() implies le_at(words(w), 8 * i, 8)
            == #[trigger] w[i] by {
            if i < w.len() - 1 {
                assert(w.drop_last()[i] == w[i]);
                assert((head + tail).subrange(8 * i, 8 * i + 8) =~= head.subrange(8 * i, 8 * i + 8));
            } else {
                assert((head + tail).subrange(8 * i, 8 * i + 8) =~= tail);
            }
        }
    }
}

fn push_words(out: &mut Vec<u8>, w: &[u64])
    ensures
        final(out)@ == old(out)@ + words(w@),
{
    let n: usize = w.len();
    let mut i: usize = 0;
    assert(w@.take(0) =~= Seq::<u64>::empty());
    while i < n
        invariant
            i <= n == w@.len(),
            out@ =~= old(out)@ + words(w@.take(i as int)),
        decreases n - i,
    {
        assert(w@.take(i + 1).drop_last() =~= w@.take(i as int));
        push_le(out, w[i], 8);
        i = i + 1;
    }
    assert(w@.take(n as int) =~= w@);
}

/// A segment register with its hidden part.
#[derive(Clone, Copy, Debug, PartialEq, Eq, Structural)]
pub struct KvmSegment {
    pub base: u64,
    pub limit: u32,
    pub selector: u16,
    pub type_: u8,
    pub present: u8,
    pub dpl: u8,
    pub db: u8,
    pub s: u8,
    pub l: u8,
    pub g: u8,
    pub avl: u8,
    pub unusable: u8,
    pub padding: u8,
}

impl KvmSegment {
    /// The thirteen fields' image: 8 + 4 + 2 + 10 single bytes.
    pub open spec fn bytes(self) -> Seq<u8> {
        le_bytes(self.base as nat, 8) + le_bytes(self.limit as nat, 4) + le_bytes(
            self.selector as nat,
            2,
        ) + seq![
            self.type_,
            self.present,
            self.dpl,
            self.db,
            self.s,
            self.l,
            self.g,
            self.avl,
            self.unusable,
            self.padding,
        ]
    }

    pub proof fn lemma_size(self)
        ensures
            self.bytes().len() == KVM_SEGMENT_SIZE,
    {
        lemma_le_bytes_len(self.base as nat, 8);
        lemma_le_bytes_len(self.limit as nat, 4);
        lemma_le_bytes_len(self.selector as nat, 2);
    }

    fn push_to(&self, out: &mut Vec<u8>)
        ensures
            final(out)@ == old(out)@ + self.bytes(),
    {
        push_le(out, self.base, 8);
        push_le(out, self.limit as u64, 4);
        push_le(out, self.selector as u64, 2);
        out.push(self.type_);
        out.push(self.present);
        out.push(self.dpl);
        out.push(self.db);
        out.push(self.s);
        out.push(self.l);
        out.push(self.g);
        out.push(self.avl);
        out.push(self.unusable);
        out.push(self.padding);
        assert(out@ =~= old(out)@ + self.bytes());
    }
}

/// A descriptor table register.
#[derive(Clone, Copy, Debug, PartialEq, Eq)]
pub struct KvmDtable {
    pub base: u64,
    pub limit: u16,
    pub padding: [u16; 3],
}

impl KvmDtable {
    pub open spec fn bytes(self) -> Seq<u8> {
        le_bytes(self.base as nat, 8) + le_bytes(self.limit as nat, 2) + le_bytes(
            self.padding[0] as nat,
            2,
        ) + le_bytes(self.padding[1] as nat, 2) + le_bytes(self.padding[2] as nat, 2)
    }

    pub proof fn lemma_size(self)
        ensures
            self.bytes().len() == KVM_DTABLE_SIZE,
    {
        lemma_le_bytes_len(self.base as nat, 8);
        lemma_le_bytes_len(self.limit as nat, 2);
        lemma_le_bytes_len(self.padding[0] as nat, 2);
        lemma_le_bytes_len(self.padding[1] as nat, 2);
        lemma_le_bytes_len(self.padding[2] as nat, 2);
    }

    fn push_to(&self, out: &mut Vec<u8>)
        ensures
            final(out)@ == old(out)@ + self.bytes(),
    {
        push_le(out, self.base, 8);
        push_le(out, self.limit as u64, 2);
        push_le(out, self.padding[0] as u64, 2);
        push_le(out, self.padding[1] as u64, 2);
        push_le(out, self.padding[2] as u64, 2);
        assert(out@ =~= old(out)@ + self.bytes());
    }
}

/// The segment, descriptor table and control registers.
#[derive(Clone, Copy, Debug, PartialEq, Eq)]
pub struct KvmSregs {
    pub cs: KvmSegment,
    pub ds: KvmSegment,
    pub es: KvmSegment,
    pub fs: KvmSegment,
    pub gs: KvmSegment,
    pub ss: KvmSegment,
    pub tr: KvmSegment,
    pub ldt: KvmSegment,
    pub gdt: KvmDtable,
    pub idt: KvmDtable,
    pub cr0: u64,
    pub cr2: u64,
    pub cr3: u64,
    pub cr4: u64,
    pub cr8: u64,
    pub efer: u64,
    pub apic_base: u64,
    pub interrupt_bitmap: [u64; 4],
}

impl KvmSregs {
    pub open spec fn segment_bytes(self) -> Seq<u8> {
        self.cs.bytes() + self.ds.bytes() + self.es.bytes() + self.fs.bytes() + self.gs.bytes()
            + self.ss.bytes() + self.tr.bytes() + self.ldt.bytes()
    }

    pub open spec fn table_bytes(self) -> Seq<u8> {
        self.gdt.bytes() + self.idt.bytes()
    }

    /// The words that follow the descriptor tables.
    pub open spec fn control_words(self) -> Seq<u64> {
        seq![
            self.cr0,
            self.cr2,
            self.cr3,
            self.cr4,
            self.cr8,
            self.efer,
            self.apic_base,
            self.interrupt_bitmap[0],
            self.interrupt_bitmap[1],
            self.interrupt_bitmap[2],
            self.interrupt_bitmap[3],
        ]
    }

    pub open spec fn bytes(self) -> Seq<u8> {
        self.segment_bytes() + self.table_bytes() + words(self.control_words())
    }

    /// The image that `KVM_SET_SREGS` takes.
    pub fn to_bytes(&self) -> (out: Vec<u8>)
        ensures
            out@ == self.bytes(),
            out@.len() == KVM_SREGS_SIZE,
    {
        let mut out: Vec<u8> = Vec::new();
        self.cs.push_to(&mut out);
        self.ds.push_to(&mut out);
        self.es.push_to(&mut out);
        self.fs.push_to(&mut out);
        self.gs.push_to(&mut out);
        self.ss.push_to(&mut out);
        self.tr.push_to(&mut out);
        self.ldt.push_to(&mut out);
        assert(out@ =~= self.segment_bytes());
        self.gdt.push_to(&mut out);
        self.idt.push_to(&mut out);
        assert(out@ =~= self.segment_bytes() + self.table_bytes());
        let control: [u64; 11] = [
            self.cr0,
            self.cr2,
            self.cr3,
            self.cr4,
            self.cr8,
            self.efer,
            self.apic_base,
            self.interrupt_bitmap[0],
            self.interrupt_bitmap[1],
            self.interrupt_bitmap[2],
            self.interrupt_bitmap[3],
        ];
        assert(control@ =~= self.control_words());
        push_words(&mut out, control.as_slice());
        proof {
            law_sregs_layout(*self);
        }
        out
    }
}

/// The image of the special registers is 312 bytes long; the segments, 24
/// bytes each, start at 0, the descriptor tables at 192 and 208, and the
/// control registers at 224.
pub proof fn law_sregs_layout(r: KvmSregs)
    ensures
        r.bytes().len() == KVM_SREGS_SIZE,
        r.bytes().subrange(0, 24) == r.cs.bytes(),
        r.bytes().subrange(24, 48) == r.ds.bytes(),
        r.bytes().subrange(48, 72) == r.es.bytes(),
        r.bytes().subrange(72, 96) == r.fs.bytes(),
        r.bytes().subrange(96, 120) == r.gs.bytes(),
        r.bytes().subrange(120, 144) == r.ss.bytes(),
        r.bytes().subrange(144, 168) == r.tr.bytes(),
        r.bytes().subrange(168, 192) == r.ldt.bytes(),
        r.bytes().subrange(192, 208) == r.gdt.bytes(),
        r.bytes().subrange(208, 224) == r.idt.bytes(),
        le_at(r.bytes(), 224, 8) == r.cr0,
        le_at(r.bytes(), 232, 8) == r.cr2,
        le_at(r.bytes(), 240, 8) == r.cr3,
        le_at(r.bytes(), 248, 8) == r.cr4,
        le_at(r.bytes(), 256, 8) == r.cr8,
        le_at(r.bytes(), 264, 8) == r.efer,
        le_at(r.bytes(), 272, 8) == r.apic_base,
        forall|i: int|
            0 <= i < 4 ==> le_at(r.bytes(), 280 + 8 * i, 8) == #[trigger] r.interrupt_bitmap[i],
{
    r.cs.lemma_size();
    r.ds.lemma_size();
    r.es.lemma_size();
    r.fs.lemma_size();
    r.gs.lemma_size();
    r.ss.lemma_size();
    r.tr.lemma_size();
    r.ldt.lemma_size();
    r.gdt.lemma_size();
    r.idt.lemma_size();
    let w = r.control_words();
    lemma_words(w);
    let head = r.segment_bytes() + r.table_bytes();
    assert(head.len() == 224);
    assert forall|i: int| 0 <= i < 11 implies le_at(r.bytes(), 224 + 8 * i, 8) == #[trigger] w[i] by {
        assert(r.bytes().subrange(224 + 8 * i, 224 + 8 * i + 8) =~= words(w).subrange(
            8 * i,
            8 * i + 8,
        ));
    }
    assert(w[0] == r.cr0 && w[1] == r.cr2 && w[2] == r.cr3 && w[3] == r.cr4 && w[4] == r.cr8
        && w[5] == r.efer && w[6] == r.apic_base);
    assert forall|i: int| 0 <= i < 4 implies le_at(r.bytes(), 280 + 8 * i, 8)
        == #[trigger] r.interrupt_bitmap[i] by {
        assert(w[7 + i] == r.interrupt_bitmap[i]);
        assert(224 + 8 * (7 + i) == 280 + 8 * i);
    }
}

/// The general purpose registers, in the kernel's order.
#[derive(Clone, Copy, Debug, PartialEq, Eq, Structural)]
pub struct KvmRegs {
    pub rax: u64,
    pub rbx: u64,
    pub rcx: u64,
    pub rdx: u64,
    pub rsi: u64,
    pub rdi: u64,
    pub rsp: u64,
    pub rbp: u64,
    pub r8: u64,
    pub r9: u64,
    pub r10: u64,
    pub r11: u64,
    pub r12: u64,
    pub r13: u64,
    pub r14: u64,
    pub r15: u64,
    pub rip: u64,
    pub rflags: u64,
}

impl KvmRegs {
    pub open spec fn as_words(self) -> Seq<u64> {
        seq![
            self.rax,
            self.rbx,
            self.rcx,
            self.rdx,
            self.rsi,
            self.rdi,
            self.rsp,
            self.rbp,
            self.r8,
            self.r9,
            self.r10,
            self.r11,
            self.r12,
            self.r13,
            self.r14,
            self.r15,
            self.rip,
            self.rflags,
        ]
    }

    pub open spec fn bytes(self) -> Seq<u8> {
        words(self.as_words())
    }

    /// The registers of a guest about to execute its first instruction at
    /// `entry_rip`: everything clear, interrupts off. Bit 1 of the flags is
    /// reserved and always set.
    pub fn at_entry(entry_rip: u64) -> (r: KvmRegs)
        ensures
            is_entry_regs(r, entry_rip),
    {
        KvmRegs {
            rax: 0,
            rbx: 0,
            rcx: 0,
            rdx: 0,
            rsi: 0,
            rdi: 0,
            rsp: 0,
            rbp: 0,
            r8: 0,
            r9: 0,
            r10: 0,
            r11: 0,
            r12: 0,
            r13: 0,
            r14: 0,
            r15: 0,
            rip: entry_rip,
            rflags: 0x2,
        }
    }

    /// The image that `KVM_SET_REGS` takes.
    pub fn to_bytes(&self) -> (out: Vec<u8>)
        ensures
            out@ == self.bytes(),
            out@.len() == KVM_REGS_SIZE,
    {
        let w: [u64; 18] = [
            self.rax,
            self.rbx,
            self.rcx,
            self.rdx,
            self.rsi,
            self.rdi,
            self.rsp,
            self.rbp,
            self.r8,
            self.r9,
            self.r10,
            self.r11,
            self.r12,
            self.r13,
            self.r14,
            self.r15,
            self.rip,
            self.rflags,
        ];
        assert(w@ =~= self.as_words());
        let mut out: Vec<u8> = Vec::new();
        push_words(&mut out, w.as_slice());
        assert(out@ =~= self.bytes());
        proof {
            lemma_words(self.as_words());
        }
        out
    }
}

/// `r` starts a guest at `entry_rip`: all general purpose registers clear, and
/// in the flags nothing but the reserved bit.
pub open spec fn is_entry_regs(r: KvmRegs, entry_rip: u64) -> bool {
    &&& r.rip == entry_rip
    &&& r.rflags == 0x2
    &&& forall|i: int| 0 <= i < 16 ==> #[trigger] r.as_words()[i] == 0
}

/// The image of the general purpose registers is 18 words long: register `i`
/// stands at byte `8 * i`.
pub proof fn law_regs_layout(r: KvmRegs)
    ensures
        r.bytes().len() == KVM_REGS_SIZE,
        forall|i: int| 0 <= i < 18 ==> le_at(r.bytes(), 8 * i, 8) == #[trigger] r.as_words()[i],
        le_at(r.bytes(), 128, 8) == r.rip,
        le_at(r.bytes(), 136, 8) == r.rflags,
{
    lemma_words(r.as_words());
    assert(r.as_words()[16] == r.rip);
    assert(r.as_words()[17] == r.rflags);
}

/// A memory slot: where guest memory lies in guest-physical space, and which
/// host buffer backs it.
#[derive(Clone, Copy, Debug, PartialEq, Eq, Structural)]
pub struct KvmUserspaceMemoryRegion {
    pub slot: u32,
    pub flags: u32,
    pub guest_phys_addr: u64,
    pub memory_size: u64,
    pub userspace_addr: u64,
}

impl KvmUserspaceMemoryRegion {
    pub open spec fn bytes(self) -> Seq<u8> {
        le_bytes(self.slot as nat, 4) + le_bytes(self.flags as nat, 4) + words(
            seq![self.guest_phys_addr, self.memory_size, self.userspace_addr],
        )
    }

    /// The image that `KVM_SET_USER_MEMORY_REGION` takes.
    pub fn to_bytes(&self) -> (out: Vec<u8>)
        ensures
            out@ == self.bytes(),
            out@.len() == KVM_MEMORY_REGION_SIZE,
    {
        let mut out: Vec<u8> = Vec::new();
        push_le(&mut out, self.slot as u64, 4);
        push_le(&mut out, self.flags as u64, 4);
        let w: [u64; 3] = [self.guest_phys_addr, self.memory_size, self.userspace_addr];
        assert(w@ =~= seq![self.guest_phys_addr, self.memory_size, self.userspace_addr]);
        push_words(&mut out, w.as_slice());
        assert(out@ =~= self.bytes());
        proof {
            law_memory_region_layout(*self);
        }
        out
    }
}

/// The image of a memory slot is 32 bytes long: two 32-bit fields, then the
/// guest address at 8, the size at 16 and the host address at 24.
pub proof fn law_memory_region_layout(r: KvmUserspaceMemoryRegion)
    ensures
        r.bytes().len() == KVM_MEMORY_REGION_SIZE,
        le_at(r.bytes(), 0, 4) == r.slot,
        le_at(r.bytes(), 4, 4) == r.flags,
        le_at(r.bytes(), 8, 8) == r.guest_phys_addr,
        le_at(r.bytes(), 16, 8) == r.memory_size,
        le_at(r.bytes(), 24, 8) == r.userspace_addr,
{
    let w = seq![r.guest_phys_addr, r.memory_size, r.userspace_addr];
    lemma_words(w);
    lemma_le_bytes_len(r.slot as nat, 4);
    lemma_le_bytes_len(r.flags as nat, 4);
    lemma_le_bounds();
    lemma_le_round_trip(r.slot as nat, 4);
    lemma_le_round_trip(r.flags as nat, 4);
    assert(r.bytes().subrange(0, 4) =~= le_bytes(r.slot as nat, 4));
    assert(r.bytes().subrange(4, 8) =~= le_bytes(r.flags as nat, 4));
    assert forall|i: int| 0 <= i < 3 implies le_at(r.bytes(), 8 + 8 * i, 8) == #[trigger] w[i] by {
        assert(r.bytes().subrange(8 + 8 * i, 8 + 8 * i + 8) =~= words(w).subrange(
            8 * i,
            8 * i + 8,
        ));
    }
    assert(w[0] == r.guest_phys_addr && w[1] == r.memory_size && w[2] == r.userspace_addr);
}

} // verus!
