//! The segment and control registers of a flat long-mode guest.

use vstd::prelude::*;

use crate::kvm::abi::{KvmDtable, KvmSegment, KvmSregs};

verus! {

/// Control register bits: protected mode and paging in CR0, PAE in CR4, long
/// mode enabled and active in EFER.
pub const CR0_PE_PG: u64 = 0x8000_0001;

pub const CR4_PAE: u64 = 0x20;

pub const EFER_LME_LMA: u64 = 0x500;

pub const APIC_BASE: u64 = 0xfee0_0000;

/// A present, flat segment of the whole address space: 64-bit code, or
/// writable data.
pub open spec fn flat_segment(code: bool) -> KvmSegment {
    KvmSegment {
        base: 0,
        limit: 0xffff_ffff,
        selector: if code {
            0x10
        } else {
            0
        },
        type_: if code {
            0xb
        } else {
            0x3
        },
        present: 1,
        dpl: 0,
        db: 0,
        s: 1,
        l: if code {
            1
        } else {
            0
        },
        g: 1,
        avl: 0,
        unusable: 0,
        padding: 0,
    }
}

/// A segment register that must not be used.
pub open spec fn unusable_segment() -> KvmSegment {
    KvmSegment {
        base: 0,
        limit: 0,
        selector: 0,
        type_: 0,
        present: 0,
        dpl: 0,
        db: 0,
        s: 0,
        l: 0,
        g: 0,
        avl: 0,
        unusable: 1,
        padding: 0,
    }
}

pub open spec fn is_empty_table(t: KvmDtable) -> bool {
    t.base == 0 && t.limit == 0 && t.padding@ == seq![0u16, 0, 0]
}

/// `r` runs a flat long-mode guest on the page table at `cr3`.
pub open spec fn is_flat_sregs(r: KvmSregs, cr3: u64) -> bool {
    &&& r.cs == flat_segment(true)
    &&& r.ds == flat_segment(false)
    &&& r.es == flat_segment(false)
    &&& r.fs == flat_segment(false)
    &&& r.gs == flat_segment(false)
    &&& r.ss == flat_segment(false)
    &&& r.tr == unusable_segment()
    &&& r.ldt == unusable_segment()
    &&& is_empty_table(r.gdt)
    &&& is_empty_table(r.idt)
    &&& r.cr0 == CR0_PE_PG
    &&& r.cr2 == 0
    &&& r.cr3 == cr3
    &&& r.cr4 == CR4_PAE
    &&& r.cr8 == 0
    &&& r.efer == EFER_LME_LMA
    &&& r.apic_base == APIC_BASE
    &&& r.interrupt_bitmap@ == seq![0u64, 0, 0, 0]
}

fn flat_seg(code: bool) -> (seg: KvmSegment)
    ensures
        seg == flat_segment(code),
{
    KvmSegment {
        base: 0,
        limit: 0xffff_ffff,
        selector: if code {
            0x10
        } else {
            0
        },
        type_: if code {
            0xb
        } else {
            0x3
        },
        present: 1,
        dpl: 0,
        db: 0,
        s: 1,
        l: if code {
            1
        } else {
            0
        },
        g: 1,
        avl: 0,
        unusable: 0,
        padding: 0,
    }
}

fn unusable_seg() -> (seg: KvmSegment)
    ensures
        seg == unusable_segment(),
{
    KvmSegment {
        base: 0,
        limit: 0,
        selector: 0,
        type_: 0,
        present: 0,
        dpl: 0,
        db: 0,
        s: 0,
        l: 0,
        g: 0,
        avl: 0,
        unusable: 1,
        padding: 0,
    }
}

fn empty_table() -> (t: KvmDtable)
    ensures
        is_empty_table(t),
{
    let t = KvmDtable { base: 0, limit: 0, padding: [0, 0, 0] };
    assert(t.padding@ =~= seq![0u16, 0, 0]);
    t
}

/// Identity-mapped x86-64 long-mode segment and page registers for a flat
/// guest. `cr3` is the guest-physical address of the PML4 table.
pub fn flat_x86_64_sregs(cr3: u64) -> (r: KvmSregs)
    ensures
        is_flat_sregs(r, cr3),
{
    let r = KvmSregs {
        cs: flat_seg(true),
        ds: flat_seg(false),
        es: flat_seg(false),
        fs: flat_seg(false),
        gs: flat_seg(false),
        ss: flat_seg(false),
        tr: unusable_seg(),
        ldt: unusable_seg(),
        gdt: empty_table(),
        idt: empty_table(),
        cr0: CR0_PE_PG,
        cr2: 0,
        cr3,
        cr4: CR4_PAE,
        cr8: 0,
        efer: EFER_LME_LMA,
        apic_base: APIC_BASE,
        interrupt_bitmap: [0, 0, 0, 0],
    };
    assert(r.interrupt_bitmap@ =~= seq![0u64, 0, 0, 0]);
    r
}

} // verus!
