//! The identity page table of a flat long-mode guest.

use vstd::prelude::*;

use crate::le::write_u64;
#[allow(unused_imports)]
use crate::le::{le_at, le_bytes, lemma_le_bounds, lemma_le_bytes_len, lemma_le_round_trip, splice};

verus! {

/// Size of one table, and the number of its entries.
pub const TABLE_SIZE: usize = 0x1000;

pub const TABLE_ENTRIES: u64 = 512;

/// A huge page.
pub const PAGE_2M: u64 = 0x20_0000;

/// How much of guest RAM is mapped at most: what one directory spans.
pub const MAX_MAPPED: u64 = 0x4000_0000;

/// Present and writable.
pub const TABLE_FLAGS: u64 = 0x03;

/// Present, writable, and a huge page (PS).
pub const HUGE_FLAGS: u64 = 0x83;

/// Where the tables lie in `len` bytes of guest RAM: in its last pages, so that
/// they never collide with firmware mapped at low guest addresses.
pub open spec fn pml4_at(len: nat) -> int {
    len - 0x3000
}

pub open spec fn pdp_at(len: nat) -> int {
    len - 0x2000
}

pub open spec fn pd_at(len: nat) -> int {
    len - 0x1000
}

/// Where the second directory lies, of RAM that crosses a GiB boundary.
pub open spec fn next_pd_at(len: nat) -> int {
    len - 0x4000
}

/// Where the second directory pointer table lies, of RAM that crosses a 512 GiB
/// boundary.
pub open spec fn next_pdp_at(len: nat) -> int {
    len - 0x5000
}

/// Entry `i` of the table at `table` in `ram`.
pub open spec fn entry(ram: Seq<u8>, table: int, i: int) -> nat {
    le_at(ram, table + 8 * i, 8)
}

/// The number of the huge page that holds the guest address `base`.
pub open spec fn first_page(base: nat) -> int {
    base as int / (PAGE_2M as int)
}

/// The directory that a huge page belongs to, and the directory pointer table
/// that a directory belongs to, counted from guest address 0.
pub open spec fn directory(page: int) -> int {
    page / (TABLE_ENTRIES as int)
}

pub open spec fn pointer_table(dir: int) -> int {
    dir / (TABLE_ENTRIES as int)
}

/// How many huge pages cover the `span` bytes of guest RAM at `base`, or the
/// first GiB of them if there are more.
pub open spec fn huge_pages(base: nat, span: nat) -> nat {
    let mapped = if span < MAX_MAPPED {
        span as int
    } else {
        MAX_MAPPED as int
    };
    if mapped == 0 {
        0
    } else {
        ((base + mapped - 1) / (PAGE_2M as int) - first_page(base) + 1) as nat
    }
}

/// The `n` huge pages from `base` on go past the end of a directory.
pub open spec fn needs_next_pd(base: nat, n: nat) -> bool {
    first_page(base) % (TABLE_ENTRIES as int) + n > TABLE_ENTRIES
}

/// They go past the end of a directory pointer table as well.
pub open spec fn needs_next_pdp(base: nat, n: nat) -> bool {
    needs_next_pd(base, n) && directory(first_page(base)) % (TABLE_ENTRIES as int) == TABLE_ENTRIES
        - 1
}

/// How many bytes the tables take from the end of guest RAM.
pub open spec fn tables_size(base: nat, n: nat) -> int {
    if needs_next_pdp(base, n) {
        0x5000
    } else if needs_next_pd(base, n) {
        0x4000
    } else {
        0x3000
    }
}

/// An entry that points to the table at guest-physical address `table`.
pub open spec fn table_entry(table: int) -> nat {
    (table as u64 | TABLE_FLAGS) as nat
}

/// The entries of the tables for `len` bytes of guest RAM at `base`, with `n`
/// huge pages mapped: of the top table,
pub open spec fn pml4_entry(base: nat, len: nat, n: nat, i: int) -> nat {
    let t = pointer_table(directory(first_page(base)));
    if i == t % (TABLE_ENTRIES as int) {
        table_entry(base + pdp_at(len))
    } else if needs_next_pdp(base, n) && i == (t + 1) % (TABLE_ENTRIES as int) {
        table_entry(base + next_pdp_at(len))
    } else {
        0
    }
}

/// of directory pointer table `t`,
pub open spec fn pdp_entry(base: nat, len: nat, n: nat, t: int, i: int) -> nat {
    let d = directory(first_page(base));
    if t * TABLE_ENTRIES + i == d {
        table_entry(base + pd_at(len))
    } else if needs_next_pd(base, n) && t * TABLE_ENTRIES + i == d + 1 {
        table_entry(base + next_pd_at(len))
    } else {
        0
    }
}

/// and of directory `d`.
pub open spec fn pd_entry(base: nat, n: nat, d: int, i: int) -> nat {
    let page = d * TABLE_ENTRIES + i;
    if first_page(base) <= page < first_page(base) + n {
        (page * PAGE_2M + HUGE_FLAGS) as nat
    } else {
        0
    }
}

/// `ram`, which lies at guest address `base`, holds the tables, with `n` huge
/// pages mapped from the one that holds `base` on.
pub open spec fn holds_identity_map(ram: Seq<u8>, base: nat, n: nat) -> bool {
    let len = ram.len();
    let d = directory(first_page(base));
    let t = pointer_table(d);
    &&& len >= tables_size(base, n)
    &&& forall|i: int|
        0 <= i < TABLE_ENTRIES ==> #[trigger] entry(ram, pml4_at(len), i) == pml4_entry(
            base,
            len,
            n,
            i,
        )
    &&& forall|i: int|
        0 <= i < TABLE_ENTRIES ==> #[trigger] entry(ram, pdp_at(len), i) == pdp_entry(
            base,
            len,
            n,
            t,
            i,
        )
    &&& forall|i: int|
        0 <= i < TABLE_ENTRIES ==> #[trigger] entry(ram, pd_at(len), i) == pd_entry(base, n, d, i)
    &&& needs_next_pd(base, n) ==> forall|i: int|
        0 <= i < TABLE_ENTRIES ==> #[trigger] entry(ram, next_pd_at(len), i) == pd_entry(
            base,
            n,
            d + 1,
            i,
        )
    &&& needs_next_pdp(base, n) ==> forall|i: int|
        0 <= i < TABLE_ENTRIES ==> #[trigger] entry(ram, next_pdp_at(len), i) == pdp_entry(
            base,
            len,
            n,
            t + 1,
            i,
        )
}

/// `after` differs from `before` at most in the bytes from `lo` to `hi`.
pub open spec fn same_outside(before: Seq<u8>, after: Seq<u8>, lo: int, hi: int) -> bool {
    &&& after.len() == before.len()
    &&& forall|i: int|
        0 <= i < before.len() && !(lo <= i < hi) ==> #[trigger] after[i] == before[i]
}

/// Writing one entry leaves every other entry alone.
proof fn lemma_write_entry(ram: Seq<u8>, at: int, v: u64)
    requires
        0 <= at,
        at + 8 <= ram.len(),
    ensures
        le_at(splice(ram, at, le_bytes(v as nat, 8)), at, 8) == v,
        same_outside(ram, splice(ram, at, le_bytes(v as nat, 8)), at, at + 8),
{
    let b = le_bytes(v as nat, 8);
    lemma_le_bytes_len(v as nat, 8);
    lemma_le_bounds();
    lemma_le_round_trip(v as nat, 8);
    assert(splice(ram, at, b).subrange(at, at + 8) =~= b);
}

/// Entries outside the changed bytes keep their value.
proof fn lemma_entry_kept(before: Seq<u8>, after: Seq<u8>, lo: int, hi: int, table: int, i: int)
    requires
        same_outside(before, after, lo, hi),
        0 <= table + 8 * i,
        table + 8 * i + 8 <= before.len(),
        table + 8 * i + 8 <= lo || hi <= table + 8 * i,
    ensures
        entry(after, table, i) == entry(before, table, i),
{
    let at = table + 8 * i;
    assert(after.subrange(at, at + 8) =~= before.subrange(at, at + 8));
}

/// Tables outside the changed bytes keep all their entries.
proof fn lemma_table_kept(before: Seq<u8>, after: Seq<u8>, lo: int, hi: int, table: int)
    requires
        same_outside(before, after, lo, hi),
        0 <= table,
        table + TABLE_SIZE <= before.len(),
        table + TABLE_SIZE <= lo || hi <= table,
    ensures
        forall|i: int|
            0 <= i < TABLE_ENTRIES ==> #[trigger] entry(after, table, i) == entry(before, table, i),
{
    assert forall|i: int| 0 <= i < TABLE_ENTRIES implies #[trigger] entry(after, table, i) == entry(
        before,
        table,
        i,
    ) by {
        lemma_entry_kept(before, after, lo, hi, table, i);
    }
}

/// Sets entry `i` of the table at `table`.
fn set_entry(ram: &mut [u8], table: usize, i: u64, v: u64)
    requires
        i < TABLE_ENTRIES,
        table + TABLE_SIZE <= old(ram)@.len(),
    ensures
        entry(final(ram)@, table as int, i as int) == v,
        same_outside(old(ram)@, final(ram)@, table + 8 * i, table + 8 * i + 8),
{
    proof {
        lemma_write_entry(old(ram)@, table + 8 * i, v);
    }
    let len: usize = ram.len();
    assert(table + 8 * i + 8 <= len);
    write_u64(ram, table + 8 * (i as usize), v);
}

/// Clears the table at `table`.
fn clear_table(ram: &mut [u8], table: usize)
    requires
        table + TABLE_SIZE <= old(ram)@.len(),
    ensures
        forall|i: int|
            0 <= i < TABLE_ENTRIES ==> #[trigger] entry(final(ram)@, table as int, i) == 0,
        same_outside(old(ram)@, final(ram)@, table as int, table + TABLE_SIZE),
{
    let mut k: u64 = 0;
    while k < TABLE_ENTRIES
        invariant
            k <= TABLE_ENTRIES,
            table + TABLE_SIZE <= ram@.len(),
            forall|i: int| 0 <= i < k ==> #[trigger] entry(ram@, table as int, i) == 0,
            same_outside(old(ram)@, ram@, table as int, table + TABLE_SIZE),
        decreases TABLE_ENTRIES - k,
    {
        let ghost before = ram@;
        set_entry(ram, table, k, 0);
        proof {
            assert forall|i: int| 0 <= i < k + 1 implies #[trigger] entry(
                ram@,
                table as int,
                i,
            ) == 0 by {
                if i < k {
                    assert(entry(before, table as int, i) == 0);
                    lemma_entry_kept(
                        before,
                        ram@,
                        table + 8 * k,
                        table + 8 * k + 8,
                        table as int,
                        i,
                    );
                }
            }
        }
        k = k + 1;
    }
}

/// Entry `k` of a table with `v` at entry `i`, and what `more` says at another
/// one.
spec fn pointer_entry(i: u64, v: u64, more: Option<(u64, u64)>, k: int) -> nat {
    match more {
        _ if k == i => v as nat,
        Some((j, w)) if k == j => w as nat,
        _ => 0,
    }
}

/// Fills the table at `table` with pointers: `v` at entry `i`, and what `more`
/// says at another one.
fn write_pointers(ram: &mut [u8], table: usize, i: u64, v: u64, more: Option<(u64, u64)>)
    requires
        table + TABLE_SIZE <= old(ram)@.len(),
        i < TABLE_ENTRIES,
        more matches Some((j, _)) ==> j < TABLE_ENTRIES && j != i,
    ensures
        forall|k: int|
            0 <= k < TABLE_ENTRIES ==> #[trigger] entry(final(ram)@, table as int, k)
                == pointer_entry(i, v, more, k),
        same_outside(old(ram)@, final(ram)@, table as int, table + TABLE_SIZE),
{
    clear_table(ram, table);
    let ghost r1 = ram@;
    set_entry(ram, table, i, v);
    let ghost r2 = ram@;
    if let Some((j, w)) = more {
        set_entry(ram, table, j, w);
    }
    proof {
        assert forall|k: int| 0 <= k < TABLE_ENTRIES implies #[trigger] entry(
            ram@,
            table as int,
            k,
        ) == pointer_entry(i, v, more, k) by {
            if k != i {
                assert(entry(r1, table as int, k) == 0);
                lemma_entry_kept(r1, r2, table + 8 * i, table + 8 * i + 8, table as int, k);
            }
            if let Some((j, _)) = more {
                if k != j {
                    lemma_entry_kept(r2, ram@, table + 8 * j, table + 8 * j + 8, table as int, k);
                }
            }
        }
    }
}

/// Fills the table at `table` with huge pages: the entries from `lo` to `hi`
/// map the pages numbered from `first` on.
fn write_pages(ram: &mut [u8], table: usize, lo: u64, hi: u64, first: u64)
    requires
        table + TABLE_SIZE <= old(ram)@.len(),
        lo <= hi <= TABLE_ENTRIES,
        (first + hi - lo) * PAGE_2M <= 0x1_0000_0000_0000_0000,
    ensures
        forall|k: int|
            0 <= k < TABLE_ENTRIES ==> #[trigger] entry(final(ram)@, table as int, k) == if lo <= k
                < hi {
                ((first + k - lo) * PAGE_2M + HUGE_FLAGS) as nat
            } else {
                0
            },
        same_outside(old(ram)@, final(ram)@, table as int, table + TABLE_SIZE),
{
    clear_table(ram, table);
    let mut k: u64 = lo;
    while k < hi
        invariant
            lo <= k <= hi <= TABLE_ENTRIES,
            (first + hi - lo) * PAGE_2M <= 0x1_0000_0000_0000_0000,
            table + TABLE_SIZE <= ram@.len(),
            forall|i: int|
                0 <= i < TABLE_ENTRIES ==> #[trigger] entry(ram@, table as int, i) == if lo <= i
                    < k {
                    ((first + i - lo) * PAGE_2M + HUGE_FLAGS) as nat
                } else {
                    0
                },
            same_outside(old(ram)@, ram@, table as int, table + TABLE_SIZE),
        decreases hi - k,
    {
        let ghost before = ram@;
        let addr: u64 = (first + (k - lo)) * PAGE_2M;
        let v: u64 = addr | HUGE_FLAGS;
        assert(v == addr + 0x83) by (bit_vector)
            requires
                v == addr | 0x83,
                addr % 0x20_0000 == 0,
        ;
        set_entry(ram, table, k, v);
        proof {
            assert forall|i: int| 0 <= i < TABLE_ENTRIES implies #[trigger] entry(
                ram@,
                table as int,
                i,
            ) == if lo <= i < k + 1 {
                ((first + i - lo) * PAGE_2M + HUGE_FLAGS) as nat
            } else {
                0
            } by {
                if i != k {
                    lemma_entry_kept(
                        before,
                        ram@,
                        table + 8 * k,
                        table + 8 * k + 8,
                        table as int,
                        i,
                    );
                }
            }
        }
        k = k + 1;
    }
}

/// The number of huge pages that cover the `span` bytes at `base`, or the first
/// GiB of them.
pub fn huge_page_count(base: u64, span: u64) -> (n: u64)
    requires
        base + span <= 0x1_0000_0000_0000_0000,
    ensures
        n == huge_pages(base as nat, span as nat),
        n <= TABLE_ENTRIES + 1,
        (first_page(base as nat) + n) * PAGE_2M <= 0x1_0000_0000_0000_0000,
{
    let mapped: u64 = if span < MAX_MAPPED {
        span
    } else {
        MAX_MAPPED
    };
    if mapped == 0 {
        return 0;
    }
    let last: u64 = base + (mapped - 1);
    last / PAGE_2M - base / PAGE_2M + 1
}

/// How many bytes the tables take from the end of the `span` bytes of guest RAM
/// at `base`.
pub fn tables_len(base: u64, span: u64) -> (size: usize)
    requires
        base + span <= 0x1_0000_0000_0000_0000,
    ensures
        size == tables_size(base as nat, huge_pages(base as nat, span as nat)),
{
    let n: u64 = huge_page_count(base, span);
    let first: u64 = base / PAGE_2M;
    if first % TABLE_ENTRIES + n <= TABLE_ENTRIES {
        0x3000
    } else if (first / TABLE_ENTRIES) % TABLE_ENTRIES < TABLE_ENTRIES - 1 {
        0x4000
    } else {
        0x5000
    }
}

/// Writes the identity page table for the guest RAM `ram`, which lies at guest
/// address `base`, into its end: huge pages that cover the RAM, or the first
/// GiB of it, and nothing else, so that any other address traps.
#[verifier::spinoff_prover]
#[verifier::rlimit(40)]
pub fn write_identity_map(ram: &mut [u8], base: u64)
    requires
        base + old(ram)@.len() <= 0x1_0000_0000_0000_0000,
        old(ram)@.len() >= tables_size(base as nat, huge_pages(base as nat, old(ram)@.len())),
    ensures
        holds_identity_map(
            final(ram)@,
            base as nat,
            huge_pages(base as nat, old(ram)@.len()),
        ),
        same_outside(
            old(ram)@,
            final(ram)@,
            old(ram)@.len() - tables_size(base as nat, huge_pages(base as nat, old(ram)@.len())),
            old(ram)@.len() as int,
        ),
{
    let len: usize = ram.len();
    let n: u64 = huge_page_count(base, len as u64);
    let size: usize = tables_len(base, len as u64);
    let ghost b = base as nat;
    let pml4: usize = len - 0x3000;
    let pdp: usize = len - 0x2000;
    let pd: usize = len - 0x1000;
    // Where the first page stands in its directory, that in its pointer table,
    // and that in the top table.
    let first: u64 = base / PAGE_2M;
    let i2: u64 = first % TABLE_ENTRIES;
    let i3: u64 = (first / TABLE_ENTRIES) % TABLE_ENTRIES;
    let i4: u64 = (first / TABLE_ENTRIES / TABLE_ENTRIES) % TABLE_ENTRIES;
    let ghost d = directory(first_page(b));
    let ghost t = pointer_table(d);
    let ghost r0 = ram@;
    let end: u64 = if i2 + n <= TABLE_ENTRIES {
        i2 + n
    } else {
        TABLE_ENTRIES
    };
    write_pages(ram, pd, i2, end, first);
    let ghost r1 = ram@;
    if size > 0x3000 {
        write_pages(ram, len - 0x4000, 0, i2 + n - TABLE_ENTRIES, first + (TABLE_ENTRIES - i2));
    }
    let ghost r2 = ram@;
    let next_pd: Option<(u64, u64)> = if size == 0x4000 {
        Some((i3 + 1, (base + (len - 0x4000) as u64) | TABLE_FLAGS))
    } else {
        None
    };
    write_pointers(ram, pdp, i3, (base + pd as u64) | TABLE_FLAGS, next_pd);
    let ghost r3 = ram@;
    let next_pdp: Option<(u64, u64)> = if size == 0x5000 {
        write_pointers(
            ram,
            len - 0x5000,
            0,
            (base + (len - 0x4000) as u64) | TABLE_FLAGS,
            None,
        );
        Some(((i4 + 1) % TABLE_ENTRIES, (base + (len - 0x5000) as u64) | TABLE_FLAGS))
    } else {
        None
    };
    let ghost r4 = ram@;
    write_pointers(ram, pml4, i4, (base + pdp as u64) | TABLE_FLAGS, next_pdp);
    proof {
        let r5 = ram@;
        let len = len as nat;
        let n = n as nat;
        // What each table held when it was written, it holds at the end.
        if needs_next_pd(b, n) {
            lemma_table_kept(r1, r2, next_pd_at(len), next_pd_at(len) + 0x1000, pd_at(len));
            lemma_table_kept(r2, r3, pdp_at(len), pdp_at(len) + 0x1000, next_pd_at(len));
            lemma_table_kept(r4, r5, pml4_at(len), pml4_at(len) + 0x1000, next_pd_at(len));
        }
        lemma_table_kept(r2, r3, pdp_at(len), pdp_at(len) + 0x1000, pd_at(len));
        if needs_next_pdp(b, n) {
            let lo = next_pdp_at(len);
            lemma_table_kept(r3, r4, lo, lo + 0x1000, pd_at(len));
            lemma_table_kept(r3, r4, lo, lo + 0x1000, next_pd_at(len));
            lemma_table_kept(r3, r4, lo, lo + 0x1000, pdp_at(len));
            lemma_table_kept(r4, r5, pml4_at(len), pml4_at(len) + 0x1000, lo);
        }
        lemma_table_kept(r4, r5, pml4_at(len), pml4_at(len) + 0x1000, pd_at(len));
        lemma_table_kept(r4, r5, pml4_at(len), pml4_at(len) + 0x1000, pdp_at(len));
        assert(first == d * 512 + i2 && d == t * 512 + i3);
        assert forall|i: int| 0 <= i < TABLE_ENTRIES implies #[trigger] entry(r5, pd_at(len), i)
            == pd_entry(b, n, d, i) by {
            assert(entry(r1, pd_at(len), i) == entry(r5, pd_at(len), i));
        }
        if needs_next_pd(b, n) {
            assert forall|i: int| 0 <= i < TABLE_ENTRIES implies #[trigger] entry(
                r5,
                next_pd_at(len),
                i,
            ) == pd_entry(b, n, d + 1, i) by {
                assert(entry(r2, next_pd_at(len), i) == entry(r5, next_pd_at(len), i));
            }
        }
        assert forall|i: int| 0 <= i < TABLE_ENTRIES implies #[trigger] entry(r5, pdp_at(len), i)
            == pdp_entry(b, len, n, t, i) by {
            assert(entry(r3, pdp_at(len), i) == entry(r5, pdp_at(len), i));
        }
        if needs_next_pdp(b, n) {
            assert forall|i: int| 0 <= i < TABLE_ENTRIES implies #[trigger] entry(
                r5,
                next_pdp_at(len),
                i,
            ) == pdp_entry(b, len, n, t + 1, i) by {
                assert(entry(r4, next_pdp_at(len), i) == entry(r5, next_pdp_at(len), i));
            }
        }
        let lo = len - size;
        assert(same_outside(r0, r1, lo, len as int));
        assert(same_outside(r1, r2, lo, len as int));
        assert(same_outside(r2, r3, lo, len as int));
        assert(same_outside(r3, r4, lo, len as int));
        assert(same_outside(r4, r5, lo, len as int));
    }
}

/// A table entry with its present bit set.
pub open spec fn is_present(e: nat) -> bool {
    e % 2 == 1
}

/// An entry with its writable bit set.
pub open spec fn is_writable(e: nat) -> bool {
    (e / 2) % 2 == 1
}

/// A directory entry that maps a page itself (PS).
pub open spec fn is_page(e: nat) -> bool {
    (e / 0x80) % 2 == 1
}

/// The address bits 51:12 of an entry.
pub open spec fn frame(e: nat) -> int {
    ((e / 0x1000) % 0x100_0000_0000) as int * 0x1000
}

/// Where the processor finds the entry `i` of the table at guest-physical
/// address `table`, with `ram` at guest address `base`; an absent entry where
/// that is not in RAM.
pub open spec fn fetch(ram: Seq<u8>, base: nat, table: int, i: int) -> nat {
    if base <= table && table + TABLE_SIZE <= base + ram.len() {
        entry(ram, table - base, i)
    } else {
        0
    }
}

/// What a linear address translates to.
pub struct Translation {
    /// The guest-physical address.
    pub addr: int,
    /// Whether the guest may write there.
    pub writable: bool,
}

/// What the entries of the four levels, from the top down, make of the linear
/// address `va`.
pub open spec fn translation(e4: nat, e3: nat, e2: nat, e1: nat, va: int) -> Option<Translation> {
    let upper = is_writable(e4) && is_writable(e3);
    if !is_present(e4) || !is_present(e3) {
        None
    } else if is_page(e3) {
        Some(
            Translation {
                addr: frame(e3) / 0x4000_0000 * 0x4000_0000 + va % 0x4000_0000,
                writable: upper,
            },
        )
    } else if !is_present(e2) {
        None
    } else if is_page(e2) {
        Some(
            Translation {
                addr: frame(e2) / 0x20_0000 * 0x20_0000 + va % 0x20_0000,
                writable: upper && is_writable(e2),
            },
        )
    } else if !is_present(e1) {
        None
    } else {
        Some(
            Translation {
                addr: frame(e1) + va % 0x1000,
                writable: upper && is_writable(e2) && is_writable(e1),
            },
        )
    }
}

/// The long-mode page walk with four levels: what the linear address `va`
/// translates to, with `ram` at guest address `base` and the top table at
/// `cr3`. It looks at the low 48 bits of the address.
#[verifier::opaque]
pub open spec fn walk(ram: Seq<u8>, base: nat, cr3: int, va: int) -> Option<Translation> {
    let e4 = fetch(ram, base, frame(cr3 as nat), (va / 0x80_0000_0000) % 512);
    let e3 = fetch(ram, base, frame(e4), (va / 0x4000_0000) % 512);
    let e2 = fetch(ram, base, frame(e3), (va / 0x20_0000) % 512);
    let e1 = fetch(ram, base, frame(e2), (va / 0x1000) % 512);
    translation(e4, e3, e2, e1, va)
}

/// The linear addresses: the lower half, the upper half, and the 48-bit
/// addresses between them that no access may use.
pub open spec fn is_linear(va: int) -> bool {
    0 <= va < 0x1_0000_0000_0000 || 0xffff_8000_0000_0000 <= va <= 0xffff_ffff_ffff_ffff
}

/// Guest RAM that page tables can describe and lie in: whole pages, at a page
/// boundary, within the physical addresses; and what is mapped of it within the
/// lower half of the linear addresses.
pub open spec fn is_mappable(base: nat, len: nat) -> bool {
    &&& base % 0x1000 == 0
    &&& len % 0x1000 == 0
    &&& base + len <= 0x10_0000_0000_0000
    &&& base + len <= 0x8000_0000_0000 || base + MAX_MAPPED <= 0x8000_0000_0000
}

/// What the processor reads from an entry that points to a table.
proof fn lemma_table_entry(table: int)
    requires
        0 <= table < 0x10_0000_0000_0000,
        table % 0x1000 == 0,
    ensures
        table_entry(table) == table + TABLE_FLAGS,
        is_present(table_entry(table)),
        is_writable(table_entry(table)),
        !is_page(table_entry(table)),
        frame(table_entry(table)) == table,
{
    let t = table as u64;
    assert(t | 0x03 == t + 0x03) by (bit_vector)
        requires
            t % 0x1000 == 0,
            t < 0x10_0000_0000_0000,
    ;
}

/// What the processor reads from an entry that maps huge page number `page`.
proof fn lemma_page_entry(page: int)
    requires
        0 <= page < 0x400_0000,
    ensures
        is_present((page * PAGE_2M + HUGE_FLAGS) as nat),
        is_writable((page * PAGE_2M + HUGE_FLAGS) as nat),
        is_page((page * PAGE_2M + HUGE_FLAGS) as nat),
        frame((page * PAGE_2M + HUGE_FLAGS) as nat) == page * PAGE_2M,
        frame((page * PAGE_2M + HUGE_FLAGS) as nat) / 0x20_0000 == page,
{
}

/// The table indices of an address of the lower half are those of its huge
/// page.
proof fn lemma_indices(va: int)
    requires
        0 <= va < 0x8000_0000_0000,
    ensures
        va / 0x20_0000 % 512 == first_page(va as nat) % 512,
        va / 0x4000_0000 % 512 == directory(first_page(va as nat)) % 512,
        va / 0x80_0000_0000 % 512 == pointer_table(directory(first_page(va as nat))),
        0 <= pointer_table(directory(first_page(va as nat))) < 256,
        first_page(va as nat) == directory(first_page(va as nat)) * 512 + va / 0x20_0000 % 512,
        directory(first_page(va as nat)) == pointer_table(directory(first_page(va as nat))) * 512
            + va / 0x4000_0000 % 512,
        va == first_page(va as nat) * 0x20_0000 + va % 0x20_0000,
{
}

/// The whole walk stays inside guest RAM: the top table and every table that an
/// entry of it or of the next ones points to lie there.
pub proof fn law_tables_lie_in_memory(ram: Seq<u8>, base: nat, n: nat, i: int)
    requires
        holds_identity_map(ram, base, n),
        is_mappable(base, ram.len()),
        0 <= i < TABLE_ENTRIES,
    ensures
        base <= base + pml4_at(ram.len()) <= base + ram.len() - TABLE_SIZE,
        is_present(entry(ram, pml4_at(ram.len()), i)) ==> base <= frame(
            entry(ram, pml4_at(ram.len()), i),
        ) <= base + ram.len() - TABLE_SIZE,
        is_present(entry(ram, pdp_at(ram.len()), i)) ==> base <= frame(
            entry(ram, pdp_at(ram.len()), i),
        ) <= base + ram.len() - TABLE_SIZE,
        needs_next_pdp(base, n) && is_present(entry(ram, next_pdp_at(ram.len()), i)) ==> base
            <= frame(entry(ram, next_pdp_at(ram.len()), i)) <= base + ram.len() - TABLE_SIZE,
{
    let len = ram.len();
    lemma_table_entry(base + pdp_at(len));
    lemma_table_entry(base + pd_at(len));
    if needs_next_pd(base, n) {
        lemma_table_entry(base + next_pd_at(len));
    }
    if needs_next_pdp(base, n) {
        lemma_table_entry(base + next_pdp_at(len));
    }
}

/// The last level of the walk, through directory `d` at `table`.
proof fn lemma_directory(ram: Seq<u8>, base: nat, n: nat, table: int, d: int, va: int)
    requires
        0 <= va < 0x8000_0000_0000,
        0 <= table,
        table + TABLE_SIZE <= ram.len(),
        d == directory(first_page(va as nat)),
        forall|i: int|
            0 <= i < TABLE_ENTRIES ==> #[trigger] entry(ram, table, i) == pd_entry(base, n, d, i),
    ensures
        ({
            let page = first_page(va as nat);
            let e = fetch(ram, base, base + table, va / 0x20_0000 % 512);
            if first_page(base) <= page < first_page(base) + n {
                &&& is_present(e)
                &&& is_writable(e)
                &&& is_page(e)
                &&& frame(e) / 0x20_0000 * 0x20_0000 + va % 0x20_0000 == va
            } else {
                !is_present(e)
            }
        }),
{
    lemma_indices(va);
    let page = first_page(va as nat);
    let i = va / 0x20_0000 % 512;
    assert(fetch(ram, base, base + table, i) == entry(ram, table, i));
    assert(d * TABLE_ENTRIES + i == page);
    if first_page(base) <= page < first_page(base) + n {
        lemma_page_entry(page);
    }
}

/// The first level of the walk, through the top table.
proof fn lemma_top(ram: Seq<u8>, base: nat, n: nat, va: int)
    requires
        holds_identity_map(ram, base, n),
        base < 0x8000_0000_0000,
        needs_next_pdp(base, n) ==> pointer_table(directory(first_page(base))) + 1 < 256,
        is_linear(va),
    ensures
        ({
            let t0 = pointer_table(directory(first_page(base)));
            let t = pointer_table(directory(first_page(va as nat)));
            let e = fetch(ram, base, base + pml4_at(ram.len()), va / 0x80_0000_0000 % 512);
            if va < 0x8000_0000_0000 && t == t0 {
                e == table_entry(base + pdp_at(ram.len()))
            } else if va < 0x8000_0000_0000 && needs_next_pdp(base, n) && t == t0 + 1 {
                e == table_entry(base + next_pdp_at(ram.len()))
            } else {
                e == 0
            }
        }),
{
    lemma_indices(base as int);
    let i = va / 0x80_0000_0000 % 512;
    if va < 0x8000_0000_0000 {
        lemma_indices(va);
    } else {
        assert(i >= 256);
    }
    assert(fetch(ram, base, base + pml4_at(ram.len()), i) == entry(ram, pml4_at(ram.len()), i));
}

/// The second level of the walk, through directory pointer table `t` at `table`.
proof fn lemma_pointers(ram: Seq<u8>, base: nat, n: nat, table: int, t: int, va: int)
    requires
        0 <= va < 0x8000_0000_0000,
        0 <= table,
        table + TABLE_SIZE <= ram.len(),
        t == pointer_table(directory(first_page(va as nat))),
        forall|i: int|
            0 <= i < TABLE_ENTRIES ==> #[trigger] entry(ram, table, i) == pdp_entry(
                base,
                ram.len(),
                n,
                t,
                i,
            ),
    ensures
        ({
            let d0 = directory(first_page(base));
            let d = directory(first_page(va as nat));
            let e = fetch(ram, base, base + table, va / 0x4000_0000 % 512);
            if d == d0 {
                e == table_entry(base + pd_at(ram.len()))
            } else if needs_next_pd(base, n) && d == d0 + 1 {
                e == table_entry(base + next_pd_at(ram.len()))
            } else {
                e == 0
            }
        }),
{
    lemma_indices(va);
    let i = va / 0x4000_0000 % 512;
    assert(fetch(ram, base, base + table, i) == entry(ram, table, i));
}

/// The `n` huge pages from `base` on lie in its directory and, where they need
/// it, the next one, which is in the same directory pointer table or, where they
/// need that, in the next one.
proof fn lemma_reach(base: nat, n: nat, page: int)
    requires
        n <= 513,
    ensures
        ({
            let d0 = directory(first_page(base));
            let t0 = pointer_table(d0);
            let d = directory(page);
            let t = pointer_table(d);
            &&& d == d0 ==> t == t0
            &&& needs_next_pd(base, n) && d == d0 + 1 ==> if needs_next_pdp(base, n) {
                t == t0 + 1
            } else {
                t == t0
            }
            &&& first_page(base) <= page < first_page(base) + n ==> d == d0 || (needs_next_pd(
                base,
                n,
            ) && d == d0 + 1)
        }),
{
}

/// The mapped pages of guest RAM lie in the lower half, and so do the tables'
/// spans.
proof fn lemma_mapped(base: nat, len: nat)
    requires
        is_mappable(base, len),
        len >= 0x3000,
    ensures
        ({
            let n = huge_pages(base, len);
            &&& n <= 513
            &&& base < 0x8000_0000_0000
            &&& (first_page(base) + n) * 0x20_0000 <= 0x8000_0000_0000
            &&& needs_next_pdp(base, n) ==> pointer_table(directory(first_page(base))) + 1 < 256
        }),
{
}

/// An address lies in the mapped pages exactly if its page is one of them.
proof fn lemma_in_pages(first: int, n: nat, va: int)
    requires
        0 <= va,
    ensures
        (first * 0x20_0000 <= va < (first + n) * 0x20_0000) == (first <= first_page(va as nat)
            < first + n),
{
}

/// A walk that ends at the top table.
proof fn lemma_walk_no_pointers(ram: Seq<u8>, base: nat, top: int, va: int)
    requires
        0 <= top < 0x10_0000_0000_0000,
        top % 0x1000 == 0,
        fetch(ram, base, top, va / 0x80_0000_0000 % 512) == 0,
    ensures
        walk(ram, base, top, va) is None,
{
    reveal(walk);
    assert(frame(top as nat) == top);
}

/// A walk that ends at the directory pointer table at `pdp`.
proof fn lemma_walk_no_directory(ram: Seq<u8>, base: nat, top: int, pdp: int, va: int)
    requires
        0 <= top < 0x10_0000_0000_0000,
        top % 0x1000 == 0,
        fetch(ram, base, top, va / 0x80_0000_0000 % 512) == table_entry(pdp),
        0 <= pdp < 0x10_0000_0000_0000,
        pdp % 0x1000 == 0,
        fetch(ram, base, pdp, va / 0x4000_0000 % 512) == 0,
    ensures
        walk(ram, base, top, va) is None,
{
    reveal(walk);
    assert(frame(top as nat) == top);
    lemma_table_entry(pdp);
}

/// A walk that comes to the directory at `pd`.
proof fn lemma_walk_directory(ram: Seq<u8>, base: nat, top: int, pdp: int, pd: int, va: int)
    requires
        0 <= top < 0x10_0000_0000_0000,
        top % 0x1000 == 0,
        fetch(ram, base, top, va / 0x80_0000_0000 % 512) == table_entry(pdp),
        0 <= pdp < 0x10_0000_0000_0000,
        pdp % 0x1000 == 0,
        fetch(ram, base, pdp, va / 0x4000_0000 % 512) == table_entry(pd),
        0 <= pd < 0x10_0000_0000_0000,
        pd % 0x1000 == 0,
    ensures
        ({
            let e = fetch(ram, base, pd, va / 0x20_0000 % 512);
            &&& !is_present(e) ==> walk(ram, base, top, va) is None
            &&& is_present(e) && is_page(e) && is_writable(e) ==> walk(ram, base, top, va) == Some(
                Translation {
                    addr: frame(e) / 0x20_0000 * 0x20_0000 + va % 0x20_0000,
                    writable: true,
                },
            )
        }),
{
    reveal(walk);
    assert(frame(top as nat) == top);
    lemma_table_entry(pdp);
    lemma_table_entry(pd);
}

/// The walk through directory `d` at `pd`, under the pointer table at `pdp`.
proof fn lemma_walk_page(ram: Seq<u8>, base: nat, n: nat, pdp: int, pd: int, d: int, va: int)
    requires
        is_mappable(base, ram.len()),
        0x3000 <= ram.len(),
        0 <= va < 0x8000_0000_0000,
        fetch(ram, base, base + pml4_at(ram.len()), va / 0x80_0000_0000 % 512) == table_entry(
            base + pdp,
        ),
        0 <= pdp <= ram.len() - TABLE_SIZE,
        pdp % 0x1000 == 0,
        fetch(ram, base, base + pdp, va / 0x4000_0000 % 512) == table_entry(base + pd),
        0 <= pd <= ram.len() - TABLE_SIZE,
        pd % 0x1000 == 0,
        d == directory(first_page(va as nat)),
        forall|i: int|
            0 <= i < TABLE_ENTRIES ==> #[trigger] entry(ram, pd, i) == pd_entry(base, n, d, i),
    ensures
        walk(ram, base, base + pml4_at(ram.len()), va) == if first_page(base) <= first_page(
            va as nat,
        ) < first_page(base) + n {
            Some(Translation { addr: va, writable: true })
        } else {
            None::<Translation>
        },
{
    lemma_directory(ram, base, n, pd, d, va);
    lemma_walk_directory(
        ram,
        base,
        base + pml4_at(ram.len()),
        base + pdp,
        base + pd,
        va,
    );
}

/// The walk from the directory pointer table `t` at `pdp` on.
proof fn lemma_walk_pointers(ram: Seq<u8>, base: nat, n: nat, pdp: int, t: int, va: int)
    requires
        holds_identity_map(ram, base, n),
        is_mappable(base, ram.len()),
        0 <= va < 0x8000_0000_0000,
        fetch(ram, base, base + pml4_at(ram.len()), va / 0x80_0000_0000 % 512) == table_entry(
            base + pdp,
        ),
        0 <= pdp <= ram.len() - TABLE_SIZE,
        pdp % 0x1000 == 0,
        t == pointer_table(directory(first_page(va as nat))),
        forall|i: int|
            0 <= i < TABLE_ENTRIES ==> #[trigger] entry(ram, pdp, i) == pdp_entry(
                base,
                ram.len(),
                n,
                t,
                i,
            ),
    ensures
        ({
            let d0 = directory(first_page(base));
            let d = directory(first_page(va as nat));
            let mapped = first_page(base) <= first_page(va as nat) < first_page(base) + n;
            walk(ram, base, base + pml4_at(ram.len()), va) == if (d == d0 || (needs_next_pd(base, n)
                && d == d0 + 1)) && mapped {
                Some(Translation { addr: va, writable: true })
            } else {
                None::<Translation>
            }
        }),
{
    let len = ram.len();
    let d0 = directory(first_page(base));
    let d = directory(first_page(va as nat));
    lemma_pointers(ram, base, n, pdp, t, va);
    if d == d0 {
        lemma_walk_page(ram, base, n, pdp, pd_at(len), d, va);
    } else if needs_next_pd(base, n) && d == d0 + 1 {
        lemma_walk_page(ram, base, n, pdp, next_pd_at(len), d, va);
    } else {
        lemma_walk_no_directory(ram, base, base + pml4_at(len), base + pdp, va);
    }
}

/// With the tables in place, every linear address in the mapped pages
/// translates to itself and may be written, and every other one, in either half,
/// is unmapped.
pub proof fn law_walk_is_identity(ram: Seq<u8>, base: nat, va: int)
    requires
        holds_identity_map(ram, base, huge_pages(base, ram.len())),
        is_mappable(base, ram.len()),
        is_linear(va),
    ensures
        walk(ram, base, base + pml4_at(ram.len()), va) == if first_page(base) * PAGE_2M <= va < (
        first_page(base) + huge_pages(base, ram.len())) * PAGE_2M {
            Some(Translation { addr: va, writable: true })
        } else {
            None::<Translation>
        },
{
    let len = ram.len();
    let n = huge_pages(base, len);
    let top = base + pml4_at(len);
    let t0 = pointer_table(directory(first_page(base)));
    let page = first_page(va as nat);
    let t = pointer_table(directory(page));
    lemma_mapped(base, len);
    lemma_top(ram, base, n, va);
    lemma_reach(base, n, page);
    lemma_in_pages(first_page(base), n, va);
    if va < 0x8000_0000_0000 && t == t0 {
        lemma_walk_pointers(ram, base, n, pdp_at(len), t, va);
    } else if va < 0x8000_0000_0000 && needs_next_pdp(base, n) && t == t0 + 1 {
        lemma_walk_pointers(ram, base, n, next_pdp_at(len), t, va);
    } else {
        lemma_walk_no_pointers(ram, base, top, va);
    }
}

/// The pages that are mapped cover guest RAM of up to a GiB whole, wherever it
/// lies, and nothing beyond the huge pages that it touches.
pub proof fn law_pages_cover_ram(base: nat, span: nat)
    requires
        0 < span <= MAX_MAPPED,
    ensures
        first_page(base) * PAGE_2M <= base < first_page(base) * PAGE_2M + PAGE_2M,
        base + span <= (first_page(base) + huge_pages(base, span)) * PAGE_2M < base + span
            + PAGE_2M,
{
}

/// What stands in the tables at each step of the way to `va`: an entry of the top
/// table, of the table that it points to, and of the table that this one points
/// to. Read as numbers, with the flags in their low bits.
proof fn lemma_way(ram: Seq<u8>, base: nat, va: int)
    requires
        holds_identity_map(ram, base, huge_pages(base, ram.len())),
        is_mappable(base, ram.len()),
        is_linear(va),
    ensures
        ({
            let n = huge_pages(base, ram.len());
            let top = ram.len() - 0x3000;
            let e4 = le_at(ram, top + 8 * (va / 0x80_0000_0000 % 512), 8);
            let pdp = e4 as int / 0x1000 * 0x1000 - base;
            let e3 = le_at(ram, pdp + 8 * (va / 0x4000_0000 % 512), 8);
            let pd = e3 as int / 0x1000 * 0x1000 - base;
            let e2 = le_at(ram, pd + 8 * (va / 0x20_0000 % 512), 8);
            let mapped = first_page(base) * 0x20_0000 <= va < (first_page(base) + n) * 0x20_0000;
            let through_pdp = e4 % 0x1000 == 3 && 0 <= pdp <= ram.len() - 0x1000;
            let through_pd = e3 % 0x1000 == 3 && 0 <= pd <= ram.len() - 0x1000;
            if mapped {
                &&& through_pdp
                &&& through_pd
                &&& e2 == va / 0x20_0000 * 0x20_0000 + 0x83
            } else {
                ||| e4 == 0
                ||| through_pdp && e3 == 0
                ||| through_pdp && through_pd && e2 == 0
            }
        }),
{
    let len = ram.len();
    let n = huge_pages(base, len);
    let d0 = directory(first_page(base));
    let t0 = pointer_table(d0);
    let page = first_page(va as nat);
    let d = directory(page);
    let t = pointer_table(d);
    lemma_mapped(base, len);
    lemma_top(ram, base, n, va);
    lemma_in_pages(first_page(base), n, va);
    assert(fetch(ram, base, base + pml4_at(len), va / 0x80_0000_0000 % 512) == le_at(
        ram,
        len - 0x3000 + 8 * (va / 0x80_0000_0000 % 512),
        8,
    ));
    if va < 0x8000_0000_0000 {
        lemma_reach(base, n, page);
        if t == t0 {
            lemma_way_on(ram, base, n, pdp_at(len), t, va);
        } else if needs_next_pdp(base, n) && t == t0 + 1 {
            lemma_way_on(ram, base, n, next_pdp_at(len), t, va);
        }
    }
}

/// The way from the directory pointer table `t` at `pdp` on.
proof fn lemma_way_on(ram: Seq<u8>, base: nat, n: nat, pdp: int, t: int, va: int)
    requires
        holds_identity_map(ram, base, n),
        is_mappable(base, ram.len()),
        0 <= va < 0x8000_0000_0000,
        0 <= pdp <= ram.len() - TABLE_SIZE,
        pdp % 0x1000 == 0,
        t == pointer_table(directory(first_page(va as nat))),
        forall|i: int|
            0 <= i < TABLE_ENTRIES ==> #[trigger] entry(ram, pdp, i) == pdp_entry(
                base,
                ram.len(),
                n,
                t,
                i,
            ),
    ensures
        ({
            let d0 = directory(first_page(base));
            let d = directory(first_page(va as nat));
            let e4 = table_entry(base + pdp);
            let e3 = le_at(ram, pdp + 8 * (va / 0x4000_0000 % 512), 8);
            let pd = e3 as int / 0x1000 * 0x1000 - base;
            let e2 = le_at(ram, pd + 8 * (va / 0x20_0000 % 512), 8);
            let mapped = first_page(base) <= first_page(va as nat) < first_page(base) + n;
            let through_pd = e3 % 0x1000 == 3 && 0 <= pd <= ram.len() - 0x1000;
            &&& e4 % 0x1000 == 3
            &&& e4 as int / 0x1000 * 0x1000 - base == pdp
            &&& if d == d0 || (needs_next_pd(base, n) && d == d0 + 1) {
                &&& through_pd
                &&& e2 == if mapped {
                    (va / 0x20_0000 * 0x20_0000 + 0x83) as nat
                } else {
                    0
                }
            } else {
                e3 == 0
            }
        }),
{
    let len = ram.len();
    let d0 = directory(first_page(base));
    let d = directory(first_page(va as nat));
    lemma_table_entry(base + pdp);
    lemma_pointers(ram, base, n, pdp, t, va);
    assert(fetch(ram, base, base + pdp, va / 0x4000_0000 % 512) == le_at(
        ram,
        pdp + 8 * (va / 0x4000_0000 % 512),
        8,
    ));
    lemma_indices(va);
    if d == d0 {
        lemma_table_entry(base + pd_at(len));
        assert(entry(ram, pd_at(len), va / 0x20_0000 % 512) == pd_entry(
            base,
            n,
            d,
            va / 0x20_0000 % 512,
        ));
    } else if needs_next_pd(base, n) && d == d0 + 1 {
        lemma_table_entry(base + next_pd_at(len));
        assert(entry(ram, next_pd_at(len), va / 0x20_0000 % 512) == pd_entry(
            base,
            n,
            d,
            va / 0x20_0000 % 512,
        ));
    }
}

/// The page table of guest RAM spells the identity out: for each linear address
/// in the RAM, up to its first GiB, the top table at 0x3000 before the end leads
/// to a table in RAM, that one to another, and that one to the 2 MiB page of the
/// address itself, present and writable at every step and huge at the last.
pub proof fn law_tables_spell_out_the_identity(
    ram: &mut [u8],
    base: u64,
    va: int,
)
    requires
        call_ensures(write_identity_map, (ram, base), ()),
        base % 0x1000 == 0,
        old(ram)@.len() % 0x1000 == 0,
        old(ram)@.len() > 0,
        base + old(ram)@.len() <= 0x10_0000_0000_0000,
        base + old(ram)@.len() <= 0x8000_0000_0000 || base + 0x4000_0000 <= 0x8000_0000_0000,
        base <= va < base + old(ram)@.len(),
        va < base + 0x4000_0000,
    ensures
        ({
            let m = final(ram)@;
            let e4 = le_at(m, m.len() - 0x3000 + 8 * (va / 0x80_0000_0000 % 512), 8);
            let pdp = e4 as int / 0x1000 * 0x1000 - base;
            let e3 = le_at(m, pdp + 8 * (va / 0x4000_0000 % 512), 8);
            let pd = e3 as int / 0x1000 * 0x1000 - base;
            let e2 = le_at(m, pd + 8 * (va / 0x20_0000 % 512), 8);
            &&& m.len() == old(ram)@.len()
            &&& e4 % 0x1000 == 3
            &&& 0 <= pdp <= m.len() - 0x1000
            &&& e3 % 0x1000 == 3
            &&& 0 <= pd <= m.len() - 0x1000
            &&& e2 == va / 0x20_0000 * 0x20_0000 + 0x83
        }),
{
    lemma_way(final(ram)@, base as nat, va);
}

/// The page table of guest RAM maps nothing else: on the way to a linear address
/// of either half that is 2 MiB or more away from the RAM, or from its first
/// GiB, some entry is 0.
pub proof fn law_tables_map_nothing_else(ram: &mut [u8], base: u64, va: int)
    requires
        call_ensures(write_identity_map, (ram, base), ()),
        base % 0x1000 == 0,
        old(ram)@.len() % 0x1000 == 0,
        old(ram)@.len() > 0,
        base + old(ram)@.len() <= 0x10_0000_0000_0000,
        base + old(ram)@.len() <= 0x8000_0000_0000 || base + 0x4000_0000 <= 0x8000_0000_0000,
        0 <= va < 0x1_0000_0000_0000 || 0xffff_8000_0000_0000 <= va <= 0xffff_ffff_ffff_ffff,
        va + 0x20_0000 <= base || va >= base + old(ram)@.len() + 0x20_0000 || va >= base
            + 0x4020_0000,
    ensures
        ({
            let m = final(ram)@;
            let e4 = le_at(m, m.len() - 0x3000 + 8 * (va / 0x80_0000_0000 % 512), 8);
            let pdp = e4 as int / 0x1000 * 0x1000 - base;
            let e3 = le_at(m, pdp + 8 * (va / 0x4000_0000 % 512), 8);
            let pd = e3 as int / 0x1000 * 0x1000 - base;
            let e2 = le_at(m, pd + 8 * (va / 0x20_0000 % 512), 8);
            ||| e4 == 0
            ||| 0 <= pdp <= m.len() - 0x1000 && e3 == 0
            ||| 0 <= pdp <= m.len() - 0x1000 && 0 <= pd <= m.len() - 0x1000 && e2 == 0
        }),
{
    lemma_way(final(ram)@, base as nat, va);
}

/// Writing the page table changes nothing below the last five pages of the RAM,
/// and nothing below the last three where the RAM does not cross a GiB boundary.
pub proof fn law_tables_stay_at_the_end(ram: &mut [u8], base: u64, i: int)
    requires
        call_ensures(write_identity_map, (ram, base), ()),
        0 <= i < old(ram)@.len(),
    ensures
        final(ram)@.len() == old(ram)@.len(),
        i < old(ram)@.len() - 0x5000 ==> final(ram)@[i] == old(ram)@[i],
        i < old(ram)@.len() - 0x3000 && base as int / 0x4000_0000 == (base + old(ram)@.len() - 1)
            / 0x4000_0000 ==> final(ram)@[i] == old(ram)@[i],
{
}

/// The number of huge pages is the number of 2 MiB frames that the memory, or
/// its first GiB, touches.
pub proof fn law_huge_pages_are_those_touched(base: u64, span: u64, n: u64)
    requires
        call_ensures(huge_page_count, (base, span), n),
    ensures
        span == 0 ==> n == 0,
        0 < span <= 0x4000_0000 ==> n == (base + span - 1) / 0x20_0000 - base as int / 0x20_0000
            + 1,
        span > 0x4000_0000 ==> n == (base + 0x3fff_ffff) / 0x20_0000 - base as int / 0x20_0000 + 1,
{
}

/// The tables take three pages, one more for memory whose first GiB crosses a
/// GiB boundary, and two more where that is a 512 GiB boundary.
pub proof fn law_room_for_the_tables(base: u64, span: u64, size: usize)
    requires
        call_ensures(tables_len, (base, span), size),
        0 < span,
    ensures
        ({
            let last = base + if span < 0x4000_0000 {
                span - 1
            } else {
                0x3fff_ffffint
            };
            size == if base as int / 0x4000_0000 == last / 0x4000_0000 {
                0x3000int
            } else if base as int / 0x80_0000_0000 == last / 0x80_0000_0000 {
                0x4000
            } else {
                0x5000
            }
        }),
{
}

/// RAM that holds its page table leads each linear address in it, up to its
/// first GiB, to itself: see [`law_tables_spell_out_the_identity`].
pub proof fn law_way_to_memory(ram: Seq<u8>, base: nat, va: int)
    requires
        holds_identity_map(ram, base, huge_pages(base, ram.len())),
        base % 0x1000 == 0,
        ram.len() % 0x1000 == 0,
        base + ram.len() <= 0x10_0000_0000_0000,
        base + ram.len() <= 0x8000_0000_0000 || base + 0x4000_0000 <= 0x8000_0000_0000,
        base <= va < base + ram.len(),
        va < base + 0x4000_0000,
    ensures
        ({
            let e4 = le_at(ram, ram.len() - 0x3000 + 8 * (va / 0x80_0000_0000 % 512), 8);
            let pdp = e4 as int / 0x1000 * 0x1000 - base;
            let e3 = le_at(ram, pdp + 8 * (va / 0x4000_0000 % 512), 8);
            let pd = e3 as int / 0x1000 * 0x1000 - base;
            let e2 = le_at(ram, pd + 8 * (va / 0x20_0000 % 512), 8);
            &&& e4 % 0x1000 == 3
            &&& 0 <= pdp <= ram.len() - 0x1000
            &&& e3 % 0x1000 == 3
            &&& 0 <= pd <= ram.len() - 0x1000
            &&& e2 == va / 0x20_0000 * 0x20_0000 + 0x83
        }),
{
    lemma_way(ram, base, va);
}

/// RAM that holds its page table leads no address elsewhere: see
/// [`law_tables_map_nothing_else`].
pub proof fn law_no_way_elsewhere(ram: Seq<u8>, base: nat, va: int)
    requires
        holds_identity_map(ram, base, huge_pages(base, ram.len())),
        base % 0x1000 == 0,
        ram.len() % 0x1000 == 0,
        ram.len() > 0,
        base + ram.len() <= 0x10_0000_0000_0000,
        base + ram.len() <= 0x8000_0000_0000 || base + 0x4000_0000 <= 0x8000_0000_0000,
        0 <= va < 0x1_0000_0000_0000 || 0xffff_8000_0000_0000 <= va <= 0xffff_ffff_ffff_ffff,
        va + 0x20_0000 <= base || va >= base + ram.len() + 0x20_0000 || va >= base + 0x4020_0000,
    ensures
        ({
            let e4 = le_at(ram, ram.len() - 0x3000 + 8 * (va / 0x80_0000_0000 % 512), 8);
            let pdp = e4 as int / 0x1000 * 0x1000 - base;
            let e3 = le_at(ram, pdp + 8 * (va / 0x4000_0000 % 512), 8);
            let pd = e3 as int / 0x1000 * 0x1000 - base;
            let e2 = le_at(ram, pd + 8 * (va / 0x20_0000 % 512), 8);
            ||| e4 == 0
            ||| 0 <= pdp <= ram.len() - 0x1000 && e3 == 0
            ||| 0 <= pdp <= ram.len() - 0x1000 && 0 <= pd <= ram.len() - 0x1000 && e2 == 0
        }),
{
    lemma_way(ram, base, va);
}

} // verus!
