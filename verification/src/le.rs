//! Little-endian integers inside byte buffers.

use vstd::prelude::*;

verus! {

/// The `n` low bytes of `v`, least significant first.
pub open spec fn le_bytes(v: nat, n: nat) -> Seq<u8>
    decreases n,
{
    if n == 0 {
        Seq::empty()
    } else {
        seq![(v % 256) as u8] + le_bytes(v / 256, (n - 1) as nat)
    }
}

/// The number whose bytes, least significant first, are `s`.
pub open spec fn le_value(s: Seq<u8>) -> nat
    decreases s.len(),
{
    if s.len() == 0 {
        0
    } else {
        s[0] as nat + 256 * le_value(s.skip(1))
    }
}

/// The exclusive bound of what `n` bytes can hold.
pub open spec fn le_bound(n: nat) -> nat
    decreases n,
{
    if n == 0 {
        1
    } else {
        256 * le_bound((n - 1) as nat)
    }
}

/// `s` with the bytes from `off` on replaced by `b`.
pub open spec fn splice(s: Seq<u8>, off: int, b: Seq<u8>) -> Seq<u8> {
    s.take(off) + b + s.skip(off + b.len())
}

/// The number stored in the `n` bytes of `s` at `off`.
pub open spec fn le_at(s: Seq<u8>, off: int, n: int) -> nat {
    le_value(s.subrange(off, off + n))
}

pub proof fn lemma_le_bytes_len(v: nat, n: nat)
    ensures
        le_bytes(v, n).len() == n,
    decreases n,
{
    if n > 0 {
        lemma_le_bytes_len(v / 256, (n - 1) as nat);
    }
}

/// Decoding what was encoded gives the number back, whenever it fits.
pub proof fn lemma_le_round_trip(v: nat, n: nat)
    requires
        v < le_bound(n),
    ensures
        le_value(le_bytes(v, n)) == v,
    decreases n,
{
    lemma_le_bytes_len(v, n);
    if n > 0 {
        let rest = le_bytes(v / 256, (n - 1) as nat);
        lemma_le_round_trip(v / 256, (n - 1) as nat);
        assert(le_bytes(v, n).skip(1) =~= rest);
    }
}

/// `n` bytes never decode to more than they can hold.
pub proof fn lemma_le_value_bound(s: Seq<u8>)
    ensures
        le_value(s) < le_bound(s.len()),
    decreases s.len(),
{
    if s.len() > 0 {
        lemma_le_value_bound(s.skip(1));
    }
}

pub proof fn lemma_le_bounds()
    ensures
        le_bound(1) == 0x100,
        le_bound(2) == 0x1_0000,
        le_bound(4) == 0x1_0000_0000,
        le_bound(8) == 0x1_0000_0000_0000_0000,
{
    reveal_with_fuel(le_bound, 9);
}

/// Prefixing a byte to a decoded tail.
proof fn lemma_le_value_cons(s: Seq<u8>, at: int, end: int)
    requires
        0 <= at < end <= s.len(),
    ensures
        le_value(s.subrange(at, end)) == s[at] as nat + 256 * le_value(s.subrange(at + 1, end)),
{
    assert(s.subrange(at, end).skip(1) =~= s.subrange(at + 1, end));
}

/// Appends the `n` low bytes of `v`, least significant first.
pub fn push_le(out: &mut Vec<u8>, v: u64, n: usize)
    ensures
        final(out)@ == old(out)@ + le_bytes(v as nat, n as nat),
{
    let mut rest: u64 = v;
    let mut i: usize = 0;
    assert(old(out)@ + le_bytes(v as nat, n as nat) =~= out@ + le_bytes(
        rest as nat,
        (n - i) as nat,
    ));
    while i < n
        invariant
            i <= n,
            old(out)@ + le_bytes(v as nat, n as nat) == out@ + le_bytes(
                rest as nat,
                (n - i) as nat,
            ),
        decreases n - i,
    {
        let ghost before = out@;
        let ghost tail = le_bytes((rest / 256) as nat, (n - i - 1) as nat);
        out.push((rest % 256) as u8);
        assert(before + (seq![(rest % 256) as u8] + tail) =~= out@ + tail);
        rest = rest / 256;
        i = i + 1;
    }
    assert(out@ + le_bytes(rest as nat, 0) =~= out@);
}

/// The number in the `n` bytes at `off`.
pub fn read_le(buf: &[u8], off: usize, n: usize) -> (v: u64)
    requires
        n <= 8,
        off + n <= buf@.len(),
    ensures
        v == le_at(buf@, off as int, n as int),
        v < le_bound(n as nat),
{
    let len: usize = buf.len();
    let mut v: u64 = 0;
    let mut i: usize = n;
    assert(buf@.subrange(off + n, off + n) =~= Seq::<u8>::empty());
    while i > 0
        invariant
            i <= n <= 8,
            off + n <= len == buf@.len(),
            v == le_value(buf@.subrange(off + i, off + n)),
        decreases i,
    {
        proof {
            lemma_le_value_cons(buf@, off + i - 1, off + n);
            lemma_le_value_bound(buf@.subrange(off + i - 1, off + n));
            reveal_with_fuel(le_bound, 9);
        }
        i = i - 1;
        v = buf[off + i] as u64 + 256 * v;
    }
    proof {
        lemma_le_value_bound(buf@.subrange(off as int, off + n));
    }
    v
}

/// Copies `src` over the bytes of `buf` from `off` on.
pub fn copy_at(buf: &mut [u8], off: usize, src: &[u8])
    requires
        off + src@.len() <= old(buf)@.len(),
    ensures
        final(buf)@ == splice(old(buf)@, off as int, src@),
{
    let len: usize = buf.len();
    let n: usize = src.len();
    let mut i: usize = 0;
    while i < n
        invariant
            i <= n == src@.len(),
            off + n <= len,
            buf@.len() == old(buf)@.len() == len,
            buf@ =~= splice(old(buf)@, off as int, src@.take(i as int)),
        decreases n - i,
    {
        buf[off + i] = src[i];
        i = i + 1;
    }
    assert(src@.take(n as int) =~= src@);
}

/// Stores `v` in the eight bytes at `off`.
pub fn write_u64(buf: &mut [u8], off: usize, v: u64)
    requires
        off + 8 <= old(buf)@.len(),
    ensures
        final(buf)@ == splice(old(buf)@, off as int, le_bytes(v as nat, 8)),
{
    let mut bytes: Vec<u8> = Vec::new();
    push_le(&mut bytes, v, 8);
    assert(bytes@ =~= le_bytes(v as nat, 8));
    proof {
        lemma_le_bytes_len(v as nat, 8);
    }
    copy_at(buf, off, bytes.as_slice());
}

/// Two bytes are a number of 16 bits, the low byte first.
pub proof fn law_two_bytes(s: Seq<u8>, off: int)
    requires
        0 <= off,
        off + 2 <= s.len(),
    ensures
        le_at(s, off, 2) == s[off] + 0x100 * s[off + 1],
{
    lemma_le_value_cons(s, off, off + 2);
    lemma_le_value_cons(s, off + 1, off + 2);
    assert(s.subrange(off + 2, off + 2) =~= Seq::<u8>::empty());
}

/// Four bytes are a number of 32 bits, the low byte first.
pub proof fn law_four_bytes(s: Seq<u8>, off: int)
    requires
        0 <= off,
        off + 4 <= s.len(),
    ensures
        le_at(s, off, 4) == s[off] + 0x100 * s[off + 1] + 0x1_0000 * s[off + 2] + 0x100_0000 * s[off
            + 3],
{
    lemma_le_value_cons(s, off, off + 4);
    lemma_le_value_cons(s, off + 1, off + 4);
    lemma_le_value_cons(s, off + 2, off + 4);
    lemma_le_value_cons(s, off + 3, off + 4);
    assert(s.subrange(off + 4, off + 4) =~= Seq::<u8>::empty());
}

/// Eight bytes are a number of 64 bits, the low byte first.
pub proof fn law_eight_bytes(s: Seq<u8>, off: int)
    requires
        0 <= off,
        off + 8 <= s.len(),
    ensures
        le_at(s, off, 8) == s[off] + 0x100 * s[off + 1] + 0x1_0000 * s[off + 2] + 0x100_0000 * s[off
            + 3] + 0x1_0000_0000 * s[off + 4] + 0x100_0000_0000 * s[off + 5] + 0x1_0000_0000_0000
            * s[off + 6] + 0x100_0000_0000_0000 * s[off + 7],
{
    lemma_le_value_cons(s, off, off + 8);
    lemma_le_value_cons(s, off + 1, off + 8);
    lemma_le_value_cons(s, off + 2, off + 8);
    lemma_le_value_cons(s, off + 3, off + 8);
    lemma_le_value_cons(s, off + 4, off + 8);
    lemma_le_value_cons(s, off + 5, off + 8);
    lemma_le_value_cons(s, off + 6, off + 8);
    lemma_le_value_cons(s, off + 7, off + 8);
    assert(s.subrange(off + 8, off + 8) =~= Seq::<u8>::empty());
}

/// Reading one byte more puts a lower byte in front: the number is that byte
/// and 256 times what the rest reads as. No byte reads as 0.
pub proof fn law_read_le(buf: &[u8], off: usize, n: usize, v: u64, rest_off: usize, rest: u64)
    requires
        0 < n <= 8,
        off + n <= buf@.len(),
        rest_off == off + 1,
        call_ensures(read_le, (buf, off, n), v),
        call_ensures(read_le, (buf, rest_off, (n - 1) as usize), rest),
    ensures
        v == buf@[off as int] + 256 * rest,
        n == 1 ==> rest == 0,
{
    lemma_le_value_cons(buf@, off as int, off + n);
    assert(buf@.subrange(off + n, off + n) =~= Seq::<u8>::empty());
}

/// What is appended to a buffer reads back as the number it was, and what was in
/// the buffer before stays.
pub proof fn law_pushed_numbers_read_back(
    out: &mut Vec<u8>,
    v: u64,
    n: usize,
    buf: &[u8],
    off: usize,
    w: u64,
)
    requires
        n == 1 && v < 0x100 || n == 2 && v < 0x1_0000 || n == 4 && v < 0x1_0000_0000 || n == 8,
        call_ensures(push_le, (out, v, n), ()),
        buf@ == final(out)@,
        off == old(out)@.len(),
        call_ensures(read_le, (buf, off, n), w),
    ensures
        final(out)@.len() == old(out)@.len() + n,
        final(out)@.take(old(out)@.len() as int) == old(out)@,
        w == v,
{
    lemma_le_bytes_len(v as nat, n as nat);
    lemma_le_bounds();
    lemma_le_round_trip(v as nat, n as nat);
    assert(final(out)@.take(old(out)@.len() as int) =~= old(out)@);
    assert(buf@.subrange(off as int, off + n) =~= le_bytes(v as nat, n as nat));
}

/// Copying puts each byte in its place and touches no other.
pub proof fn law_copies_stay_in_place(buf: &mut [u8], off: usize, src: &[u8], i: int)
    requires
        off + src@.len() <= old(buf)@.len(),
        call_ensures(copy_at, (buf, off, src), ()),
        0 <= i < old(buf)@.len(),
    ensures
        final(buf)@.len() == old(buf)@.len(),
        off <= i < off + src@.len() ==> final(buf)@[i] == src@[i - off],
        i < off || off + src@.len() <= i ==> final(buf)@[i] == old(buf)@[i],
{
}

/// A number that is stored reads back, and no byte outside its eight changes.
pub proof fn law_stored_numbers_read_back(
    buf: &mut [u8],
    off: usize,
    v: u64,
    after: &[u8],
    w: u64,
    i: int,
)
    requires
        off + 8 <= old(buf)@.len(),
        call_ensures(write_u64, (buf, off, v), ()),
        after@ == final(buf)@,
        call_ensures(read_le, (after, off, 8), w),
        0 <= i < old(buf)@.len(),
    ensures
        w == v,
        final(buf)@.len() == old(buf)@.len(),
        i < off || off + 8 <= i ==> final(buf)@[i] == old(buf)@[i],
{
    lemma_le_bytes_len(v as nat, 8);
    lemma_le_bounds();
    lemma_le_round_trip(v as nat, 8);
    assert(after@.subrange(off as int, off + 8) =~= le_bytes(v as nat, 8));
}

} // verus!
