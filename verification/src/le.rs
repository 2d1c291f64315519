//! Little-endian integer fields inside a byte buffer: reading, writing, and
//! the facts relating the two.

use vstd::prelude::*;

verus! {

/// The 16-bit value held least-significant-byte-first by `s[i]` and `s[i + 1]`.
pub open spec fn u16_le_at(s: Seq<u8>, i: int) -> u16
    recommends
        0 <= i,
        i + 2 <= s.len(),
{
    (s[i] as u16) | ((s[i + 1] as u16) << 8)
}

/// The 32-bit value held least-significant-byte-first by `s[i]` .. `s[i + 3]`.
pub open spec fn u32_le_at(s: Seq<u8>, i: int) -> u32
    recommends
        0 <= i,
        i + 4 <= s.len(),
{
    (s[i] as u32) | ((s[i + 1] as u32) << 8) | ((s[i + 2] as u32) << 16) | ((s[i + 3] as u32)
        << 24)
}

/// `s` with the four bytes at `i` .. `i + 4` replaced by `v`,
/// least significant byte first.
pub open spec fn store_u32_le(s: Seq<u8>, i: int, v: u32) -> Seq<u8>
    recommends
        0 <= i,
        i + 4 <= s.len(),
{
    s.update(i, (v & 0xFF) as u8).update(i + 1, ((v >> 8) & 0xFF) as u8).update(
        i + 2,
        ((v >> 16) & 0xFF) as u8,
    ).update(i + 3, ((v >> 24) & 0xFF) as u8)
}

/// Storing a 32-bit value and reading it back at the same offset yields the
/// value; every byte outside the stored window is untouched.
pub proof fn lemma_store_u32_le(s: Seq<u8>, i: int, v: u32)
    requires
        0 <= i,
        i + 4 <= s.len(),
    ensures
        store_u32_le(s, i, v).len() == s.len(),
        u32_le_at(store_u32_le(s, i, v), i) == v,
        forall|j: int| 0 <= j < s.len() && !(i <= j < i + 4) ==> store_u32_le(s, i, v)[j] == s[j],
{
    let t = store_u32_le(s, i, v);
    assert(t[i] == (v & 0xFF) as u8);
    assert(t[i + 1] == ((v >> 8) & 0xFF) as u8);
    assert(t[i + 2] == ((v >> 16) & 0xFF) as u8);
    assert(t[i + 3] == ((v >> 24) & 0xFF) as u8);
    assert(((v & 0xFF) as u8 as u32) | ((((v >> 8) & 0xFF) as u8 as u32) << 8) | ((((v >> 16)
        & 0xFF) as u8 as u32) << 16) | ((((v >> 24) & 0xFF) as u8 as u32) << 24) == v)
        by (bit_vector);
}

/// Reads the 16-bit little-endian field of `buf` at `off`.
pub fn read_u16_le(buf: &[u8], off: usize) -> (r: u16)
    requires
        off + 2 <= buf@.len(),
    ensures
        r == u16_le_at(buf@, off as int),
{
    let _n: usize = buf.len();
    let b0 = buf[off] as u16;
    let b1 = buf[off + 1] as u16;
    b0 | (b1 << 8)
}

/// Reads the 32-bit little-endian field of `buf` at `off`.
pub fn read_u32_le(buf: &[u8], off: usize) -> (r: u32)
    requires
        off + 4 <= buf@.len(),
    ensures
        r == u32_le_at(buf@, off as int),
{
    let _n: usize = buf.len();
    let b0 = buf[off] as u32;
    let b1 = buf[off + 1] as u32;
    let b2 = buf[off + 2] as u32;
    let b3 = buf[off + 3] as u32;
    b0 | (b1 << 8) | (b2 << 16) | (b3 << 24)
}

/// Overwrites the 32-bit little-endian field of `buf` at `off` with `v`.
pub fn write_u32_le(buf: &mut Vec<u8>, off: usize, v: u32)
    requires
        off + 4 <= old(buf)@.len(),
    ensures
        final(buf)@ == store_u32_le(old(buf)@, off as int, v),
{
    let _n: usize = buf.len();
    buf.set(off, (v & 0xFF) as u8);
    buf.set(off + 1, ((v >> 8) & 0xFF) as u8);
    buf.set(off + 2, ((v >> 16) & 0xFF) as u8);
    buf.set(off + 3, ((v >> 24) & 0xFF) as u8);
}

} // verus!
