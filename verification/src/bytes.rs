//! Reconstruction of fixed-width unsigned integers from byte buffers,
//! in either byte order, together with the decomposition lemmas that
//! make encoding a lawful inverse of decoding.

use vstd::prelude::*;

verus! {

/// Value of the two bytes at `off`, least significant byte first.
pub open spec fn le16(b: Seq<u8>, off: int) -> int {
    (b[off] as int) + 0x100 * (b[off + 1] as int)
}

/// Value of the two bytes at `off`, most significant byte first.
pub open spec fn be16(b: Seq<u8>, off: int) -> int {
    (b[off + 1] as int) + 0x100 * (b[off] as int)
}

/// Value of the four bytes at `off`, least significant byte first.
pub open spec fn le32(b: Seq<u8>, off: int) -> int {
    (b[off] as int) + 0x100 * (b[off + 1] as int) + 0x1_0000 * (b[off + 2] as int) + 0x100_0000
        * (b[off + 3] as int)
}

/// Value of the four bytes at `off`, most significant byte first.
pub open spec fn be32(b: Seq<u8>, off: int) -> int {
    (b[off + 3] as int) + 0x100 * (b[off + 2] as int) + 0x1_0000 * (b[off + 1] as int) + 0x100_0000
        * (b[off] as int)
}

/// Value of the eight bytes at `off`, least significant byte first.
pub open spec fn le64(b: Seq<u8>, off: int) -> int {
    le32(b, off) + 0x1_0000_0000 * le32(b, off + 4)
}

/// Value of the eight bytes at `off`, most significant byte first.
pub open spec fn be64(b: Seq<u8>, off: int) -> int {
    be32(b, off + 4) + 0x1_0000_0000 * be32(b, off)
}

/// The two bytes at `off` read in the buffer's declared byte order.
pub open spec fn word16(b: Seq<u8>, off: int, big: bool) -> int {
    if big {
        be16(b, off)
    } else {
        le16(b, off)
    }
}

/// The four bytes at `off` read in the buffer's declared byte order.
pub open spec fn word32(b: Seq<u8>, off: int, big: bool) -> int {
    if big {
        be32(b, off)
    } else {
        le32(b, off)
    }
}

/// The eight bytes at `off` read in the buffer's declared byte order.
pub open spec fn word64(b: Seq<u8>, off: int, big: bool) -> int {
    if big {
        be64(b, off)
    } else {
        le64(b, off)
    }
}

/// Digit `k` of the base-256 decomposition of `v`, least significant first.
pub open spec fn byte_of(v: int, k: nat) -> u8
    decreases k,
{
    if k == 0 {
        (v % 0x100) as u8
    } else {
        byte_of(v / 0x100, (k - 1) as nat)
    }
}

/// A 16-bit value is recomposed exactly from its two base-256 digits.
pub proof fn lemma_recompose16(v: int)
    requires
        0 <= v < 0x1_0000,
    ensures
        (byte_of(v, 0) as int) + 0x100 * (byte_of(v, 1) as int) == v,
{
    reveal_with_fuel(byte_of, 3);
    let v1 = v / 0x100;
    assert(byte_of(v, 1) == byte_of(v1, 0));
    assert(v == v % 0x100 + 0x100 * v1);
    assert(v1 < 0x100);
}

/// A 32-bit value is recomposed exactly from its four base-256 digits.
pub proof fn lemma_recompose32(v: int)
    requires
        0 <= v < 0x1_0000_0000,
    ensures
        (byte_of(v, 0) as int) + 0x100 * (byte_of(v, 1) as int) + 0x1_0000 * (byte_of(v, 2) as int)
            + 0x100_0000 * (byte_of(v, 3) as int) == v,
{
    reveal_with_fuel(byte_of, 5);
    let v1 = v / 0x100;
    let v2 = v1 / 0x100;
    let v3 = v2 / 0x100;
    assert(byte_of(v, 1) == byte_of(v1, 0));
    assert(byte_of(v, 2) == byte_of(v2, 0));
    assert(byte_of(v, 3) == byte_of(v3, 0));
    assert(v == v % 0x100 + 0x100 * v1);
    assert(v1 == v1 % 0x100 + 0x100 * v2);
    assert(v2 == v2 % 0x100 + 0x100 * v3);
    assert(v3 < 0x100);
}

/// A 64-bit value is recomposed exactly from its eight base-256 digits.
pub proof fn lemma_recompose64(v: int)
    requires
        0 <= v < 0x1_0000_0000_0000_0000,
    ensures
        (byte_of(v, 0) as int) + 0x100 * (byte_of(v, 1) as int) + 0x1_0000 * (byte_of(v, 2) as int)
            + 0x100_0000 * (byte_of(v, 3) as int) + 0x1_0000_0000 * (byte_of(v, 4) as int)
            + 0x100_0000_0000 * (byte_of(v, 5) as int) + 0x1_0000_0000_0000 * (byte_of(
            v,
            6,
        ) as int) + 0x100_0000_0000_0000 * (byte_of(v, 7) as int) == v,
{
    reveal_with_fuel(byte_of, 9);
    let v1 = v / 0x100;
    let v2 = v1 / 0x100;
    let v3 = v2 / 0x100;
    let v4 = v3 / 0x100;
    let v5 = v4 / 0x100;
    let v6 = v5 / 0x100;
    let v7 = v6 / 0x100;
    assert(byte_of(v, 1) == byte_of(v1, 0));
    assert(byte_of(v, 2) == byte_of(v2, 0));
    assert(byte_of(v, 3) == byte_of(v3, 0));
    assert(byte_of(v, 4) == byte_of(v4, 0));
    assert(byte_of(v, 5) == byte_of(v5, 0));
    assert(byte_of(v, 6) == byte_of(v6, 0));
    assert(byte_of(v, 7) == byte_of(v7, 0));
    assert(v == v % 0x100 + 0x100 * v1);
    assert(v1 == v1 % 0x100 + 0x100 * v2);
    assert(v2 == v2 % 0x100 + 0x100 * v3);
    assert(v3 == v3 % 0x100 + 0x100 * v4);
    assert(v4 == v4 % 0x100 + 0x100 * v5);
    assert(v5 == v5 % 0x100 + 0x100 * v6);
    assert(v6 == v6 % 0x100 + 0x100 * v7);
    assert(v7 < 0x100);
}

/// One byte of the buffer, read through a bounds-checked slice access.
pub fn byte_at(b: &[u8], i: usize) -> (r: u8)
    requires
        i < b@.len(),
    ensures
        r == b@[i as int],
{
    *vstd::slice::slice_index_get(b, i)
}

/// The two bytes at `off` as a 16-bit integer, in the given byte order.
pub fn read_u16(b: &[u8], off: usize, big: bool) -> (r: u16)
    requires
        off + 2 <= b@.len(),
    ensures
        r as int == word16(b@, off as int, big),
{
    let _n: usize = b.len();
    let b0 = byte_at(b, off) as u16;
    let b1 = byte_at(b, off + 1) as u16;
    if big {
        b1 + 0x100 * b0
    } else {
        b0 + 0x100 * b1
    }
}

/// The four bytes at `off` as a 32-bit integer, in the given byte order.
pub fn read_u32(b: &[u8], off: usize, big: bool) -> (r: u32)
    requires
        off + 4 <= b@.len(),
    ensures
        r as int == word32(b@, off as int, big),
{
    let _n: usize = b.len();
    let b0 = byte_at(b, off) as u32;
    let b1 = byte_at(b, off + 1) as u32;
    let b2 = byte_at(b, off + 2) as u32;
    let b3 = byte_at(b, off + 3) as u32;
    if big {
        b3 + 0x100 * b2 + 0x1_0000 * b1 + 0x100_0000 * b0
    } else {
        b0 + 0x100 * b1 + 0x1_0000 * b2 + 0x100_0000 * b3
    }
}

/// The eight bytes at `off` as a 64-bit integer, in the given byte order.
pub fn read_u64(b: &[u8], off: usize, big: bool) -> (r: u64)
    requires
        off + 8 <= b@.len(),
    ensures
        r as int == word64(b@, off as int, big),
{
    let _n: usize = b.len();
    let lo: u64;
    let hi: u64;
    if big {
        hi = read_u32(b, off, true) as u64;
        lo = read_u32(b, off + 4, true) as u64;
    } else {
        lo = read_u32(b, off, false) as u64;
        hi = read_u32(b, off + 4, false) as u64;
    }
    lo + 0x1_0000_0000 * hi
}

} // verus!
