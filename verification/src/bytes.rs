//! Reading integers out of byte slices.

use vstd::prelude::*;

verus! {

/// The big-endian 16-bit integer at `off`.
#[verifier::opaque]
pub open spec fn be16(s: Seq<u8>, off: int) -> u16 {
    (s[off] * 0x100 + s[off + 1]) as u16
}

/// The big-endian 32-bit integer at `off`.
#[verifier::opaque]
pub open spec fn be32(s: Seq<u8>, off: int) -> u32 {
    (s[off] * 0x100_0000 + s[off + 1] * 0x1_0000 + s[off + 2] * 0x100 + s[off + 3]) as u32
}

/// The little-endian 16-bit integer at `off`.
#[verifier::opaque]
pub open spec fn le16(s: Seq<u8>, off: int) -> u16 {
    (s[off] + s[off + 1] * 0x100) as u16
}

/// The little-endian 24-bit integer at `off`.
#[verifier::opaque]
pub open spec fn le24(s: Seq<u8>, off: int) -> u32 {
    (s[off] + s[off + 1] * 0x100 + s[off + 2] * 0x1_0000) as u32
}

/// The little-endian 32-bit integer at `off`.
#[verifier::opaque]
pub open spec fn le32(s: Seq<u8>, off: int) -> u32 {
    (s[off] + s[off + 1] * 0x100 + s[off + 2] * 0x1_0000 + s[off + 3] * 0x100_0000) as u32
}

/// The little-endian 64-bit integer at `off`.
#[verifier::opaque]
pub open spec fn le64(s: Seq<u8>, off: int) -> u64 {
    (le32(s, off) + le32(s, off + 4) * 0x1_0000_0000) as u64
}

pub fn read_u16_be(bs: &[u8], off: usize) -> (r: u16)
    requires
        off + 2 <= bs.len(),
    ensures
        r == be16(bs@, off as int),
{
    reveal(be16);
    let hi: u16 = bs[off] as u16;
    let lo: u16 = bs[off + 1] as u16;
    hi * 0x100 + lo
}

pub fn read_u32_be(bs: &[u8], off: usize) -> (r: u32)
    requires
        off + 4 <= bs.len(),
    ensures
        r == be32(bs@, off as int),
{
    reveal(be32);
    let b0: u32 = bs[off] as u32;
    let b1: u32 = bs[off + 1] as u32;
    let b2: u32 = bs[off + 2] as u32;
    let b3: u32 = bs[off + 3] as u32;
    b0 * 0x100_0000 + b1 * 0x1_0000 + b2 * 0x100 + b3
}

pub fn read_u16_le(bs: &[u8], off: usize) -> (r: u16)
    requires
        off + 2 <= bs.len(),
    ensures
        r == le16(bs@, off as int),
{
    reveal(le16);
    let lo: u16 = bs[off] as u16;
    let hi: u16 = bs[off + 1] as u16;
    hi * 0x100 + lo
}

pub fn read_u32_le(bs: &[u8], off: usize) -> (r: u32)
    requires
        off + 4 <= bs.len(),
    ensures
        r == le32(bs@, off as int),
{
    reveal(le32);
    let b0: u32 = bs[off] as u32;
    let b1: u32 = bs[off + 1] as u32;
    let b2: u32 = bs[off + 2] as u32;
    let b3: u32 = bs[off + 3] as u32;
    b3 * 0x100_0000 + b2 * 0x1_0000 + b1 * 0x100 + b0
}

pub fn read_u64_le(bs: &[u8], off: usize) -> (r: u64)
    requires
        off + 8 <= bs.len(),
    ensures
        r == le64(bs@, off as int),
{
    reveal(le64);
    let lo: u64 = read_u32_le(bs, off) as u64;
    let hi: u64 = read_u32_le(bs, off + 4) as u64;
    hi * 0x1_0000_0000 + lo
}

/// Copies `bs[start..end]` into a new vector.
pub fn copy_range(bs: &[u8], start: usize, end: usize) -> (r: Vec<u8>)
    requires
        start <= end <= bs.len(),
    ensures
        r@ == bs@.subrange(start as int, end as int),
{
    let mut out: Vec<u8> = Vec::new();
    let mut i: usize = start;
    while i < end
        invariant
            start <= i <= end <= bs.len(),
            out@ == bs@.subrange(start as int, i as int),
        decreases end - i,
    {
        out.push(bs[i]);
        i += 1;
    }
    out
}

} // verus!
