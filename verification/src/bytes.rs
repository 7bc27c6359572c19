//! Little-endian integer codecs over byte sequences.

use vstd::prelude::*;

verus! {

/// The sequence `s` with `t` written over it from position `off`.
pub open spec fn splice(s: Seq<u8>, off: int, t: Seq<u8>) -> Seq<u8> {
    s.subrange(0, off) + t + s.subrange(off + t.len(), s.len() as int)
}

/// The little-endian value of the four bytes of `s` that start at `off`.
pub open spec fn le_u32(s: Seq<u8>, off: int) -> int {
    s[off] + 256 * s[off + 1] + 65536 * s[off + 2] + 16777216 * s[off + 3]
}

/// The little-endian value of the eight bytes of `s` that start at `off`.
pub open spec fn le_u64(s: Seq<u8>, off: int) -> int {
    le_u32(s, off) + 4294967296 * le_u32(s, off + 4)
}

/// The four little-endian bytes of `v`.
pub open spec fn u32_le_bytes(v: u32) -> Seq<u8> {
    seq![(v % 256) as u8, ((v / 256) % 256) as u8, ((v / 65536) % 256) as u8, (v / 16777216) as u8]
}

/// The eight little-endian bytes of `v`.
pub open spec fn u64_le_bytes(v: u64) -> Seq<u8> {
    u32_le_bytes((v % 4294967296) as u32) + u32_le_bytes((v / 4294967296) as u32)
}

/// Decoding the bytes of `v` gives `v` back.
pub proof fn lemma_u32_roundtrip(v: u32)
    ensures
        le_u32(u32_le_bytes(v), 0) == v,
{
    let b = u32_le_bytes(v);
    assert(b[0] + 256 * b[1] + 65536 * b[2] + 16777216 * b[3] == v) by (nonlinear_arith)
        requires
            b[0] == v % 256,
            b[1] == (v / 256) % 256,
            b[2] == (v / 65536) % 256,
            b[3] == v / 16777216,
            v < 4294967296,
    ;
}

/// Decoding the bytes of `v` gives `v` back.
pub proof fn lemma_u64_roundtrip(v: u64)
    ensures
        le_u64(u64_le_bytes(v), 0) == v,
{
    let lo = (v % 4294967296) as u32;
    let hi = (v / 4294967296) as u32;
    lemma_u32_roundtrip(lo);
    lemma_u32_roundtrip(hi);
    let b = u64_le_bytes(v);
    assert(le_u32(b, 0) == le_u32(u32_le_bytes(lo), 0));
    assert(le_u32(b, 4) == le_u32(u32_le_bytes(hi), 0));
    assert(v == lo + 4294967296 * hi) by (nonlinear_arith)
        requires
            lo == v % 4294967296,
            hi == v / 4294967296,
    ;
}

/// Reads the little-endian `u32` at `off`.
pub fn read_u32_le(s: &[u8], off: usize) -> (r: u32)
    requires
        off + 4 <= s@.len(),
    ensures
        r == le_u32(s@, off as int),
{
    s[off] as u32 + (s[off + 1] as u32) * 256 + (s[off + 2] as u32) * 65536 + (s[off + 3] as u32)
        * 16777216
}

/// Reads the little-endian `u64` at `off`.
pub fn read_u64_le(s: &[u8], off: usize) -> (r: u64)
    requires
        off + 8 <= s.len(),
    ensures
        r == le_u64(s@, off as int),
{
    let lo = read_u32_le(s, off) as u64;
    let hi = read_u32_le(s, off + 4) as u64;
    lo + hi * 4294967296
}

/// Writes `v` in little-endian order over the four bytes at `off`.
pub fn write_u32_le(s: &mut [u8], off: usize, v: u32)
    requires
        off + 4 <= old(s)@.len(),
    ensures
        final(s)@ == splice(old(s)@, off as int, u32_le_bytes(v)),
{
    s[off] = (v % 256) as u8;
    s[off + 1] = ((v / 256) % 256) as u8;
    s[off + 2] = ((v / 65536) % 256) as u8;
    s[off + 3] = (v / 16777216) as u8;
    assert(s@ =~= splice(old(s)@, off as int, u32_le_bytes(v)));
}

/// Writes `v` in little-endian order over the eight bytes at `off`.
pub fn write_u64_le(s: &mut [u8], off: usize, v: u64)
    requires
        off + 8 <= old(s).len(),
    ensures
        final(s)@ == splice(old(s)@, off as int, u64_le_bytes(v)),
{
    write_u32_le(s, off, (v % 4294967296) as u32);
    write_u32_le(s, off + 4, (v / 4294967296) as u32);
    assert(s@ =~= splice(old(s)@, off as int, u64_le_bytes(v)));
}

/// Appends the four little-endian bytes of `v` to `out`.
pub fn push_u32_le(out: &mut Vec<u8>, v: u32)
    ensures
        final(out)@ == old(out)@ + u32_le_bytes(v),
{
    out.push((v % 256) as u8);
    out.push(((v / 256) % 256) as u8);
    out.push(((v / 65536) % 256) as u8);
    out.push((v / 16777216) as u8);
    assert(out@ =~= old(out)@ + u32_le_bytes(v));
}

/// Copies `len` bytes of `src`, from `from` on, over `dst` from `at` on.
pub fn copy_into(dst: &mut [u8], at: usize, src: &[u8], from: usize, len: usize)
    requires
        at + len <= old(dst).len(),
        from + len <= src.len(),
    ensures
        final(dst)@ == splice(old(dst)@, at as int, src@.subrange(from as int, from + len)),
{
    let ghost d0 = dst@;
    let mut k: usize = 0;
    while k < len
        invariant
            k <= len,
            at + len <= dst.len(),
            from + len <= src.len(),
            dst@.len() == d0.len(),
            dst@ == splice(d0, at as int, src@.subrange(from as int, from + k)),
        decreases len - k,
    {
        dst[at + k] = src[from + k];
        k = k + 1;
        assert(dst@ =~= splice(d0, at as int, src@.subrange(from as int, from + k)));
    }
}

/// Appends the bytes of `src` from `from` up to `to` to `out`.
pub fn extend_bytes(out: &mut Vec<u8>, src: &[u8], from: usize, to: usize)
    requires
        from <= to <= src.len(),
    ensures
        final(out)@ == old(out)@ + src@.subrange(from as int, to as int),
{
    let ghost o0 = out@;
    let mut k: usize = from;
    while k < to
        invariant
            from <= k <= to,
            to <= src.len(),
            out@ == o0 + src@.subrange(from as int, k as int),
        decreases to - k,
    {
        out.push(src[k]);
        k = k + 1;
        assert(out@ =~= o0 + src@.subrange(from as int, k as int));
    }
}

} // verus!
