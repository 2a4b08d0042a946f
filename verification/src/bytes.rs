//! Little-endian integer encoding used by every snapshot format.
use vstd::prelude::*;

verus! {

pub open spec fn u16_bytes(x: u16) -> Seq<u8> {
    seq![(x % 0x100) as u8, (x / 0x100) as u8]
}

pub open spec fn u32_bytes(x: u32) -> Seq<u8> {
    u16_bytes((x % 0x10000) as u16) + u16_bytes((x / 0x10000) as u16)
}

pub open spec fn u64_bytes(x: u64) -> Seq<u8> {
    u32_bytes((x % 0x1_0000_0000) as u32) + u32_bytes((x / 0x1_0000_0000) as u32)
}

/// Little-endian u16 stored at `s[i..i + 2]`.
pub open spec fn u16_at(s: Seq<u8>, i: int) -> u16 {
    (s[i] + s[i + 1] * 0x100) as u16
}

/// Little-endian u32 stored at `s[i..i + 4]`.
#[verifier::opaque]
pub open spec fn u32_at(s: Seq<u8>, i: int) -> u32 {
    (u16_at(s, i) + u16_at(s, i + 2) * 0x10000) as u32
}

/// Little-endian u64 stored at `s[i..i + 8]`.
#[verifier::opaque]
pub open spec fn u64_at(s: Seq<u8>, i: int) -> u64 {
    (u32_at(s, i) + u32_at(s, i + 4) * 0x1_0000_0000) as u64
}

/// Decoding an encoded u16 gives the value back, wherever the bytes sit.
pub proof fn lemma_u16_roundtrip(x: u16, pre: Seq<u8>, post: Seq<u8>)
    ensures
        u16_at(pre + u16_bytes(x) + post, pre.len() as int) == x,
{
    let s = pre + u16_bytes(x) + post;
    assert(s[pre.len() as int] == (x % 0x100) as u8);
    assert(s[pre.len() as int + 1] == (x / 0x100) as u8);
}

/// A u16 reads back from two bytes that hold its encoding.
pub proof fn lemma_u16_at_bytes(s: Seq<u8>, i: int, x: u16)
    requires
        0 <= i,
        i + 2 <= s.len(),
        s.subrange(i, i + 2) == u16_bytes(x),
    ensures
        u16_at(s, i) == x,
{
    assert(s[i] == s.subrange(i, i + 2)[0]);
    assert(s[i + 1] == s.subrange(i, i + 2)[1]);
}

/// A u64 reads back from eight bytes that hold its encoding.
pub proof fn lemma_u64_at_bytes(s: Seq<u8>, i: int, x: u64)
    requires
        0 <= i,
        i + 8 <= s.len(),
        s.subrange(i, i + 8) == u64_bytes(x),
    ensures
        u64_at(s, i) == x,
{
    lemma_u64_roundtrip(x, s.subrange(0, i), s.subrange(i + 8, s.len() as int));
    assert(s =~= s.subrange(0, i) + u64_bytes(x) + s.subrange(i + 8, s.len() as int));
}

/// A u32 reads back from four bytes that hold its encoding.
pub proof fn lemma_u32_at_bytes(s: Seq<u8>, i: int, x: u32)
    requires
        0 <= i,
        i + 4 <= s.len(),
        s.subrange(i, i + 4) == u32_bytes(x),
    ensures
        u32_at(s, i) == x,
{
    lemma_u32_roundtrip(x, s.subrange(0, i), s.subrange(i + 4, s.len() as int));
    assert(s =~= s.subrange(0, i) + u32_bytes(x) + s.subrange(i + 4, s.len() as int));
}

/// Decoding an encoded u32 gives the value back, wherever the bytes sit.
pub proof fn lemma_u32_roundtrip(x: u32, pre: Seq<u8>, post: Seq<u8>)
    ensures
        u32_at(pre + u32_bytes(x) + post, pre.len() as int) == x,
{
    reveal(u32_at);
    let lo = (x % 0x10000) as u16;
    let hi = (x / 0x10000) as u16;
    let s = pre + u32_bytes(x) + post;
    assert(s =~= pre + u16_bytes(lo) + (u16_bytes(hi) + post));
    lemma_u16_roundtrip(lo, pre, u16_bytes(hi) + post);
    assert(s =~= (pre + u16_bytes(lo)) + u16_bytes(hi) + post);
    lemma_u16_roundtrip(hi, pre + u16_bytes(lo), post);
}

/// Decoding an encoded u64 gives the value back, wherever the bytes sit.
pub proof fn lemma_u64_roundtrip(x: u64, pre: Seq<u8>, post: Seq<u8>)
    ensures
        u64_at(pre + u64_bytes(x) + post, pre.len() as int) == x,
{
    reveal(u64_at);
    let lo = (x % 0x1_0000_0000) as u32;
    let hi = (x / 0x1_0000_0000) as u32;
    let s = pre + u64_bytes(x) + post;
    assert(s =~= pre + u32_bytes(lo) + (u32_bytes(hi) + post));
    lemma_u32_roundtrip(lo, pre, u32_bytes(hi) + post);
    assert(s =~= (pre + u32_bytes(lo)) + u32_bytes(hi) + post);
    lemma_u32_roundtrip(hi, pre + u32_bytes(lo), post);
}

pub fn push_u16(v: &mut Vec<u8>, x: u16)
    ensures
        final(v)@ == old(v)@ + u16_bytes(x),
{
    v.push((x % 0x100) as u8);
    v.push((x / 0x100) as u8);
    assert(final(v)@ =~= old(v)@ + u16_bytes(x));
}

pub fn push_u32(v: &mut Vec<u8>, x: u32)
    ensures
        final(v)@ == old(v)@ + u32_bytes(x),
{
    push_u16(v, (x % 0x10000) as u16);
    push_u16(v, (x / 0x10000) as u16);
    assert(final(v)@ =~= old(v)@ + u32_bytes(x));
}

pub fn push_u64(v: &mut Vec<u8>, x: u64)
    ensures
        final(v)@ == old(v)@ + u64_bytes(x),
{
    push_u32(v, (x % 0x1_0000_0000) as u32);
    push_u32(v, (x / 0x1_0000_0000) as u32);
    assert(final(v)@ =~= old(v)@ + u64_bytes(x));
}

/// Append every byte of an array.
pub fn push_array<const N: usize>(bytes: &mut Vec<u8>, a: &[u8; N])
    ensures
        final(bytes)@ == old(bytes)@ + a@,
{
    let mut i: usize = 0;
    while i < N
        invariant
            i <= N,
            a@.len() == N,
            bytes@ == old(bytes)@ + a@.subrange(0, i as int),
        decreases N - i,
    {
        bytes.push(a[i]);
        i = i + 1;
        assert(bytes@ =~= old(bytes)@ + a@.subrange(0, i as int));
    }
    assert(a@.subrange(0, N as int) =~= a@);
}

/// Append every byte of `src`.
pub fn push_all(v: &mut Vec<u8>, src: &[u8])
    ensures
        final(v)@ == old(v)@ + src@,
{
    let mut i: usize = 0;
    while i < src.len()
        invariant
            i <= src@.len(),
            v@ == old(v)@ + src@.subrange(0, i as int),
        decreases src@.len() - i,
    {
        v.push(src[i]);
        i = i + 1;
        assert(v@ =~= old(v)@ + src@.subrange(0, i as int));
    }
    assert(src@.subrange(0, src@.len() as int) =~= src@);
}

pub fn read_u16(s: &[u8], off: usize) -> (r: u16)
    requires
        off + 2 <= s@.len(),
    ensures
        r == u16_at(s@, off as int),
{
    (s[off] as u16) + (s[off + 1] as u16) * 0x100
}

pub fn read_u32(s: &[u8], off: usize) -> (r: u32)
    requires
        off + 4 <= s@.len(),
    ensures
        r == u32_at(s@, off as int),
{
    reveal(u32_at);
    let _n = s.len();
    (read_u16(s, off) as u32) + (read_u16(s, off + 2) as u32) * 0x10000
}

pub fn read_u64(s: &[u8], off: usize) -> (r: u64)
    requires
        off + 8 <= s@.len(),
    ensures
        r == u64_at(s@, off as int),
{
    reveal(u64_at);
    let _n = s.len();
    (read_u32(s, off) as u64) + (read_u32(s, off + 4) as u64) * 0x1_0000_0000
}

/// Copy `n` bytes starting at `off` into a fresh vector.
pub fn copy_range(s: &[u8], off: usize, n: usize) -> (r: Vec<u8>)
    requires
        off + n <= s@.len(),
    ensures
        r@ == s@.subrange(off as int, off + n),
{
    let mut out: Vec<u8> = Vec::with_capacity(n);
    let mut i: usize = 0;
    let len = s.len();
    while i < n
        invariant
            off + n <= s@.len(),
            len == s@.len(),
            i <= n,
            out@ == s@.subrange(off as int, off + i),
        decreases n - i,
    {
        out.push(s[off + i]);
        i = i + 1;
        assert(out@ =~= s@.subrange(off as int, off + i));
    }
    out
}

/// Overwrite `dst` with `src[off..off + N]`.
pub fn fill_from<const N: usize>(dst: &mut [u8; N], src: &[u8], off: usize)
    requires
        off + N <= src.len(),
    ensures
        final(dst)@ == src@.subrange(off as int, off + N),
{
    let mut i: usize = 0;
    while i < N
        invariant
            i <= N,
            off + N <= src.len(),
            dst@.len() == N,
            forall|k: int| 0 <= k < i ==> dst@[k] == src@[off + k],
        decreases N - i,
    {
        dst[i] = src[off + i];
        i += 1;
    }
    assert(dst@ =~= src@.subrange(off as int, off + N));
}

/// `s[k..k + n]` read from inside a part that starts at `base`.
pub proof fn lemma_part_range(s: Seq<u8>, base: int, part: Seq<u8>, k: int, n: int)
    requires
        0 <= base,
        base + part.len() <= s.len(),
        s.subrange(base, base + part.len()) == part,
        0 <= k,
        0 <= n,
        k + n <= part.len(),
    ensures
        s.subrange(base + k, base + k + n) == part.subrange(k, k + n),
        forall|j: int| 0 <= j < part.len() ==> s[base + j] == #[trigger] part[j],
{
    assert forall|j: int| 0 <= j < part.len() implies s[base + j] == #[trigger] part[j] by {
        assert(s.subrange(base, base + part.len())[j] == s[base + j]);
    }
    assert(s.subrange(base + k, base + k + n) =~= part.subrange(k, k + n));
}

} // verus!
