//! Little-endian word loads from byte buffers.
use vstd::prelude::*;

verus! {

/// The little-endian value of the first `n` bytes of `s`, as a 64-bit word
/// (meaningful for `n <= 8`).
pub open spec fn le_u64(s: Seq<u8>, n: nat) -> u64
    decreases n,
{
    if n == 0 {
        0
    } else {
        le_u64(s, (n - 1) as nat) | ((s[n - 1] as u64) << ((8 * (n - 1)) as u64))
    }
}

/// The little-endian value of the first `n` bytes of `s`, as a 32-bit word
/// (meaningful for `n <= 4`).
pub open spec fn le_u32(s: Seq<u8>, n: nat) -> u32
    decreases n,
{
    if n == 0 {
        0
    } else {
        le_u32(s, (n - 1) as nat) | ((s[n - 1] as u32) << ((8 * (n - 1)) as u32))
    }
}

/// The 8-byte little-endian word of `s` that starts at `off`.
pub open spec fn word64(s: Seq<u8>, off: int) -> u64 {
    le_u64(s.subrange(off, off + 8), 8)
}

/// The 4-byte little-endian word of `s` that starts at `off`.
pub open spec fn word32(s: Seq<u8>, off: int) -> u32 {
    le_u32(s.subrange(off, off + 4), 4)
}

/// Only the first `n` bytes enter `le_u64(s, n)`.
proof fn lemma_le_u64_prefix(s: Seq<u8>, t: Seq<u8>, n: nat)
    requires
        n <= s.len(),
        n <= t.len(),
        forall|i: int| 0 <= i < n ==> s[i] == t[i],
    ensures
        le_u64(s, n) == le_u64(t, n),
    decreases n,
{
    if n > 0 {
        lemma_le_u64_prefix(s, t, (n - 1) as nat);
    }
}

/// Only the first `n` bytes enter `le_u32(s, n)`.
proof fn lemma_le_u32_prefix(s: Seq<u8>, t: Seq<u8>, n: nat)
    requires
        n <= s.len(),
        n <= t.len(),
        forall|i: int| 0 <= i < n ==> s[i] == t[i],
    ensures
        le_u32(s, n) == le_u32(t, n),
    decreases n,
{
    if n > 0 {
        lemma_le_u32_prefix(s, t, (n - 1) as nat);
    }
}

/// Reads the first eight bytes of `bytes` as a little-endian unsigned word.
pub fn read_uint64_le(bytes: &[u8]) -> (r: u64)
    requires
        bytes@.len() >= 8,
    ensures
        r == word64(bytes@, 0),
{
    let mut res: u64 = 0;
    let mut i: usize = 0;
    while i < 8
        invariant
            i <= 8,
            bytes@.len() >= 8,
            res == le_u64(bytes@, i as nat),
        decreases 8 - i,
    {
        res = res | ((bytes[i] as u64) << ((i * 8) as u64));
        i = i + 1;
    }
    proof {
        lemma_le_u64_prefix(bytes@, bytes@.subrange(0, 8), 8);
    }
    res
}

/// Reads the first four bytes of `p` as a little-endian unsigned word.
pub(crate) fn fetch32(p: &[u8]) -> (r: u32)
    requires
        p@.len() >= 4,
    ensures
        r == word32(p@, 0),
{
    let mut res: u32 = 0;
    let mut i: usize = 0;
    while i < 4
        invariant
            i <= 4,
            p@.len() >= 4,
            res == le_u32(p@, i as nat),
        decreases 4 - i,
    {
        res = res | ((p[i] as u32) << ((i * 8) as u32));
        i = i + 1;
    }
    proof {
        lemma_le_u32_prefix(p@, p@.subrange(0, 4), 4);
    }
    res
}

/// The 8-byte little-endian word of `s` at `off`.
pub(crate) fn fetch64_at(s: &[u8], off: usize) -> (r: u64)
    requires
        off + 8 <= s@.len(),
    ensures
        r == word64(s@, off as int),
{
    let len = s.len();
    assert(off + 8 <= len);
    let r = read_uint64_le(&s[off..off + 8]);
    assert(s@.subrange(off as int, off + 8).subrange(0, 8) =~= s@.subrange(off as int, off + 8));
    r
}

/// The 4-byte little-endian word of `s` at `off`.
pub(crate) fn fetch32_at(s: &[u8], off: usize) -> (r: u32)
    requires
        off + 4 <= s@.len(),
    ensures
        r == word32(s@, off as int),
{
    let len = s.len();
    assert(off + 4 <= len);
    let r = fetch32(&s[off..off + 4]);
    assert(s@.subrange(off as int, off + 4).subrange(0, 4) =~= s@.subrange(off as int, off + 4));
    r
}

} // verus!
