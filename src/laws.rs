//! Properties of the hash as a whole.
use vstd::prelude::*;
use crate::bytes::word64;
use crate::mix::{spec_rot64, K0, K1};
use crate::city::{
    spec_city_hash_64, spec_long_round, spec_long_rounds, spec_long_start, spec_weak_hash_at,
    LongState,
};

verus! {

/// The hash is a function of the bytes alone: two buffers with the same
/// contents hash to the same value, on every call.
pub proof fn lemma_equal_bytes_equal_hash(a: Seq<u8>, b: Seq<u8>)
    requires
        a =~= b,
    ensures
        spec_city_hash_64(a) == spec_city_hash_64(b),
{
}

/// `s` and `t` hold the same bytes in `[lo, hi)`.
pub open spec fn agree_on(s: Seq<u8>, t: Seq<u8>, lo: int, hi: int) -> bool {
    forall|i: int| lo <= i < hi ==> s[i] == t[i]
}

proof fn lemma_word64_agree(s: Seq<u8>, t: Seq<u8>, off: int)
    requires
        0 <= off,
        off + 8 <= s.len(),
        off + 8 <= t.len(),
        agree_on(s, t, off, off + 8),
    ensures
        word64(s, off) == word64(t, off),
{
    assert(s.subrange(off, off + 8) =~= t.subrange(off, off + 8));
}

proof fn lemma_weak_hash_at_agree(s: Seq<u8>, t: Seq<u8>, off: int, a: u64, b: u64)
    requires
        0 <= off,
        off + 32 <= s.len(),
        off + 32 <= t.len(),
        agree_on(s, t, off, off + 32),
    ensures
        spec_weak_hash_at(s, off, a, b) == spec_weak_hash_at(t, off, a, b),
{
    lemma_word64_agree(s, t, off);
    lemma_word64_agree(s, t, off + 8);
    lemma_word64_agree(s, t, off + 16);
    lemma_word64_agree(s, t, off + 24);
}

proof fn lemma_long_rounds_agree(s: Seq<u8>, t: Seq<u8>, st: LongState, n: nat)
    requires
        s.len() >= 64,
        t.len() >= 64,
        agree_on(s, t, 0, 64),
    ensures
        spec_long_rounds(s, st, n) == spec_long_rounds(t, st, n),
    decreases n,
{
    if n > 0 {
        lemma_long_rounds_agree(s, t, st, (n - 1) as nat);
        let prev = spec_long_rounds(s, st, (n - 1) as nat);
        lemma_word64_agree(s, t, 16);
        lemma_word64_agree(s, t, 48);
        assert(spec_long_round(s, prev) == spec_long_round(t, prev)) by {
            let (x, y, z, v, w) = prev;
            let x1 = spec_rot64(
                x.wrapping_add(y).wrapping_add(v.0).wrapping_add(word64(s, 16)),
                37,
            ).wrapping_mul(K1) ^ w.1;
            let y1 = spec_rot64(y.wrapping_add(v.1).wrapping_add(word64(s, 48)), 42)
                .wrapping_mul(K1) ^ v.0;
            let z1 = spec_rot64(z ^ w.0, 33);
            lemma_weak_hash_at_agree(s, t, 0, v.1.wrapping_mul(K1), x1.wrapping_add(w.0));
            lemma_weak_hash_at_agree(s, t, 32, z1.wrapping_add(w.1), y1);
        }
    }
}

/// A buffer of more than 64 bytes hashes by its length, its first 64 bytes and
/// its last 64 bytes alone: the rounds of the long route read the first 64
/// bytes again each time, so no byte in between enters the hash.
pub proof fn lemma_long_hash_reads_only_ends(s: Seq<u8>, t: Seq<u8>)
    requires
        s.len() == t.len(),
        s.len() > 64,
        agree_on(s, t, 0, 64),
        agree_on(s, t, s.len() - 64, s.len() as int),
    ensures
        spec_city_hash_64(s) == spec_city_hash_64(t),
{
    let len = s.len() as int;
    lemma_word64_agree(s, t, 0);
    lemma_word64_agree(s, t, len - 16);
    lemma_word64_agree(s, t, len - 56);
    let y = word64(s, len - 16) ^ K1;
    lemma_weak_hash_at_agree(s, t, len - 64, len as u64, y);
    lemma_weak_hash_at_agree(
        s,
        t,
        len - 32,
        (len as u64).wrapping_mul(K1),
        K0,
    );
    assert(spec_long_start(s) == spec_long_start(t));
    lemma_long_rounds_agree(s, t, spec_long_start(s), ((len - 1) / 64) as nat);
}

} // verus!
