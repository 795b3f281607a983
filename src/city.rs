//! The length-bucketed routes of the hash and the dispatcher over them.
use vstd::prelude::*;
use crate::bytes::{fetch32_at, fetch64_at, word32, word64};
use crate::mix::{
    hash_128_to_64, rot64, shift_mix, spec_hash_128_to_64, spec_rot64, spec_shift_mix,
    spec_weak_hash, weak_hash32_seeds, K0, K1, K2, K3,
};

verus! {

/// Hash of a buffer of at most 16 bytes.
pub open spec fn spec_hash_len_0_to_16(s: Seq<u8>) -> u64 {
    let len = s.len() as int;
    if len > 8 {
        let a = word64(s, 0);
        let b = word64(s, len - 8);
        spec_hash_128_to_64(a, spec_rot64(b.wrapping_add(len as u64), len as u64)) ^ b
    } else if len >= 4 {
        let a = word32(s, 0) as int;
        spec_hash_128_to_64((len + 8 * a) as u64, word32(s, len - 4) as u64)
    } else if len > 0 {
        let y = (s[0] + 256 * s[len / 2]) as u64;
        let z = (len + 4 * s[len - 1]) as u64;
        spec_shift_mix(y.wrapping_mul(K2) ^ z.wrapping_mul(K3)).wrapping_mul(K2)
    } else {
        K2
    }
}

/// Hash of a buffer of 17 to 32 bytes.
pub open spec fn spec_hash_len_17_to_32(s: Seq<u8>) -> u64 {
    let len = s.len() as int;
    let a = word64(s, 0).wrapping_mul(K1);
    let b = word64(s, 8);
    let c = word64(s, len - 8).wrapping_mul(K2);
    let d = word64(s, len - 16).wrapping_mul(K0);
    spec_hash_128_to_64(
        spec_rot64(a.wrapping_sub(b), 43).wrapping_add(spec_rot64(c, 30)).wrapping_add(d),
        a.wrapping_add(spec_rot64(b ^ K3, 20)).wrapping_sub(c).wrapping_add(len as u64),
    )
}

/// The pair `(a + z, b + rot(a, 31) + c)` that one half of the 33-to-64 route yields,
/// where `a` starts at `a0`, takes `p` then `q`, `b = rot(a0 + z, 52)`, and `c` is
/// `rot(a0, 37)` plus `rot(a0 + p, 7)`.
pub open spec fn spec_half_33_to_64(a0: u64, z: u64, p: u64, q: u64) -> (u64, u64) {
    let b = spec_rot64(a0.wrapping_add(z), 52);
    let a1 = a0.wrapping_add(p);
    let c = spec_rot64(a0, 37).wrapping_add(spec_rot64(a1, 7));
    let a2 = a1.wrapping_add(q);
    (a2.wrapping_add(z), b.wrapping_add(spec_rot64(a2, 31)).wrapping_add(c))
}

/// Hash of a buffer of 33 to 64 bytes.
pub open spec fn spec_hash_len_33_to_64(s: Seq<u8>) -> u64 {
    let len = s.len() as int;
    let front = spec_half_33_to_64(
        word64(s, 0).wrapping_add((len as u64).wrapping_add(word64(s, len - 16)).wrapping_mul(K0)),
        word64(s, 24),
        word64(s, 8),
        word64(s, 16),
    );
    let back = spec_half_33_to_64(
        word64(s, 16).wrapping_add(word64(s, len - 32)),
        word64(s, len - 8),
        word64(s, len - 24),
        word64(s, len - 16),
    );
    let (vf, vs) = front;
    let (wf, ws) = back;
    let r = spec_shift_mix(
        vf.wrapping_add(ws).wrapping_mul(K2).wrapping_add(wf.wrapping_add(vs).wrapping_mul(K0)),
    );
    spec_shift_mix(r.wrapping_mul(K0).wrapping_add(vs)).wrapping_mul(K2)
}

/// The weak hash step over the 32 bytes of `s` at `off`.
pub open spec fn spec_weak_hash_at(s: Seq<u8>, off: int, a: u64, b: u64) -> (u64, u64) {
    spec_weak_hash(word64(s, off), word64(s, off + 8), word64(s, off + 16), word64(s, off + 24), a, b)
}

/// The state `(x, y, z, v, w)` carried through the rounds of the long route.
pub type LongState = (u64, u64, u64, (u64, u64), (u64, u64));

/// The state of the long route before its first round.
pub open spec fn spec_long_start(s: Seq<u8>) -> LongState {
    let len = s.len() as int;
    let x = word64(s, 0);
    let y = word64(s, len - 16) ^ K1;
    let z = word64(s, len - 56) ^ K0;
    let v = spec_weak_hash_at(s, len - 64, len as u64, y);
    let w = spec_weak_hash_at(s, len - 32, (len as u64).wrapping_mul(K1), K0);
    let z1 = z.wrapping_add(spec_shift_mix(v.1).wrapping_mul(K1));
    let x1 = spec_rot64(z1.wrapping_add(x), 39).wrapping_mul(K1);
    let y1 = spec_rot64(y, 33).wrapping_mul(K1);
    (x1, y1, z1, v, w)
}

/// One round of the long route. Every round reads the same first 64 bytes of `s`.
pub open spec fn spec_long_round(s: Seq<u8>, st: LongState) -> LongState {
    let (x, y, z, v, w) = st;
    let x1 = spec_rot64(x.wrapping_add(y).wrapping_add(v.0).wrapping_add(word64(s, 16)), 37)
        .wrapping_mul(K1);
    let y1 = spec_rot64(y.wrapping_add(v.1).wrapping_add(word64(s, 48)), 42).wrapping_mul(K1);
    let x2 = x1 ^ w.1;
    let y2 = y1 ^ v.0;
    let z1 = spec_rot64(z ^ w.0, 33);
    let v1 = spec_weak_hash_at(s, 0, v.1.wrapping_mul(K1), x2.wrapping_add(w.0));
    let w1 = spec_weak_hash_at(s, 32, z1.wrapping_add(w.1), y2);
    (z1, y2, x2, v1, w1)
}

/// The state after `n` rounds from `st`.
pub open spec fn spec_long_rounds(s: Seq<u8>, st: LongState, n: nat) -> LongState
    decreases n,
{
    if n == 0 {
        st
    } else {
        spec_long_round(s, spec_long_rounds(s, st, (n - 1) as nat))
    }
}

/// The number of rounds of the long route: one per whole 64 bytes in all but the last byte.
pub open spec fn spec_long_round_count(len: nat) -> nat {
    ((len - 1) / 64) as nat
}

/// Hash of a buffer of more than 64 bytes.
pub open spec fn spec_hash_len_over_64(s: Seq<u8>) -> u64 {
    let (x, y, z, v, w) = spec_long_rounds(s, spec_long_start(s), spec_long_round_count(s.len()));
    spec_hash_128_to_64(
        spec_hash_128_to_64(v.0, w.0).wrapping_add(spec_shift_mix(y).wrapping_mul(K1)).wrapping_add(z),
        spec_hash_128_to_64(v.1, w.1).wrapping_add(x),
    )
}

/// The 64-bit hash of `s`, by the route that its length selects.
pub open spec fn spec_city_hash_64(s: Seq<u8>) -> u64 {
    if s.len() <= 16 {
        spec_hash_len_0_to_16(s)
    } else if s.len() <= 32 {
        spec_hash_len_17_to_32(s)
    } else if s.len() <= 64 {
        spec_hash_len_33_to_64(s)
    } else {
        spec_hash_len_over_64(s)
    }
}

/// Hash of `s`, which holds `length` bytes, at most 16.
fn ch0to16(s: &[u8], length: usize) -> (r: u64)
    requires
        length == s@.len(),
        length <= 16,
    ensures
        r == spec_hash_len_0_to_16(s@),
{
    if length > 8 {
        let a = fetch64_at(s, 0);
        let b = fetch64_at(s, length - 8);
        return hash_128_to_64(a, rot64(b.wrapping_add(length as u64), length)) ^ b;
    }
    if length >= 4 {
        let a = fetch32_at(s, 0) as u64;
        assert(a << 3u64 == a * 8) by (bit_vector)
            requires
                a < 0x1_0000_0000,
        ;
        return hash_128_to_64((length as u64) + (a << 3u64), fetch32_at(s, length - 4) as u64);
    }
    if length > 0 {
        assert(length >> 1u64 == length / 2) by (bit_vector);
        let a = s[0];
        let b = s[length >> 1u64];
        let c = s[length - 1];
        assert((b as u32) << 8u32 == (b as u32) * 256) by (bit_vector);
        assert((c as u32) << 2u32 == (c as u32) * 4) by (bit_vector);
        let y = (a as u32) + ((b as u32) << 8u32);
        let z = (length as u32) + ((c as u32) << 2u32);
        return shift_mix((y as u64).wrapping_mul(K2) ^ (z as u64).wrapping_mul(K3)).wrapping_mul(K2);
    }
    K2
}

/// Hash of `s`, which holds `length` bytes, 17 to 32.
fn ch17to32(s: &[u8], length: usize) -> (r: u64)
    requires
        length == s@.len(),
        17 <= length <= 32,
    ensures
        r == spec_hash_len_17_to_32(s@),
{
    let a = fetch64_at(s, 0).wrapping_mul(K1);
    let b = fetch64_at(s, 8);
    let c = fetch64_at(s, length - 8).wrapping_mul(K2);
    let d = fetch64_at(s, length - 16).wrapping_mul(K0);
    hash_128_to_64(
        rot64(a.wrapping_sub(b), 43).wrapping_add(rot64(c, 30)).wrapping_add(d),
        a.wrapping_add(rot64(b ^ K3, 20)).wrapping_sub(c).wrapping_add(length as u64),
    )
}

/// Hash of `s`, which holds `length` bytes, 33 to 64.
fn ch33to64(s: &[u8], length: usize) -> (r: u64)
    requires
        length == s@.len(),
        33 <= length <= 64,
    ensures
        r == spec_hash_len_33_to_64(s@),
{
    let mut z = fetch64_at(s, 24);
    let mut a = fetch64_at(s, 0).wrapping_add(
        (length as u64).wrapping_add(fetch64_at(s, length - 16)).wrapping_mul(K0),
    );
    let mut b = rot64(a.wrapping_add(z), 52);
    let mut c = rot64(a, 37);
    a = a.wrapping_add(fetch64_at(s, 8));
    c = c.wrapping_add(rot64(a, 7));
    a = a.wrapping_add(fetch64_at(s, 16));
    let vf = a.wrapping_add(z);
    let vs = b.wrapping_add(rot64(a, 31)).wrapping_add(c);

    a = fetch64_at(s, 16).wrapping_add(fetch64_at(s, length - 32));
    z = fetch64_at(s, length - 8);
    b = rot64(a.wrapping_add(z), 52);
    c = rot64(a, 37);
    a = a.wrapping_add(fetch64_at(s, length - 24));
    c = c.wrapping_add(rot64(a, 7));
    a = a.wrapping_add(fetch64_at(s, length - 16));
    let wf = a.wrapping_add(z);
    let ws = b.wrapping_add(rot64(a, 31)).wrapping_add(c);

    let r = shift_mix(
        vf.wrapping_add(ws).wrapping_mul(K2).wrapping_add(wf.wrapping_add(vs).wrapping_mul(K0)),
    );
    shift_mix(r.wrapping_mul(K0).wrapping_add(vs)).wrapping_mul(K2)
}

/// The weak hash step over the 32 bytes of `s` at `off`, with seeds `a` and `b`.
fn weak_hash32_seeds_byte(s: &[u8], off: usize, a: u64, b: u64) -> (r: (u64, u64))
    requires
        off + 32 <= s@.len(),
    ensures
        r == spec_weak_hash_at(s@, off as int, a, b),
{
    let len = s.len();
    assert(off + 32 <= len);
    weak_hash32_seeds(
        fetch64_at(s, off),
        fetch64_at(s, off + 8),
        fetch64_at(s, off + 16),
        fetch64_at(s, off + 24),
        a,
        b,
    )
}

/// The largest multiple of 64 that does not exceed `b.len() - 1`.
fn nearest_multiple_64(b: &[u8]) -> (r: usize)
    requires
        b@.len() >= 1,
    ensures
        r == 64 * spec_long_round_count(b@.len()),
{
    let n = b.len() - 1;
    assert(n & !63usize == 64 * (n / 64)) by (bit_vector);
    n & !63usize
}

/// The 64-bit CityHash of `s`. An empty buffer hashes to `K2`.
pub fn city_hash_64(s: &[u8]) -> (r: u64)
    ensures
        r == spec_city_hash_64(s@),
        s@.len() == 0 ==> r == K2,
{
    let length = s.len();
    if length <= 16 {
        return ch0to16(s, length);
    }
    if length <= 32 {
        return ch17to32(s, length);
    }
    if length <= 64 {
        return ch33to64(s, length);
    }
    let x = fetch64_at(s, 0);
    let y = fetch64_at(s, length - 16) ^ K1;
    let mut z = fetch64_at(s, length - 56) ^ K0;

    let mut v = weak_hash32_seeds_byte(s, length - 64, length as u64, y);
    let mut w = weak_hash32_seeds_byte(s, length - 32, (length as u64).wrapping_mul(K1), K0);
    z = z.wrapping_add(shift_mix(v.1).wrapping_mul(K1));
    let mut x = rot64(z.wrapping_add(x), 39).wrapping_mul(K1);
    let mut y = rot64(y, 33).wrapping_mul(K1);

    let ghost start = (x, y, z, v, w);
    let ghost rounds = spec_long_round_count(s@.len());
    assert(start == spec_long_start(s@));
    // Whole 64-byte rounds: each one reads the first 64 bytes of `s` again.
    let mut remaining = nearest_multiple_64(s);
    let ghost mut done: nat = 0;
    while remaining > 0
        invariant
            length == s@.len(),
            length > 64,
            done <= rounds,
            remaining + 64 * done == 64 * rounds,
            (x, y, z, v, w) == spec_long_rounds(s@, start, done),
        decreases remaining,
    {
        let ghost before = (x, y, z, v, w);
        x = rot64(x.wrapping_add(y).wrapping_add(v.0).wrapping_add(fetch64_at(s, 16)), 37)
            .wrapping_mul(K1);
        y = rot64(y.wrapping_add(v.1).wrapping_add(fetch64_at(s, 48)), 42).wrapping_mul(K1);
        x = x ^ w.1;
        y = y ^ v.0;
        z = rot64(z ^ w.0, 33);
        v = weak_hash32_seeds_byte(s, 0, v.1.wrapping_mul(K1), x.wrapping_add(w.0));
        w = weak_hash32_seeds_byte(s, 32, z.wrapping_add(w.1), y);
        let t = z;
        z = x;
        x = t;
        assert((x, y, z, v, w) == spec_long_round(s@, before));
        remaining = remaining - 64;
        proof {
            done = done + 1;
        }
    }
    hash_128_to_64(
        hash_128_to_64(v.0, w.0).wrapping_add(shift_mix(y).wrapping_mul(K1)).wrapping_add(z),
        hash_128_to_64(v.1, w.1).wrapping_add(x),
    )
}

} // verus!
