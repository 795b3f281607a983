//! Word mixers: rotation, shift-mix, the 128-to-64 combiner and the
//! six-input weak hash step.
use vstd::prelude::*;

verus! {

pub const K0: u64 = 0xc3a5c85c97cb3127;

pub const K1: u64 = 0xb492b66fbe98f273;

pub const K2: u64 = 0x9ae16a3b2f90404f;

pub const K3: u64 = 0xc949d7c7509e6557;

/// The odd multiplier of the 128-to-64 combiner.
pub const K_MUL: u64 = 0x9ddfea08eb382d69;

/// `v` rotated right by `s` bits, for `s < 64`; a rotation by zero is the identity.
pub open spec fn spec_rot64(v: u64, s: u64) -> u64 {
    if s == 0 {
        v
    } else {
        (v >> s) | (v << ((64 - s) as u64))
    }
}

pub open spec fn spec_shift_mix(v: u64) -> u64 {
    v ^ (v >> 47u64)
}

/// Folds the two halves of a 128-bit value into one 64-bit word.
pub open spec fn spec_hash_128_to_64(l: u64, h: u64) -> u64 {
    let a0 = (l ^ h).wrapping_mul(K_MUL);
    let a = a0 ^ (a0 >> 47u64);
    let b0 = (h ^ a).wrapping_mul(K_MUL);
    let b = b0 ^ (b0 >> 47u64);
    b.wrapping_mul(K_MUL)
}

/// The weak hash step: four words `w, x, y, z` and two seeds `a, b` give a pair of words.
pub open spec fn spec_weak_hash(w: u64, x: u64, y: u64, z: u64, a: u64, b: u64) -> (u64, u64) {
    let a1 = a.wrapping_add(w);
    let b1 = spec_rot64(b.wrapping_add(a1).wrapping_add(z), 21);
    let c = a1;
    let a2 = a1.wrapping_add(x).wrapping_add(y);
    let b2 = b1.wrapping_add(spec_rot64(a2, 44));
    (a2.wrapping_add(z), b2.wrapping_add(c))
}

/// Rotates `val` right by `shift` bits.
pub(crate) fn rot64(val: u64, shift: usize) -> (r: u64)
    requires
        shift < 64,
    ensures
        r == spec_rot64(val, shift as u64),
{
    if shift == 0 {
        return val;
    }
    (val >> (shift as u64)) | (val << ((64 - shift) as u64))
}

pub(crate) fn shift_mix(val: u64) -> (r: u64)
    ensures
        r == spec_shift_mix(val),
{
    val ^ (val >> 47u64)
}

/// Folds the 128-bit value with low half `l` and high half `h` into 64 bits.
pub fn hash_128_to_64(l: u64, h: u64) -> (r: u64)
    ensures
        r == spec_hash_128_to_64(l, h),
{
    let mut a = (l ^ h).wrapping_mul(K_MUL);
    a = a ^ (a >> 47u64);
    let mut b = (h ^ a).wrapping_mul(K_MUL);
    b = b ^ (b >> 47u64);
    b = b.wrapping_mul(K_MUL);
    b
}

/// One weak hash step over the words `w, x, y, z` with seeds `a` and `b`.
pub(crate) fn weak_hash32_seeds(w: u64, x: u64, y: u64, z: u64, a: u64, b: u64) -> (r: (u64, u64))
    ensures
        r == spec_weak_hash(w, x, y, z, a, b),
{
    let mut a = a.wrapping_add(w);
    let mut b = rot64(b.wrapping_add(a).wrapping_add(z), 21);
    let c = a;
    a = a.wrapping_add(x);
    a = a.wrapping_add(y);
    b = b.wrapping_add(rot64(a, 44));
    (a.wrapping_add(z), b.wrapping_add(c))
}

} // verus!
