//! Shared FNV-1a 64-bit folding.

use vstd::prelude::*;

verus! {

/// The standard FNV-1a 64-bit offset basis.
pub const FNV1A_OFFSET_BASIS: u64 = 0xCBF2_9CE4_8422_2325;

/// The standard FNV-1a 64-bit prime.
pub const FNV1A_PRIME: u64 = 0x0000_0100_0000_01B3;

/// One FNV-1a step: xor the byte in, then multiply by the prime modulo 2^64.
pub open spec fn fnv1a_step(hash: u64, byte: u8) -> u64 {
    vstd::wrapping::u64_specs::wrapping_mul(hash ^ (byte as u64), FNV1A_PRIME)
}

/// FNV-1a folding of a whole byte sequence into `hash`, first byte first.
pub open spec fn fnv1a(hash: u64, bytes: Seq<u8>) -> u64
    decreases bytes.len(),
{
    if bytes.len() == 0 {
        hash
    } else {
        fnv1a_step(fnv1a(hash, bytes.drop_last()), bytes.last())
    }
}

/// Folding two sequences one after the other is folding their concatenation.
pub proof fn lemma_fnv1a_append(hash: u64, a: Seq<u8>, b: Seq<u8>)
    ensures
        fnv1a(fnv1a(hash, a), b) == fnv1a(hash, a + b),
    decreases b.len(),
{
    if b.len() == 0 {
        assert(a + b =~= a);
    } else {
        lemma_fnv1a_append(hash, a, b.drop_last());
        assert((a + b).drop_last() =~= a + b.drop_last());
        assert((a + b).last() == b.last());
    }
}

/// Fold `bytes` into `hash` with FNV-1a.
pub fn fnv1a_fold(hash: u64, bytes: &[u8]) -> (result: u64)
    ensures
        result == fnv1a(hash, bytes@),
{
    let mut acc = hash;
    let mut i: usize = 0;
    while i < bytes.len()
        invariant
            i <= bytes@.len(),
            acc == fnv1a(hash, bytes@.take(i as int)),
        decreases bytes@.len() - i,
    {
        let byte = bytes[i];
        assert(bytes@.take(i + 1).drop_last() =~= bytes@.take(i as int));
        acc = (acc ^ (byte as u64)).wrapping_mul(FNV1A_PRIME);
        i = i + 1;
    }
    assert(bytes@.take(i as int) =~= bytes@);
    acc
}

/// The eight little-endian bytes of a word.
pub open spec fn u64_le_bytes(value: u64) -> Seq<u8> {
    Seq::new(8, |k: int| ((value >> (8 * k) as u64) & 0xff) as u8)
}

/// Fold the eight little-endian bytes of `value` into `hash` with FNV-1a.
pub fn fnv1a_fold_u64(hash: u64, value: u64) -> (out: u64)
    ensures
        out == fnv1a(hash, u64_le_bytes(value)),
{
    let mut out = hash;
    let mut k: u64 = 0;
    while k < 8
        invariant
            k <= 8,
            out == fnv1a(hash, u64_le_bytes(value).take(k as int)),
        decreases 8 - k,
    {
        let byte = ((value >> (8 * k)) & 0xff) as u8;
        assert(u64_le_bytes(value).take(k + 1).drop_last() =~= u64_le_bytes(value).take(k as int));
        assert(u64_le_bytes(value).take(k + 1).last() == byte);
        out = (out ^ (byte as u64)).wrapping_mul(FNV1A_PRIME);
        k = k + 1;
    }
    assert(u64_le_bytes(value).take(8) =~= u64_le_bytes(value));
    out
}

} // verus!
