//! Content fingerprinting: a deterministic, order-sensitive 64-bit hash over
//! a byte sequence, used to build cache-busting URLs. Identical bytes always
//! yield an identical fingerprint; the value depends on nothing but the bytes.

use vstd::prelude::*;

verus! {

/// Initial accumulator value of the fingerprint hash.
pub const FINGERPRINT_OFFSET_BASIS: u64 = 0xcbf29ce484222325;

/// Multiplier applied after each byte is folded into the accumulator.
pub const FINGERPRINT_PRIME: u64 = 0x00000100000001B3;

/// One accumulation step: fold byte `b` into accumulator `acc` by XOR, then
/// multiply by the fixed prime with wraparound.
pub open spec fn fingerprint_step(acc: u64, b: u64) -> u64 {
    vstd::wrapping::u64_specs::wrapping_mul(acc ^ b, FINGERPRINT_PRIME)
}

/// The fingerprint of a byte sequence: the accumulator after folding in every
/// byte, left to right, starting from the fixed offset basis. A pure function
/// of the bytes alone.
pub open spec fn fingerprint_of(bytes: Seq<u8>) -> u64
    decreases bytes.len(),
{
    if bytes.len() == 0 {
        FINGERPRINT_OFFSET_BASIS
    } else {
        fingerprint_step(fingerprint_of(bytes.drop_last()), bytes.last() as u64)
    }
}

/// Computes the fingerprint of `bytes`. Total: defined for every byte
/// sequence, including the empty one; never fails.
pub fn fingerprint(bytes: &Vec<u8>) -> (r: u64)
    ensures
        r == fingerprint_of(bytes@),
{
    let mut hash: u64 = FINGERPRINT_OFFSET_BASIS;
    let mut i: usize = 0;
    while i < bytes.len()
        invariant
            i <= bytes.len(),
            hash == fingerprint_of(bytes@.take(i as int)),
        decreases bytes.len() - i,
    {
        hash = (hash ^ (bytes[i] as u64)).wrapping_mul(FINGERPRINT_PRIME);
        i = i + 1;
        proof {
            assert(bytes@.take(i as int).drop_last() =~= bytes@.take(i as int - 1));
        }
    }
    proof {
        assert(bytes@.take(bytes@.len() as int) =~= bytes@);
    }
    hash
}

/// Determinism: the fingerprint is a function of the byte sequence alone, so
/// equal byte sequences always have equal fingerprints, however often and
/// wherever they are computed.
pub proof fn lemma_fingerprint_deterministic(b1: Seq<u8>, b2: Seq<u8>)
    requires
        b1 == b2,
    ensures
        fingerprint_of(b1) == fingerprint_of(b2),
{
}

} // verus!
