//! Stable widget identifiers.
//!
//! An identifier is a 64-bit FNV-1a hash of a caller-supplied key, seeded
//! with the identifier on top of the context's identifier stack (or a fixed
//! offset basis when the stack is empty). The same key hashed under the
//! same traversal context therefore always yields the same identifier,
//! within a frame and across frames, which is what lets persistent state
//! survive the per-frame redeclaration of the UI.

use vstd::prelude::*;
use vstd::string::StringSliceAdditionalSpecFns;

verus! {

/// The FNV-1a multiplier for 64-bit hashes.
pub const FNV_PRIME: u64 = 1099511628211;

/// The FNV-1a offset basis for 64-bit hashes, used as the seed when the
/// identifier stack is empty.
pub const FNV_OFFSET_BASIS: u64 = 14695981039346656037;

/// An opaque, stable widget identifier.
#[derive(Clone, Copy, PartialEq, Eq, Structural, Debug)]
pub struct Id(pub u64);

/// One FNV-1a round: fold the byte into the running hash.
pub open spec fn fnv_step(h: u64, b: u8) -> u64 {
    vstd::wrapping::u64_specs::wrapping_mul(h ^ (b as u64), FNV_PRIME)
}

/// The FNV-1a hash of a byte sequence, starting from `seed`.
pub open spec fn fnv1a(bytes: Seq<u8>, seed: u64) -> u64
    decreases bytes.len(),
{
    if bytes.len() == 0 {
        seed
    } else {
        fnv_step(fnv1a(bytes.drop_last(), seed), bytes.last())
    }
}

/// The seed actually used for a given entropy value: zero entropy falls
/// back to the offset basis, so an empty identifier stack and a stack
/// whose top hashed to zero behave alike.
pub open spec fn seed_of(entropy: u64) -> u64 {
    if entropy > 0 {
        entropy
    } else {
        FNV_OFFSET_BASIS
    }
}

/// The little-endian bytes of a 64-bit value, for hashing numeric keys.
pub open spec fn u64_le_bytes(x: u64) -> Seq<u8> {
    Seq::new(8, |i: int| ((x >> ((8 * i) as u64)) & 0xff) as u8)
}

/// The identifier derived from a textual key under the given entropy.
pub open spec fn id_of_str(key: Seq<char>, entropy: u64) -> Id {
    Id(fnv1a(vstd::utf8::encode_utf8(key), seed_of(entropy)))
}

/// The identifier derived from a numeric key under the given entropy.
pub open spec fn id_of_u64(key: u64, entropy: u64) -> Id {
    Id(fnv1a(u64_le_bytes(key), seed_of(entropy)))
}

impl Id {
    /// Hashes a textual key: FNV-1a over the key's UTF-8 bytes, seeded
    /// with `entropy`.
    pub fn new(key: &str, entropy: u64) -> (r: Id)
        ensures
            r == id_of_str(key@, entropy),
    {
        let bytes = key.as_bytes();
        let mut h: u64 = if entropy > 0 {
            entropy
        } else {
            FNV_OFFSET_BASIS
        };
        let mut i: usize = 0;
        while i < bytes.len()
            invariant
                i <= bytes@.len(),
                bytes@ == key.spec_bytes(),
                h == fnv1a(bytes@.take(i as int), seed_of(entropy)),
            decreases bytes@.len() - i,
        {
            h = (h ^ (bytes[i] as u64)).wrapping_mul(FNV_PRIME);
            proof {
                assert(bytes@.take(i + 1 as int).drop_last() =~= bytes@.take(i as int));
                assert(bytes@.take(i + 1 as int).last() == bytes@[i as int]);
            }
            i = i + 1;
        }
        proof {
            assert(bytes@.take(bytes@.len() as int) =~= bytes@);
        }
        Id(h)
    }

    /// Hashes a numeric key: FNV-1a over its eight little-endian bytes,
    /// seeded with `entropy`.
    pub fn from_u64(key: u64, entropy: u64) -> (r: Id)
        ensures
            r == id_of_u64(key, entropy),
    {
        let mut h: u64 = if entropy > 0 {
            entropy
        } else {
            FNV_OFFSET_BASIS
        };
        let mut shift: u32 = 0;
        let mut i: usize = 0;
        while i < 8
            invariant
                i <= 8,
                shift == 8 * i,
                h == fnv1a(u64_le_bytes(key).take(i as int), seed_of(entropy)),
            decreases 8 - i,
        {
            proof {
                assert((key >> shift) & 0xff <= 0xff) by (bit_vector);
            }
            let b: u8 = ((key >> shift) & 0xff) as u8;
            proof {
                assert(b == u64_le_bytes(key)[i as int]);
                assert(u64_le_bytes(key).take(i + 1 as int).drop_last() =~= u64_le_bytes(
                    key,
                ).take(i as int));
                assert(u64_le_bytes(key).take(i + 1 as int).last() == u64_le_bytes(key)[i as int]);
            }
            h = (h ^ (b as u64)).wrapping_mul(FNV_PRIME);
            shift = shift + 8;
            i = i + 1;
        }
        proof {
            assert(u64_le_bytes(key).take(8) =~= u64_le_bytes(key));
        }
        Id(h)
    }

    /// The identifier with value zero, used for vacant pool slots.
    pub fn zero() -> (r: Id)
        ensures
            r == Id(0),
    {
        Id(0)
    }
}

/// Hashing is deterministic: under equal entropy (the same identifier
/// stack context), equal keys always map to equal identifiers, within a
/// frame and across frames.
pub proof fn lemma_id_stable(key1: Seq<char>, key2: Seq<char>, e1: u64, e2: u64)
    requires
        key1 == key2,
        e1 == e2,
    ensures
        id_of_str(key1, e1) == id_of_str(key2, e2),
{
}

} // verus!
