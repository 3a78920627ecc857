//! Content digests of plain values.
//!
//! A change is "meaningful" exactly when it moves the content digest of the
//! guarded value.  The digest is computed with [`DefaultHasher`], whose
//! result is a deterministic function of the byte sequences written to it,
//! so two observations of equal content always agree.

use std::collections::hash_map::DefaultHasher;
use std::hash::Hasher;
use vstd::prelude::*;
use vstd::std_specs::hash::DefaultHasherAdditionalSpecFns;

verus! {

/// A value whose full content can be summarized as a `u64` digest.
///
/// The digest is deterministic: the executable [`ContentHash::content_hash`]
/// always returns the mathematical digest [`ContentHash::hash_spec`] of the
/// value, so hashing the same content twice gives the same result.  Distinct
/// contents may collide; a collision suppresses change detection, which the
/// design accepts.
pub trait ContentHash: Sized {
    /// The mathematical content digest of this value.  The default digests
    /// nothing — under it no change is ever meaningful — so an
    /// implementation verified against it overrides it with a real digest.
    open spec fn hash_spec(&self) -> u64 {
        0
    }

    /// Compute the content digest of this value.
    fn content_hash(&self) -> (h: u64)
        ensures
            h == self.hash_spec(),
    ;
}

/// The eight little-endian bytes of `x`.
pub open spec fn spec_le_bytes(x: u64) -> Seq<u8> {
    seq![
        (x % 256) as u8,
        ((x / 256) % 256) as u8,
        ((x / 0x10000) % 256) as u8,
        ((x / 0x1000000) % 256) as u8,
        ((x / 0x100000000) % 256) as u8,
        ((x / 0x10000000000) % 256) as u8,
        ((x / 0x1000000000000) % 256) as u8,
        (x / 0x100000000000000) as u8,
    ]
}

/// Split `x` into its eight little-endian bytes.
pub fn le_bytes(x: u64) -> (v: Vec<u8>)
    ensures
        v@ == spec_le_bytes(x),
        v@.len() == 8,
{
    let mut v: Vec<u8> = Vec::new();
    v.push((x % 256) as u8);
    v.push(((x / 256) % 256) as u8);
    v.push(((x / 0x10000) % 256) as u8);
    v.push(((x / 0x1000000) % 256) as u8);
    v.push(((x / 0x100000000) % 256) as u8);
    v.push(((x / 0x10000000000) % 256) as u8);
    v.push(((x / 0x1000000000000) % 256) as u8);
    v.push((x / 0x100000000000000) as u8);
    proof {
        assert(v@ =~= spec_le_bytes(x));
    }
    v
}

impl ContentHash for u64 {
    open spec fn hash_spec(&self) -> u64 {
        DefaultHasher::spec_finish(seq![spec_le_bytes(*self)])
    }

    fn content_hash(&self) -> (h: u64) {
        let bytes = le_bytes(*self);
        let mut hasher = DefaultHasher::new();
        hasher.write(bytes.as_slice());
        proof {
            assert(hasher@ =~= seq![spec_le_bytes(*self)]);
        }
        hasher.finish()
    }
}

impl ContentHash for Vec<u8> {
    open spec fn hash_spec(&self) -> u64 {
        DefaultHasher::spec_finish(seq![self@])
    }

    fn content_hash(&self) -> (h: u64) {
        let mut hasher = DefaultHasher::new();
        hasher.write(self.as_slice());
        proof {
            assert(hasher@ =~= seq![self@]);
        }
        hasher.finish()
    }
}

impl ContentHash for String {
    open spec fn hash_spec(&self) -> u64 {
        DefaultHasher::spec_finish(seq![vstd::utf8::encode_utf8(self@)])
    }

    fn content_hash(&self) -> (h: u64) {
        let mut hasher = DefaultHasher::new();
        hasher.write(self.as_str().as_bytes());
        proof {
            assert(hasher@ =~= seq![vstd::utf8::encode_utf8(self@)]);
        }
        hasher.finish()
    }
}

impl ContentHash for i32 {
    open spec fn hash_spec(&self) -> u64 {
        DefaultHasher::spec_finish(seq![spec_le_bytes(((*self as int) + 0x80000000) as u64)])
    }

    fn content_hash(&self) -> (h: u64) {
        let biased: u64 = ((*self as i64) + 0x80000000) as u64;
        let bytes = le_bytes(biased);
        let mut hasher = DefaultHasher::new();
        hasher.write(bytes.as_slice());
        proof {
            assert(hasher@ =~= seq![spec_le_bytes(biased)]);
        }
        hasher.finish()
    }
}

} // verus!
