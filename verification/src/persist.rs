//! The two capabilities a persistent store consumes: an encoding of the
//! guarded value and a storage backend holding one blob of bytes.
//!
//! Both are supplied by the host through the [`Codec`] and [`Storage`]
//! traits.  The library itself provides [`MemStorage`], an in-memory
//! backend, and [`LeU64Codec`], a fixed-width encoding of `u64`, both
//! verified against the trait contracts.

use crate::hashing::{le_bytes, spec_le_bytes};
use vstd::arithmetic::div_mod::{lemma_div_denominator, lemma_fundamental_div_mod};
use vstd::prelude::*;

verus! {

broadcast use vstd::seq::group_seq_axioms;

/// A failed storage operation.  What went wrong is the backend's own
/// affair; the store only distinguishes success from failure.
#[derive(Clone, Copy, Debug, PartialEq, Eq, Structural)]
pub struct IoError;

/// An encoding of values of type `T` as bytes.
///
/// The host supplies the implementation — in the spirit of serde, the
/// format is the codec's own choice.  Encoding may vary its output from
/// call to call (key order, whitespace), but whatever bytes it emits must
/// decode back to the encoded value: the round trip is value-equivalent.
pub trait Codec<T> {
    /// The value, if any, that `bytes` decode to.  The default decodes
    /// nothing, so an implementation verified against it overrides it with
    /// its own format.
    open spec fn spec_decode(&self, bytes: Seq<u8>) -> Option<T> {
        None
    }

    /// Encode a value.  Whatever bytes come out decode back to the value.
    fn encode(&self, item: &T) -> (r: Vec<u8>)
        ensures
            self.spec_decode(r@) == Some(*item),
    ;

    /// Decode bytes, returning exactly the value they encode, if any.
    fn decode(&self, bytes: &Vec<u8>) -> (r: Option<T>)
        ensures
            r == self.spec_decode(bytes@),
    ;
}

/// A storage slot holding at most one blob of bytes, with overwrite
/// semantics.
///
/// The host supplies the implementation (typically one file at one path).
/// Nothing promises that an operation succeeds — that is the backend's
/// decision — but a successful read returns the current contents and a
/// successful write replaces them.  A failed write promises nothing of
/// what it leaves behind.
pub trait Storage: Sized {
    /// The bytes a complete read would currently return, if any.  The
    /// default holds nothing, so an implementation verified against it
    /// overrides it with its own state.
    open spec fn contents(&self) -> Option<Seq<u8>> {
        None
    }

    /// Read the full stored contents.
    fn read_all(&self) -> (r: Result<Vec<u8>, IoError>)
        ensures
            r matches Ok(v) ==> self.contents() == Some(v@),
    ;

    /// Overwrite the stored contents with the given bytes.
    fn write_all(&mut self, bytes: &Vec<u8>) -> (r: Result<(), IoError>)
        ensures
            r is Ok ==> final(self).contents() == Some(bytes@),
    ;
}

/// An in-memory storage slot: one optional blob of bytes, starting empty.
/// Its operations always succeed.
pub struct MemStorage {
    stored: Option<Vec<u8>>,
}

impl MemStorage {
    /// A fresh, empty slot: reading it fails until something is written.
    pub fn new() -> (r: Self)
        ensures
            r.contents() is None,
    {
        MemStorage { stored: None }
    }

    /// A slot already holding the given bytes.
    pub fn with_bytes(bytes: Vec<u8>) -> (r: Self)
        ensures
            r.contents() == Some(bytes@),
    {
        MemStorage { stored: Some(bytes) }
    }

    /// The stored bytes, for inspection.
    pub fn stored(&self) -> (r: &Option<Vec<u8>>)
        ensures
            match *r {
                Some(v) => self.contents() == Some(v@),
                None => self.contents() is None,
            },
    {
        &self.stored
    }
}

impl Storage for MemStorage {
    closed spec fn contents(&self) -> Option<Seq<u8>> {
        match self.stored {
            Some(v) => Some(v@),
            None => None,
        }
    }

    fn read_all(&self) -> (r: Result<Vec<u8>, IoError>)
        ensures
            match r {
                Ok(v) => self.contents() == Some(v@),
                Err(_) => self.contents() is None,
            },
    {
        match &self.stored {
            Some(v) => Ok(v.clone()),
            None => Err(IoError),
        }
    }

    fn write_all(&mut self, bytes: &Vec<u8>) -> (r: Result<(), IoError>)
        ensures
            r is Ok,
            final(self).contents() == Some(bytes@),
    {
        self.stored = Some(bytes.clone());
        Ok(())
    }
}

/// The value of eight little-endian bytes.
pub open spec fn spec_le_value(b: Seq<u8>) -> u64 {
    (b[0] + 256 * (b[1] + 256 * (b[2] + 256 * (b[3] + 256 * (b[4] + 256 * (b[5] + 256 * (b[6]
        + 256 * b[7]))))))) as u64
}

/// Recombining the little-endian bytes of `x` gives back `x`.
proof fn lemma_le_bytes_value(x: u64)
    ensures
        spec_le_value(spec_le_bytes(x)) == x,
{
    let xi = x as int;
    let q1 = xi / 256;
    let q2 = xi / 0x10000;
    let q3 = xi / 0x1000000;
    let q4 = xi / 0x100000000;
    let q5 = xi / 0x10000000000;
    let q6 = xi / 0x1000000000000;
    let q7 = xi / 0x100000000000000;
    lemma_div_denominator(xi, 256, 256);
    lemma_div_denominator(xi, 0x10000, 256);
    lemma_div_denominator(xi, 0x1000000, 256);
    lemma_div_denominator(xi, 0x100000000, 256);
    lemma_div_denominator(xi, 0x10000000000, 256);
    lemma_div_denominator(xi, 0x1000000000000, 256);
    lemma_fundamental_div_mod(xi, 256);
    lemma_fundamental_div_mod(q1, 256);
    lemma_fundamental_div_mod(q2, 256);
    lemma_fundamental_div_mod(q3, 256);
    lemma_fundamental_div_mod(q4, 256);
    lemma_fundamental_div_mod(q5, 256);
    lemma_fundamental_div_mod(q6, 256);
    assert(q7 < 256) by (nonlinear_arith)
        requires
            q7 == xi / 0x100000000000000,
            0 <= xi < 0x10000000000000000,
    ;
    let b = spec_le_bytes(x);
    assert(b[0] as int == xi % 256);
    assert(b[1] as int == q1 % 256);
    assert(b[2] as int == q2 % 256);
    assert(b[3] as int == q3 % 256);
    assert(b[4] as int == q4 % 256);
    assert(b[5] as int == q5 % 256);
    assert(b[6] as int == q6 % 256);
    assert(b[7] as int == q7);
    assert(b[6] as int + 256 * q7 == q6);
    assert(b[5] as int + 256 * q6 == q5);
    assert(b[4] as int + 256 * q5 == q4);
    assert(b[3] as int + 256 * q4 == q3);
    assert(b[2] as int + 256 * q3 == q2);
    assert(b[1] as int + 256 * q2 == q1);
    assert(b[0] as int + 256 * q1 == xi);
    assert(spec_le_value(b) == x);
}

/// The fixed-width little-endian encoding of a `u64`: always eight bytes,
/// decoding exactly the eight-byte blobs.
pub struct LeU64Codec;

impl Codec<u64> for LeU64Codec {
    open spec fn spec_decode(&self, bytes: Seq<u8>) -> Option<u64> {
        if bytes.len() == 8 {
            Some(spec_le_value(bytes))
        } else {
            None
        }
    }

    fn encode(&self, item: &u64) -> (r: Vec<u8>) {
        let v = le_bytes(*item);
        proof {
            lemma_le_bytes_value(*item);
        }
        v
    }

    fn decode(&self, bytes: &Vec<u8>) -> (r: Option<u64>) {
        if bytes.len() != 8 {
            return None;
        }
        let mut acc: u64 = bytes[7] as u64;
        acc = acc * 256 + bytes[6] as u64;
        acc = acc * 256 + bytes[5] as u64;
        acc = acc * 256 + bytes[4] as u64;
        acc = acc * 256 + bytes[3] as u64;
        acc = acc * 256 + bytes[2] as u64;
        acc = acc * 256 + bytes[1] as u64;
        acc = acc * 256 + bytes[0] as u64;
        Some(acc)
    }
}

} // verus!
