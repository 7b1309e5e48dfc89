//! Measurements that the bridge carries through without looking inside.

use vstd::prelude::*;

verus! {

/// A single-precision measurement (a coordinate, a length, a scroll delta) in
/// logical points, held as its IEEE-754 bit pattern.
///
/// The bridge never does arithmetic on these: it hands each one on exactly as
/// it came, so two scalars are equal when their bit patterns are.
#[derive(Clone, Copy, PartialEq, Eq, Debug, Structural)]
pub struct Scalar {
    pub bits: u32,
}

impl Scalar {
    /// The scalar with the given bit pattern.
    pub fn from_bits(bits: u32) -> (s: Scalar)
        ensures
            s.bits == bits,
    {
        Scalar { bits }
    }

    /// The bit pattern of this scalar.
    pub fn to_bits(&self) -> (bits: u32)
        ensures
            bits == self.bits,
    {
        self.bits
    }
}

/// A point in time, in seconds, held as the IEEE-754 bit pattern of a
/// double-precision value.
#[derive(Clone, Copy, PartialEq, Eq, Debug, Structural)]
pub struct Timestamp {
    pub bits: u64,
}

impl Timestamp {
    /// The timestamp with the given bit pattern.
    pub fn from_bits(bits: u64) -> (t: Timestamp)
        ensures
            t.bits == bits,
    {
        Timestamp { bits }
    }

    /// The bit pattern of this timestamp.
    pub fn to_bits(&self) -> (bits: u64)
        ensures
            bits == self.bits,
    {
        self.bits
    }
}

} // verus!
