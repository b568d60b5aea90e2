//! Turning the raw bytes of the data registers into axis samples.
//!
//! A sample is sixteen bits in two's complement, high byte first. Nothing
//! is scaled: a sample is the number that the device wrote.

use vstd::prelude::*;
use crate::registers::Axes;

verus! {

/// The number that two bytes stand for, the high byte first, read as
/// sixteen bits in two's complement.
pub open spec fn spec_sample(hi: u8, lo: u8) -> int {
    let raw = hi as int * 256 + lo as int;
    if raw < 32768 {
        raw
    } else {
        raw - 65536
    }
}

/// The sample of an axis in a burst of the six data registers, which hold
/// X, then Z, then Y.
pub open spec fn spec_burst_sample(burst: Seq<u8>, axis: Axes) -> int {
    spec_sample(burst[2 * axis.slot()], burst[2 * axis.slot() + 1])
}

/// Combines the high and the low byte of a data register pair into the
/// sample they stand for.
pub fn sample_from_bytes(hi: u8, lo: u8) -> (sample: i16)
    ensures
        sample as int == spec_sample(hi, lo),
{
    if hi < 128 {
        let high: i16 = hi as i16;
        let low: i16 = lo as i16;
        high * 256 + low
    } else {
        let high: i16 = hi as i16 - 256;
        let low: i16 = lo as i16;
        high * 256 + low
    }
}

/// Decodes a burst of the six data registers. The device holds the axes as
/// X, Z, Y; the samples come back as X, Y, Z.
pub fn decode_burst(burst: &[u8; 6]) -> (samples: (i16, i16, i16))
    ensures
        samples.0 as int == spec_burst_sample(burst@, Axes::X),
        samples.1 as int == spec_burst_sample(burst@, Axes::Y),
        samples.2 as int == spec_burst_sample(burst@, Axes::Z),
{
    let x: i16 = sample_from_bytes(burst[0], burst[1]);
    let z: i16 = sample_from_bytes(burst[2], burst[3]);
    let y: i16 = sample_from_bytes(burst[4], burst[5]);
    (x, y, z)
}

/// A sample determines its two bytes: different byte pairs never give the
/// same sample, and every sixteen-bit number is the sample of its own
/// two's-complement bytes.
pub proof fn lemma_sample_is_one_to_one(hi: u8, lo: u8, other_hi: u8, other_lo: u8)
    requires
        spec_sample(hi, lo) == spec_sample(other_hi, other_lo),
    ensures
        hi == other_hi,
        lo == other_lo,
        -32768 <= spec_sample(hi, lo) <= 32767,
{
}

} // verus!
