//! Sample-format normalization.
//!
//! A hardware sample is one amplitude reading in a fixed-width signed
//! integer encoding.  Normalization maps it linearly into the symmetric
//! range `[-1, +1]`, represented exactly as a fixed-point numerator over
//! the scale [`AMP_ONE`] (so a reading `v` of an encoding with `b` value
//! bits becomes the rational `v / 2^(b-1)`, stored as `v * 2^(31-(b-1))`
//! over `2^31`).  The mapping is total, order-preserving within one
//! encoding, and loses nothing: every supported integer encoding divides
//! the fixed scale evenly.

use vstd::prelude::*;

verus! {

/// Fixed-point scale of a normalized amplitude: the numerator that stands
/// for the value `1.0` (one full-scale positive amplitude) is `2^31`.
pub const AMP_ONE: i64 = 0x8000_0000;

/// One raw hardware amplitude reading, in one of the supported signed
/// integer encodings.  (A 32-bit float stream needs no normalization
/// arithmetic at all — widening it to double is exact — so float blocks
/// never pass through here; they are handled at the device boundary.)
#[derive(Clone, Copy, PartialEq, Eq, Structural, Debug)]
pub enum Sample {
    I8(i8),
    I16(i16),
    I32(i32),
}

/// The raw integer reading carried by a sample.
pub open spec fn sample_value(s: Sample) -> int {
    match s {
        Sample::I8(v) => v as int,
        Sample::I16(v) => v as int,
        Sample::I32(v) => v as int,
    }
}

/// Whether two samples use the same hardware encoding.
pub open spec fn same_encoding(a: Sample, b: Sample) -> bool {
    match (a, b) {
        (Sample::I8(_), Sample::I8(_)) => true,
        (Sample::I16(_), Sample::I16(_)) => true,
        (Sample::I32(_), Sample::I32(_)) => true,
        _ => false,
    }
}

/// The normalized amplitude of a sample, as a fixed-point numerator over
/// [`AMP_ONE`]: an 8-bit reading `v` means `v / 128`, a 16-bit reading
/// `v / 32768`, a 32-bit reading `v / 2^31`.
pub open spec fn spec_normalize(s: Sample) -> int {
    match s {
        Sample::I8(v) => v * 0x0100_0000,
        Sample::I16(v) => v * 0x0001_0000,
        Sample::I32(v) => v as int,
    }
}

/// Converts one hardware sample into its canonical fixed-point amplitude.
/// Total: every supported encoding has a defined mapping, and the result
/// always lies within one full scale of zero.
pub fn normalize(s: Sample) -> (r: i64)
    ensures
        r == spec_normalize(s),
        -AMP_ONE <= r <= AMP_ONE,
{
    match s {
        Sample::I8(v) => (v as i64) * 0x0100_0000,
        Sample::I16(v) => (v as i64) * 0x0001_0000,
        Sample::I32(v) => v as i64,
    }
}

/// Normalization is monotonic within one encoding: of two same-encoding
/// samples, the one with the smaller raw reading normalizes to the
/// smaller amplitude — the linear mapping preserves order strictly, so
/// in particular it never reverses it.
pub proof fn lemma_normalize_monotonic(a: Sample, b: Sample)
    requires
        same_encoding(a, b),
        sample_value(a) < sample_value(b),
    ensures
        spec_normalize(a) <= spec_normalize(b),
        spec_normalize(a) < spec_normalize(b),
{
}

/// Full-scale range of the 16-bit encoding: the minimum representable
/// reading maps exactly to `-1.0`, and the maximum to within one 16-bit
/// step (`2^16 / 2^31 = 2^-15`) below `+1.0`.
pub proof fn lemma_normalize_i16_range()
    ensures
        spec_normalize(Sample::I16(i16::MIN)) == -AMP_ONE,
        AMP_ONE - spec_normalize(Sample::I16(i16::MAX)) == 0x0001_0000,
{
}

/// Normalizes a whole 8-bit hardware block, preserving order and length.
pub fn normalize_block_i8(data: &[i8]) -> (out: Vec<i64>)
    ensures
        out@.len() == data@.len(),
        forall|i: int|
            0 <= i < data@.len() ==> out@[i] == spec_normalize(Sample::I8(data@[i])),
{
    let mut out: Vec<i64> = Vec::new();
    let mut k: usize = 0;
    while k < data.len()
        invariant
            k <= data@.len(),
            out@.len() == k,
            forall|i: int|
                0 <= i < k ==> out@[i] == spec_normalize(Sample::I8(data@[i])),
        decreases data@.len() - k,
    {
        out.push(normalize(Sample::I8(data[k])));
        k = k + 1;
    }
    out
}

/// Normalizes a whole 16-bit hardware block, preserving order and length.
pub fn normalize_block_i16(data: &[i16]) -> (out: Vec<i64>)
    ensures
        out@.len() == data@.len(),
        forall|i: int|
            0 <= i < data@.len() ==> out@[i] == spec_normalize(Sample::I16(data@[i])),
{
    let mut out: Vec<i64> = Vec::new();
    let mut k: usize = 0;
    while k < data.len()
        invariant
            k <= data@.len(),
            out@.len() == k,
            forall|i: int|
                0 <= i < k ==> out@[i] == spec_normalize(Sample::I16(data@[i])),
        decreases data@.len() - k,
    {
        out.push(normalize(Sample::I16(data[k])));
        k = k + 1;
    }
    out
}

/// Normalizes a whole 32-bit hardware block, preserving order and length.
pub fn normalize_block_i32(data: &[i32]) -> (out: Vec<i64>)
    ensures
        out@.len() == data@.len(),
        forall|i: int|
            0 <= i < data@.len() ==> out@[i] == spec_normalize(Sample::I32(data@[i])),
{
    let mut out: Vec<i64> = Vec::new();
    let mut k: usize = 0;
    while k < data.len()
        invariant
            k <= data@.len(),
            out@.len() == k,
            forall|i: int|
                0 <= i < k ==> out@[i] == spec_normalize(Sample::I32(data@[i])),
        decreases data@.len() - k,
    {
        out.push(normalize(Sample::I32(data[k])));
        k = k + 1;
    }
    out
}

} // verus!
