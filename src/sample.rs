//! Noise samples held as IEEE-754 binary64 bit patterns, their ordering,
//! and the three terrain bands that a sample falls into.
use vstd::prelude::*;

verus! {

/// The sign bit of a binary64 bit pattern.
pub const SIGN_BIT: u64 = 0x8000_0000_0000_0000;

/// The bit pattern of positive infinity: any larger magnitude is a NaN.
pub const INFINITY_BITS: u64 = 0x7FF0_0000_0000_0000;

/// The bit pattern of the binary64 value nearest to 0.3, where water ends.
pub const WATER_LIMIT_BITS: u64 = 0x3FD3_3333_3333_3333;

/// The bit pattern of the binary64 value nearest to 0.7, where mountains end.
pub const MOUNTAIN_LIMIT_BITS: u64 = 0x3FE6_6666_6666_6666;

/// A value of the noise field, kept as the bit pattern of the `f64` it is.
#[derive(Clone, Copy, Debug, PartialEq, Eq, Structural)]
pub struct NoiseValue {
    pub bits: u64,
}

/// The bit pattern without its sign bit.
pub open spec fn magnitude(bits: u64) -> int {
    if bits >= SIGN_BIT {
        bits - SIGN_BIT
    } else {
        bits as int
    }
}

pub open spec fn is_nan(bits: u64) -> bool {
    magnitude(bits) > INFINITY_BITS
}

/// Position of a non-NaN value on the real line, up to a monotone scale:
/// both zeros map to 0, negative values below it, positive values above it.
pub open spec fn order_key(bits: u64) -> int {
    if bits >= SIGN_BIT {
        -magnitude(bits)
    } else {
        magnitude(bits)
    }
}

/// IEEE-754 `a < b`: false whenever either side is a NaN.
pub open spec fn float_lt(a: u64, b: u64) -> bool {
    !is_nan(a) && !is_nan(b) && order_key(a) < order_key(b)
}

/// The three terrain bands.
#[derive(Clone, Copy, Debug, PartialEq, Eq, Structural)]
pub enum Band {
    Water,
    Mountains,
    Peaks,
}

/// Below 0.3 is water, below 0.7 mountains, everything else (NaN included)
/// peaks.
pub open spec fn band_of(bits: u64) -> Band {
    if float_lt(bits, WATER_LIMIT_BITS) {
        Band::Water
    } else if float_lt(bits, MOUNTAIN_LIMIT_BITS) {
        Band::Mountains
    } else {
        Band::Peaks
    }
}

/// Compares two binary64 values given by their bit patterns, as `<` on `f64`.
pub fn float_less_than(a: u64, b: u64) -> (r: bool)
    ensures
        r == float_lt(a, b),
{
    let ma: u64 = if a >= SIGN_BIT { a - SIGN_BIT } else { a };
    let mb: u64 = if b >= SIGN_BIT { b - SIGN_BIT } else { b };
    if ma > INFINITY_BITS || mb > INFINITY_BITS {
        false
    } else if a >= SIGN_BIT {
        if b >= SIGN_BIT {
            mb < ma
        } else {
            ma != 0 || mb != 0
        }
    } else {
        if b >= SIGN_BIT {
            false
        } else {
            ma < mb
        }
    }
}

impl NoiseValue {
    pub fn from_bits(bits: u64) -> (r: NoiseValue)
        ensures
            r.bits == bits,
    {
        NoiseValue { bits }
    }

    /// The band that this value falls into.
    pub fn band(&self) -> (r: Band)
        ensures
            r == band_of(self.bits),
    {
        if float_less_than(self.bits, WATER_LIMIT_BITS) {
            Band::Water
        } else if float_less_than(self.bits, MOUNTAIN_LIMIT_BITS) {
            Band::Mountains
        } else {
            Band::Peaks
        }
    }
}

/// Each limit belongs to the band above it: exactly 0.3 is mountains, not
/// water, and exactly 0.7 is peaks, not mountains.
pub proof fn lemma_limits_belong_to_upper_band()
    ensures
        band_of(WATER_LIMIT_BITS) == Band::Mountains,
        band_of(MOUNTAIN_LIMIT_BITS) == Band::Peaks,
{
}

/// A band is a half-open interval of values: water is everything below 0.3,
/// mountains everything from 0.3 up to but excluding 0.7, peaks the rest.
pub proof fn lemma_bands_are_half_open(bits: u64)
    ensures
        (band_of(bits) == Band::Water) == float_lt(bits, WATER_LIMIT_BITS),
        (band_of(bits) == Band::Mountains) == (!float_lt(bits, WATER_LIMIT_BITS)
            && float_lt(bits, MOUNTAIN_LIMIT_BITS)),
        (band_of(bits) == Band::Peaks) == (!float_lt(bits, WATER_LIMIT_BITS) && !float_lt(
            bits,
            MOUNTAIN_LIMIT_BITS,
        )),
{
}

} // verus!
