//! The parameters drawn afresh for every frame.
use rand::rngs::SmallRng;
use rand::Rng;
use vstd::prelude::*;

verus! {

/// The base colour offset of water in a rare "spike" frame.
pub const SPIKE_BASE: u8 = 16;

/// A frame is calm (base 0) with odds `CALM_ODDS` in `ALL_ODDS`.
pub const CALM_ODDS: u32 = 16;

pub const ALL_ODDS: u32 = 17;

/// The mountain variation is drawn from `0..VARIATION_LIMIT`.
pub const VARIATION_LIMIT: u8 = 35;

/// A frame flickers with odds `FLICKER_ODDS` in `FLICKER_OUT_OF`.
pub const FLICKER_ODDS: u32 = 1;

pub const FLICKER_OUT_OF: u32 = 7;

#[verifier::external_type_specification]
#[verifier::external_body]
pub struct ExSmallRng(SmallRng);

/// Relies on rand 0.8's `Rng::gen_ratio`: it panics when the denominator is
/// zero or below the numerator, always gives `false` for a zero numerator and
/// always `true` when numerator and denominator are equal.
#[verifier::external_body]
fn gen_ratio(rng: &mut SmallRng, numerator: u32, denominator: u32) -> (r: bool)
    requires
        0 < denominator,
        numerator <= denominator,
    ensures
        numerator == 0 ==> !r,
        numerator == denominator ==> r,
{
    rng.gen_ratio(numerator, denominator)
}

/// Relies on rand 0.8's `Rng::gen_range` on `u8` with an exclusive range: it
/// panics when the range is empty and otherwise returns a value inside it.
#[verifier::external_body]
fn gen_range_u8(rng: &mut SmallRng, low: u8, high: u8) -> (r: u8)
    requires
        low < high,
    ensures
        low <= r < high,
{
    rng.gen_range(low..high)
}

/// How the noise field is sampled for a frame.
#[derive(Clone, Copy, Debug, PartialEq, Eq, Structural)]
pub enum Projection {
    /// The full three-dimensional sample at (x, y, depth).
    Volume,
    /// The two-dimensional sample at (depth, x): the flicker glitch.
    DepthAcross,
}

/// The random parameters of one frame. One `variation` draw is shared by the
/// red and blue channels of the mountains.
#[derive(Clone, Copy, Debug, PartialEq, Eq, Structural)]
pub struct FrameParams {
    pub base: u8,
    pub variation: u8,
    pub flicker: bool,
}

impl FrameParams {
    /// The values that a draw can give.
    pub open spec fn is_drawable(&self) -> bool {
        (self.base == 0 || self.base == SPIKE_BASE) && self.variation < VARIATION_LIMIT
    }

    /// The parameters for the outcomes of the three draws: whether the frame
    /// is calm, the variation, and whether it flickers.
    pub fn from_draws(calm: bool, variation: u8, flicker: bool) -> (r: FrameParams)
        ensures
            r.base == (if calm { 0u8 } else { SPIKE_BASE }),
            r.variation == variation,
            r.flicker == flicker,
    {
        let base: u8 = if calm { 0 } else { SPIKE_BASE };
        FrameParams { base, variation, flicker }
    }

    /// Draws the parameters of a new frame.
    pub fn draw(rng: &mut SmallRng) -> (r: FrameParams)
        ensures
            r.is_drawable(),
    {
        let calm = gen_ratio(rng, CALM_ODDS, ALL_ODDS);
        let variation = gen_range_u8(rng, 0, VARIATION_LIMIT);
        let flicker = gen_ratio(rng, FLICKER_ODDS, FLICKER_OUT_OF);
        FrameParams::from_draws(calm, variation, flicker)
    }

    /// The projection that this frame samples the noise field with.
    pub fn projection(&self) -> (r: Projection)
        ensures
            r == (if self.flicker { Projection::DepthAcross } else { Projection::Volume }),
    {
        if self.flicker {
            Projection::DepthAcross
        } else {
            Projection::Volume
        }
    }
}

} // verus!
