//! Affine scales between a normalized control value and its engineering
//! value, both in fixed point.
//!
//! A normalized value ranges over `0 ..= NORM_ONE`, which stands for the
//! interval `[0, 1]`. An engineering value counts steps of `1 / SUBSAMPLE`,
//! the unit of scan positions and playback rates. Normalized values are
//! kept so much finer than engineering values that normalizing loses
//! nothing: every engineering value of a scale comes back exactly.

use vstd::prelude::*;
use vstd::arithmetic::div_mod::{
    lemma_div_is_ordered, lemma_div_multiples_vanish, lemma_fundamental_div_mod, lemma_mod_bound,
};
use vstd::arithmetic::mul::{lemma_mul_inequality, lemma_mul_is_commutative};
use crate::phase::{MAX_PERIOD, MAX_RATE, SUBSAMPLE};

verus! {

/// The normalized value that stands for one: 56 fractional bits.
pub const NORM_ONE: u64 = 72057594037927936;

/// Half of `NORM_ONE`, the rounding threshold of scaling.
pub const HALF_NORM: u64 = 36028797018963968;

/// The largest engineering value of any scale: the longest period.
pub const MAX_SCALED: u64 = 1894080577536000;

/// Half a sample, the rounding threshold.
pub const HALF_SAMPLE: u64 = 2147483648;

/// The lowest playback rate, a hundredth of the recorded speed, rounded to
/// the nearest step.
pub const MIN_RATE: u64 = 42949673;

/// An affine map from `[0, 1]` onto `[low, high]`.
#[derive(Clone, Copy, Debug)]
pub struct LinScale {
    /// The engineering value at normalized zero.
    pub low: u64,
    /// The engineering value at normalized one.
    pub high: u64,
}

impl LinScale {
    /// A scale has a range that is not empty and ends inside the
    /// representable values.
    pub open spec fn wf(&self) -> bool {
        self.low < self.high <= MAX_SCALED
    }

    /// `low + norm * (high - low)`, rounded to the nearest step, halves up.
    pub open spec fn spec_to_scaled(&self, norm: int) -> int {
        self.low + (norm * (self.high - self.low) + HALF_NORM) / (NORM_ONE as int)
    }

    /// `(scaled - low) / (high - low)`, rounded down to a whole step.
    pub open spec fn spec_to_norm(&self, scaled: int) -> int {
        (scaled - self.low) * NORM_ONE / (self.high - self.low)
    }

    /// The scale of the period and of the capture length: 1 to 441000
    /// samples.
    pub fn samples() -> (scale: LinScale)
        ensures
            scale == (LinScale { low: SUBSAMPLE, high: MAX_SCALED }),
            scale.wf(),
            scale.high == MAX_PERIOD * SUBSAMPLE,
    {
        LinScale { low: SUBSAMPLE, high: MAX_SCALED }
    }

    /// The scale of the playback rate: 0.01 to 100 times the recorded speed.
    pub fn rate() -> (scale: LinScale)
        ensures
            scale == (LinScale { low: MIN_RATE, high: MAX_RATE }),
            scale.wf(),
    {
        LinScale { low: MIN_RATE, high: MAX_RATE }
    }

    /// The engineering value of a normalized value.
    pub fn to_scaled(&self, norm: u64) -> (scaled: u64)
        requires
            self.wf(),
            norm <= NORM_ONE,
        ensures
            scaled == self.spec_to_scaled(norm as int),
            self.low <= scaled <= self.high,
    {
        let width: u128 = (self.high - self.low) as u128;
        proof {
            lemma_mul_inequality(norm as int, NORM_ONE as int, width as int);
        }
        let part: u128 = ((norm as u128) * width + (HALF_NORM as u128)) / (NORM_ONE as u128);
        self.low + (part as u64)
    }

    /// The normalized value of an engineering value.
    pub fn to_norm(&self, scaled: u64) -> (norm: u64)
        requires
            self.wf(),
            self.low <= scaled <= self.high,
        ensures
            norm == self.spec_to_norm(scaled as int),
            norm <= NORM_ONE,
    {
        let width: u128 = (self.high - self.low) as u128;
        let offset: u128 = (scaled - self.low) as u128;
        proof {
            lemma_mul_inequality(offset as int, width as int, NORM_ONE as int);
            lemma_div_is_ordered(offset * NORM_ONE, width * NORM_ONE, width as int);
            lemma_div_multiples_vanish(NORM_ONE as int, width as int);
        }
        let norm: u128 = offset * (NORM_ONE as u128) / width;
        norm as u64
    }
}

/// The whole number of samples nearest to an engineering value, halves
/// rounded up.
pub open spec fn spec_round(value: int) -> int {
    (value + HALF_SAMPLE) / (SUBSAMPLE as int)
}

/// Rounds an engineering value to whole samples.
pub fn round_to_samples(value: u64) -> (samples: usize)
    requires
        value <= MAX_SCALED,
    ensures
        samples == spec_round(value as int),
        samples <= MAX_PERIOD,
        samples * SUBSAMPLE <= value + HALF_SAMPLE < (samples + 1) * SUBSAMPLE,
{
    ((value + HALF_SAMPLE) / SUBSAMPLE) as usize
}

/// Normalizing an engineering value of a scale and scaling the result
/// gives the value back exactly.
pub proof fn law_scaled_round_trip(scale: LinScale, scaled: int)
    requires
        scale.wf(),
        scale.low <= scaled <= scale.high,
    ensures
        scale.spec_to_scaled(scale.spec_to_norm(scaled)) == scaled,
{
    let width = scale.high - scale.low;
    let one = NORM_ONE as int;
    let offset = scaled - scale.low;
    let norm = offset * one / width;
    let part = (norm * width + HALF_NORM) / one;
    lemma_fundamental_div_mod(offset * one, width);
    lemma_mod_bound(offset * one, width);
    lemma_fundamental_div_mod(norm * width + HALF_NORM, one);
    lemma_mod_bound(norm * width + HALF_NORM, one);
    lemma_mul_is_commutative(norm, width);
}

/// Scaling a normalized value and normalizing the result gives the value
/// back within the normalized width of one engineering step: the result
/// lies less than half such a width plus one step below the value and at
/// most half such a width above it.
pub proof fn law_norm_round_trip(scale: LinScale, norm: int)
    requires
        scale.wf(),
        0 <= norm <= NORM_ONE,
    ensures
        (scale.spec_to_norm(scale.spec_to_scaled(norm)) - norm) * (scale.high - scale.low)
            <= HALF_NORM,
        (norm - scale.spec_to_norm(scale.spec_to_scaled(norm))) * (scale.high - scale.low)
            < HALF_NORM + (scale.high - scale.low),
{
    let width = scale.high - scale.low;
    let one = NORM_ONE as int;
    let part = (norm * width + HALF_NORM) / one;
    let back = part * one / width;
    lemma_fundamental_div_mod(norm * width + HALF_NORM, one);
    lemma_mod_bound(norm * width + HALF_NORM, one);
    lemma_fundamental_div_mod(part * one, width);
    lemma_mod_bound(part * one, width);
    assert((back - norm) * width == width * back - norm * width) by (nonlinear_arith);
    assert((norm - back) * width == norm * width - width * back) by (nonlinear_arith);
}

/// A scale maps normalized zero to its low end and normalized one to its
/// high end, and back.
pub proof fn law_scale_ends(scale: LinScale)
    requires
        scale.wf(),
    ensures
        scale.spec_to_scaled(0) == scale.low,
        scale.spec_to_scaled(NORM_ONE as int) == scale.high,
        scale.spec_to_norm(scale.low as int) == 0,
        scale.spec_to_norm(scale.high as int) == NORM_ONE,
{
    let width = scale.high - scale.low;
    lemma_div_multiples_vanish(NORM_ONE as int, width);
    lemma_mul_is_commutative(width, NORM_ONE as int);
    assert(0int / width == 0) by (nonlinear_arith)
        requires
            width > 0,
    ;
}

} // verus!
