//! Fixed-point scan positions.
//!
//! A position inside a wavetable of `len` samples is counted in steps of
//! `1 / SUBSAMPLE` of a sample, so it ranges over `0 .. len * SUBSAMPLE`.
//! Dividing it by `len * SUBSAMPLE` gives the normalized offset in `[0, 1)`.
//! A playback rate is the number of such steps taken per output sample:
//! `SUBSAMPLE` plays the table at its recorded speed.

use vstd::prelude::*;
use vstd::arithmetic::div_mod::{lemma_add_mod_noop, lemma_mod_twice, lemma_small_mod};

verus! {

/// Steps per sample: 32 fractional bits.
pub const SUBSAMPLE: u64 = 4294967296;

/// Longest period and longest capture, in samples.
pub const MAX_PERIOD: usize = 441000;

/// Fastest playback rate, a hundred times the recorded speed.
pub const MAX_RATE: u64 = 429496729600;

/// The position reached from `phase` after `n` output samples at `rate`,
/// wrapping at the end of a table of `len` samples.
pub open spec fn phase_after(phase: int, rate: int, len: int, n: int) -> int {
    (phase + n * rate) % (len * SUBSAMPLE)
}

/// The table index that a position reads: the sample at or just below it.
pub open spec fn sample_index(phase: int) -> int {
    phase / (SUBSAMPLE as int)
}

/// One output sample's worth of movement.
pub fn advance(phase: u64, rate: u64, len: usize) -> (next: u64)
    requires
        0 < len <= MAX_PERIOD,
        phase < len * SUBSAMPLE,
        rate <= MAX_RATE,
    ensures
        next == phase_after(phase as int, rate as int, len as int, 1),
        next < len * SUBSAMPLE,
{
    let modulus: u64 = (len as u64) * SUBSAMPLE;
    (phase + rate) % modulus
}

/// Emitting no sample leaves a position inside the table where it is.
pub proof fn lemma_phase_rest(phase: int, rate: int, len: int)
    requires
        0 <= phase < len * SUBSAMPLE,
    ensures
        phase_after(phase, rate, len, 0) == phase,
{
    lemma_small_mod(phase as nat, (len * SUBSAMPLE) as nat);
}

/// Moving one sample at a time reaches the same position as moving `n + 1`
/// samples at once.
pub proof fn lemma_phase_step(phase: int, rate: int, len: int, n: int)
    requires
        0 < len,
        0 <= phase,
        0 <= rate,
        0 <= n,
    ensures
        phase_after(phase_after(phase, rate, len, n), rate, len, 1) == phase_after(
            phase,
            rate,
            len,
            n + 1,
        ),
{
    let m = len * SUBSAMPLE;
    let a = phase + n * rate;
    assert((n + 1) * rate == n * rate + rate) by (nonlinear_arith);
    lemma_add_mod_noop(a, rate, m);
    lemma_add_mod_noop(a % m, rate, m);
    lemma_mod_twice(a, m);
}

} // verus!
