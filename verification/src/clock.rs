//! The step clock: from a beat position, a tempo, the sample rate and the
//! buffer length, decide whether the next step boundary falls inside the
//! buffer and, if so, at which sample offset.
//!
//! One step is one beat.  With `remain_beats = 1 - (pos_beats mod 1)` the
//! fraction of the current beat that is left, the boundary lies inside the
//! buffer iff
//!
//! ```text
//! remain_beats * 60 / tempo_bpm  <=  buffer_samples / sample_rate
//! ```
//!
//! and its offset is `round(sample_rate * remain_beats * 60 / tempo_bpm)`,
//! rounded half up (half away from zero; all quantities are nonnegative).
//! In micro-beats and milli-BPM both sides are exact integers once
//! cross-multiplied, which is how everything here computes them.

use vstd::prelude::*;
#[allow(unused_imports)]
use vstd::arithmetic::div_mod::{
    lemma_div_is_ordered, lemma_div_pos_is_pos, lemma_fundamental_div_mod_converse,
    lemma_mod_bound,
};

verus! {

/// Number of micro-beats in one beat.
pub const MICROS_PER_BEAT: u64 = 1_000_000;

/// Floor of a micro-beat position taken in whole beats:
/// `spec_floor_beats(p)` is the greatest `b` with `b * 1_000_000 <= p`.
/// Written with nonnegative divisions only, so Euclidean and floor division
/// agree in both branches.
pub open spec fn spec_floor_beats(pos_micro_beats: int) -> int {
    if pos_micro_beats >= 0 {
        pos_micro_beats / (MICROS_PER_BEAT as int)
    } else {
        -1 - ((-1 - pos_micro_beats) / (MICROS_PER_BEAT as int))
    }
}

/// Fractional part of a micro-beat position, as the truncated remainder
/// (same sign as the position), matching what `pos_beats mod 1` yields on
/// the host's floating-point position.
pub open spec fn spec_frac_micro_beats(pos_micro_beats: int) -> int {
    if pos_micro_beats >= 0 {
        pos_micro_beats % (MICROS_PER_BEAT as int)
    } else {
        -((-pos_micro_beats) % (MICROS_PER_BEAT as int))
    }
}

/// Micro-beats left until the next step boundary: `1 - (pos mod 1)` in
/// beats.  Exactly on a beat a full beat remains.
pub open spec fn spec_remain_micro_beats(pos_micro_beats: int) -> int {
    (MICROS_PER_BEAT as int) - spec_frac_micro_beats(pos_micro_beats)
}

/// Whether the upcoming step boundary lies inside a buffer of
/// `buffer_samples` samples: the cross-multiplied, exact form of
/// `remain_beats * 60 / tempo_bpm <= buffer_samples / sample_rate`.
/// A tempo of zero never places a boundary inside: the boundary never
/// arrives.
pub open spec fn spec_boundary_inside(
    pos_micro_beats: int,
    tempo_milli_bpm: int,
    sample_rate_hz: int,
    buffer_samples: int,
) -> bool {
    sample_rate_hz * spec_remain_micro_beats(pos_micro_beats) * 60_000 <= buffer_samples
        * tempo_milli_bpm * 1_000_000
}

/// Sample offset of the boundary: `sample_rate * remain_seconds`, rounded
/// half up.  The numerator is `sample_rate * remain_micro_beats * 60_000`,
/// the denominator `tempo_milli_bpm * 1_000_000`, and adding half the
/// denominator before the floor division rounds halves up.
pub open spec fn spec_boundary_offset(
    pos_micro_beats: int,
    tempo_milli_bpm: int,
    sample_rate_hz: int,
) -> int {
    (sample_rate_hz * spec_remain_micro_beats(pos_micro_beats) * 60_000 + tempo_milli_bpm
        * 500_000) / (tempo_milli_bpm * 1_000_000)
}

/// The fractional part lies strictly between minus one beat and one beat.
pub proof fn lemma_frac_bounds(pos_micro_beats: int)
    ensures
        -(MICROS_PER_BEAT as int) < spec_frac_micro_beats(pos_micro_beats) < (
        MICROS_PER_BEAT as int),
        1 <= spec_remain_micro_beats(pos_micro_beats) <= 2 * (MICROS_PER_BEAT as int) - 1,
{
    if pos_micro_beats >= 0 {
        lemma_mod_bound(pos_micro_beats, MICROS_PER_BEAT as int);
    } else {
        lemma_mod_bound(-pos_micro_beats, MICROS_PER_BEAT as int);
    }
}

/// When the boundary is inside the buffer and the sample rate is positive,
/// the tempo and the buffer length must be positive too, and the rounded
/// offset lands between 0 and the buffer length inclusive.
pub proof fn lemma_inside_offset_bounds(
    pos_micro_beats: int,
    tempo_milli_bpm: int,
    sample_rate_hz: int,
    buffer_samples: int,
)
    requires
        1 <= sample_rate_hz,
        0 <= tempo_milli_bpm,
        0 <= buffer_samples,
        spec_boundary_inside(pos_micro_beats, tempo_milli_bpm, sample_rate_hz, buffer_samples),
    ensures
        1 <= tempo_milli_bpm,
        1 <= buffer_samples,
        0 <= spec_boundary_offset(pos_micro_beats, tempo_milli_bpm, sample_rate_hz)
            <= buffer_samples,
{
    let remain = spec_remain_micro_beats(pos_micro_beats);
    let numer = sample_rate_hz * remain * 60_000;
    let half = tempo_milli_bpm * 500_000;
    let denom = tempo_milli_bpm * 1_000_000;
    let rhs = buffer_samples * tempo_milli_bpm * 1_000_000;
    lemma_frac_bounds(pos_micro_beats);
    assert(numer >= 60_000) by (nonlinear_arith)
        requires
            sample_rate_hz >= 1,
            remain >= 1,
            numer == sample_rate_hz * remain * 60_000,
    ;
    assert(tempo_milli_bpm >= 1 && buffer_samples >= 1) by (nonlinear_arith)
        requires
            rhs == buffer_samples * tempo_milli_bpm * 1_000_000,
            rhs >= 60_000,
            tempo_milli_bpm >= 0,
            buffer_samples >= 0,
    ;
    assert(0 <= half < denom) by (nonlinear_arith)
        requires
            tempo_milli_bpm >= 1,
            half == tempo_milli_bpm * 500_000,
            denom == tempo_milli_bpm * 1_000_000,
    ;
    lemma_div_pos_is_pos(numer + half, denom);
    // numer <= buffer_samples * denom, so the rounded quotient stays <= buffer_samples
    assert(rhs == buffer_samples * denom) by (nonlinear_arith)
        requires
            rhs == buffer_samples * tempo_milli_bpm * 1_000_000,
            denom == tempo_milli_bpm * 1_000_000,
    ;
    lemma_div_is_ordered(numer + half, buffer_samples * denom + half, denom);
    lemma_fundamental_div_mod_converse(buffer_samples * denom + half, denom, buffer_samples, half);
}

/// Floor of the position in whole beats.
pub fn floor_beats(pos_micro_beats: i64) -> (r: i64)
    ensures
        r == spec_floor_beats(pos_micro_beats as int),
{
    if pos_micro_beats >= 0 {
        ((pos_micro_beats as u64) / MICROS_PER_BEAT) as i64
    } else {
        let m: u64 = ((-1i64 - pos_micro_beats) as u64) / MICROS_PER_BEAT;
        -1i64 - (m as i64)
    }
}

/// Fractional part of the position, in micro-beats, with the sign of the
/// position.
pub fn frac_micro_beats(pos_micro_beats: i64) -> (r: i64)
    ensures
        r == spec_frac_micro_beats(pos_micro_beats as int),
        -1_000_000 < r < 1_000_000,
{
    proof {
        lemma_frac_bounds(pos_micro_beats as int);
    }
    if pos_micro_beats >= 0 {
        ((pos_micro_beats as u64) % MICROS_PER_BEAT) as i64
    } else {
        let m: u64 = (((-1i64 - pos_micro_beats) as u64) + 1) % MICROS_PER_BEAT;
        -(m as i64)
    }
}

/// Micro-beats left until the next step boundary.
pub fn remain_micro_beats(pos_micro_beats: i64) -> (r: u64)
    ensures
        r == spec_remain_micro_beats(pos_micro_beats as int),
        1 <= r <= 1_999_999,
{
    let f: i64 = frac_micro_beats(pos_micro_beats);
    (1_000_000i64 - f) as u64
}

/// Where the step clock places the upcoming boundary relative to the
/// current buffer.
#[derive(Clone, Copy, Debug, PartialEq, Eq, Structural)]
pub enum StepLocation {
    /// The boundary lies beyond this buffer's end.
    Outside,
    /// The boundary lies inside: `remain_samples` is its rounded sample
    /// offset, at most the buffer length (the caller still rejects an
    /// offset equal to the length, which belongs to the next buffer).
    Inside { remain_samples: u64 },
}

/// The step clock.  Decides whether the boundary after `pos_micro_beats`
/// falls inside a buffer of `buffer_samples` samples and computes its
/// rounded sample offset if it does.
pub fn locate_step(
    pos_micro_beats: i64,
    tempo_milli_bpm: u64,
    sample_rate_hz: u32,
    buffer_samples: u32,
) -> (r: StepLocation)
    requires
        1 <= sample_rate_hz,
    ensures
        (r is Inside) == spec_boundary_inside(
            pos_micro_beats as int,
            tempo_milli_bpm as int,
            sample_rate_hz as int,
            buffer_samples as int,
        ),
        r matches StepLocation::Inside { remain_samples } ==> remain_samples
            == spec_boundary_offset(
            pos_micro_beats as int,
            tempo_milli_bpm as int,
            sample_rate_hz as int,
        ) && remain_samples <= buffer_samples,
{
    let remain: u64 = remain_micro_beats(pos_micro_beats);
    proof {
        assert((sample_rate_hz as int) * (remain as int) <= 0xffff_ffff * 2_000_000)
            by (nonlinear_arith)
            requires
                0 <= sample_rate_hz <= 0xffff_ffff,
                0 <= remain <= 2_000_000,
        ;
        assert((buffer_samples as int) * (tempo_milli_bpm as int) <= 0xffff_ffff
            * 0xffff_ffff_ffff_ffff) by (nonlinear_arith)
            requires
                0 <= buffer_samples <= 0xffff_ffff,
                0 <= tempo_milli_bpm <= 0xffff_ffff_ffff_ffff,
        ;
    }
    let numer: u128 = (sample_rate_hz as u128) * (remain as u128) * 60_000;
    let rhs: u128 = (buffer_samples as u128) * (tempo_milli_bpm as u128) * 1_000_000;
    if numer > rhs {
        StepLocation::Outside
    } else {
        proof {
            lemma_inside_offset_bounds(
                pos_micro_beats as int,
                tempo_milli_bpm as int,
                sample_rate_hz as int,
                buffer_samples as int,
            );
        }
        let half: u128 = (tempo_milli_bpm as u128) * 500_000;
        let denom: u128 = (tempo_milli_bpm as u128) * 1_000_000;
        let off: u128 = (numer + half) / denom;
        StepLocation::Inside { remain_samples: off as u64 }
    }
}

} // verus!
