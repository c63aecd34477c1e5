//! The wind model: one signed horizontal drift value per frame.
//!
//! The simulation clock advances by a fixed increment each frame; all scalar
//! arithmetic is fixed-point in thousandths (milli-units). A smoothed value
//! noise over a pseudo-random integer lattice gives a deterministic value in
//! `[-1000, 1000]` milli-units, a uniform jitter in `[-500, 500]` is added,
//! and the sum is rounded to the nearest whole unit, giving a wind value in
//! `[-2, 2]` that every cell of the frame shares.

use vstd::prelude::*;
use crate::rng::rand_below;

verus! {

/// The clock increment per frame, in milli-units of simulation time.
pub const CLOCK_INCREMENT_MILLI: u64 = 30;

/// The noise is sampled at the clock scaled by 1.5: 45 milli-units per frame.
pub const WIND_PHASE_STEP_MILLI: u64 = 45;

/// The clock wraps for noise sampling so the phase stays small; the noise
/// lattice repeats far beyond any phase reached before the wrap.
pub const NOISE_CLOCK_WRAP: u64 = 1000000;

/// The noise phase, in milli-units, at a given frame count.
pub open spec fn wind_phase(ticks: u64) -> int {
    ((ticks as int) % (NOISE_CLOCK_WRAP as int)) * (WIND_PHASE_STEP_MILLI as int)
}

/// Pseudo-random lattice value in `[0, 2000]` at integer lattice position
/// `x`, from a linear-congruential hash.
pub open spec fn lattice_value(x: int) -> int {
    (x * 2654435761 + 1013904223) % 2001
}

fn lattice_value_exec(x: u64) -> (r: u64)
    requires
        x <= 0x10000000,
    ensures
        r == lattice_value(x as int),
        r <= 2000,
{
    (x * 2654435761 + 1013904223) % 2001
}

/// Smoothed noise in milli-units: linear interpolation between the lattice
/// values on either side of the phase, recentred to `[-1000, 1000]`.
pub open spec fn smoothed_noise_spec(phase: int) -> int {
    let x0 = phase / 1000;
    let f = phase % 1000;
    (lattice_value(x0) * (1000 - f) + lattice_value(x0 + 1) * f) / 1000 - 1000
}

/// The noise source: a smoothed pseudo-random scalar in a bounded range,
/// a deterministic function of the phase alone.
pub fn smoothed_noise(phase: u64) -> (r: i64)
    requires
        phase <= 45000000,
    ensures
        r == smoothed_noise_spec(phase as int),
        -1000 <= r <= 1000,
{
    let x0 = phase / 1000;
    let f = phase % 1000;
    let v0 = lattice_value_exec(x0);
    let v1 = lattice_value_exec(x0 + 1);
    assert(v0 * (1000 - f as int) <= 2000000 && v1 * (f as int) <= 2000000 && v0 * (1000
        - f as int) + v1 * (f as int) <= 2000000) by (nonlinear_arith)
        requires
            v0 <= 2000,
            v1 <= 2000,
            0 <= f < 1000,
    ;
    let m = (v0 * (1000 - f) + v1 * f) / 1000;
    (m as i64) - 1000
}

/// Round a milli-unit value in `[-1500, 1500]` to the nearest whole unit,
/// halves away from zero.
pub open spec fn round_milli(v: int) -> int {
    if v >= 0 {
        (v + 500) / 1000
    } else {
        -((-v + 500) / 1000)
    }
}

/// Compute the frame's shared wind value: smoothed noise at the clock's
/// phase plus a uniform jitter in `[-500, 500]` milli-units, rounded. Every
/// outcome lies in `[-2, 2]`.
pub fn compute_wind(ticks: u64) -> (w: i64)
    ensures
        -2 <= w <= 2,
        exists|j: int|
            -500 <= j <= 500 && w == #[trigger] round_milli(
                smoothed_noise_spec(wind_phase(ticks)) + j,
            ),
{
    let phase = (ticks % NOISE_CLOCK_WRAP) * WIND_PHASE_STEP_MILLI;
    let noise = smoothed_noise(phase);
    let jitter = (rand_below(1001) as i64) - 500;
    let v = noise + jitter;
    let w = if v >= 0 {
        (v + 500) / 1000
    } else {
        -((-v + 500) / 1000)
    };
    proof {
        assert(-500 <= jitter <= 500 && w == round_milli(smoothed_noise_spec(
            wind_phase(ticks),
        ) + jitter));
    }
    w
}

} // verus!
