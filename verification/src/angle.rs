//! Folding a mean anomaly into one revolution.
//!
//! The elliptic regime is periodic: many revolutions map onto one true
//! anomaly, so before inverting Kepler's equation the mean anomaly is
//! folded into the principal range `(-pi, pi]`.  The fold is exact on the
//! pico grid, where one half-turn is the constant below.

use vstd::arithmetic::div_mod::lemma_fundamental_div_mod;
use vstd::arithmetic::div_mod::lemma_mod_multiples_basic;
use vstd::arithmetic::div_mod::lemma_mod_multiples_vanish;
use vstd::arithmetic::div_mod::lemma_small_mod;
use vstd::prelude::*;

verus! {

/// Half a revolution on the pico grid: pi, rounded to the nearest grid
/// point.
pub const PI_PICO: i64 = 3_141_592_653_590;

/// A whole revolution on the pico grid.
pub const TWO_PI_PICO: i64 = 2 * PI_PICO;

/// One and a half million whole revolutions on the pico grid: enough to
/// shift any difference of grid half-turns above zero before reducing it.
const WRAP_SHIFT_PICO: i128 = 9_424_777_960_770_000_000;

/// The principal representative of a mean anomaly: the unique value in
/// `(-pi, pi]` that differs from it by whole revolutions.
pub open spec fn wrapped_pico(mean_pico: int) -> int {
    PI_PICO - ((PI_PICO - mean_pico) % (TWO_PI_PICO as int))
}

/// Folds a mean anomaly into the principal range `(-pi, pi]` on the pico
/// grid, shifting it by whole revolutions and by nothing else.
pub fn wrap_mean_anomaly(mean_pico: i64) -> (w: i64)
    ensures
        w == wrapped_pico(mean_pico as int),
        -PI_PICO < w <= PI_PICO,
        (mean_pico - w) % (TWO_PI_PICO as int) == 0,
{
    let shifted: i128 = (PI_PICO as i128) - (mean_pico as i128) + WRAP_SHIFT_PICO;
    let rem: i128 = shifted % (TWO_PI_PICO as i128);
    let w128: i128 = (PI_PICO as i128) - rem;
    proof {
        let two_pi = TWO_PI_PICO as int;
        let away = PI_PICO - mean_pico as int;
        assert(WRAP_SHIFT_PICO == two_pi * 1_500_000);
        lemma_mod_multiples_vanish(1_500_000, away, two_pi);
        assert(rem == away % two_pi);
        lemma_fundamental_div_mod(away, two_pi);
        let turns = -(away / two_pi);
        assert(mean_pico - w128 == turns * two_pi);
        lemma_mod_multiples_basic(turns, two_pi);
    }
    w128 as i64
}

/// Law: the fold is the identity on the principal range.  A mean anomaly
/// already in `(-pi, pi]` comes back unchanged, so inverting a time that
/// lies within the first revolution loses nothing to the fold.
pub proof fn lemma_wrap_fixes_principal(mean_pico: i64)
    requires
        -PI_PICO < mean_pico <= PI_PICO,
    ensures
        wrapped_pico(mean_pico as int) == mean_pico,
{
    let away = PI_PICO - mean_pico as int;
    lemma_small_mod(away as nat, (TWO_PI_PICO as int) as nat);
}

/// Law: the fold is idempotent.  Folding twice is folding once, so a
/// driver may fold defensively without drifting.
pub proof fn lemma_wrap_idempotent(mean_pico: i64)
    ensures
        wrapped_pico(wrapped_pico(mean_pico as int)) == wrapped_pico(mean_pico as int),
{
    let two_pi = TWO_PI_PICO as int;
    let away = PI_PICO - mean_pico as int;
    lemma_fundamental_div_mod(away, two_pi);
    let once = wrapped_pico(mean_pico as int);
    lemma_small_mod((PI_PICO - once) as nat, two_pi as nat);
}

/// Law: the principal representative is unique.  Two values of the
/// principal range that differ by whole revolutions are the same value,
/// so the fold loses nothing but the revolution count.
pub proof fn lemma_principal_unique(w1: int, w2: int)
    requires
        -PI_PICO < w1 <= PI_PICO,
        -PI_PICO < w2 <= PI_PICO,
        (w1 - w2) % (TWO_PI_PICO as int) == 0,
    ensures
        w1 == w2,
{
    let two_pi = TWO_PI_PICO as int;
    lemma_fundamental_div_mod(w1 - w2, two_pi);
    let turns = (w1 - w2) / two_pi;
    assert(w1 - w2 == two_pi * turns);
    assert(turns == 0) by {
        if turns >= 1 {
            assert(two_pi * turns >= two_pi) by (nonlinear_arith)
                requires turns >= 1 && two_pi == TWO_PI_PICO as int;
        }
        if turns <= -1 {
            assert(two_pi * turns <= -two_pi) by (nonlinear_arith)
                requires turns <= -1 && two_pi == TWO_PI_PICO as int;
        }
    }
}

} // verus!
