//! Iteration control for the bounded Newton solvers.
//!
//! Kepler's equation is inverted by damped-free Newton iteration with a
//! fixed convergence tolerance and a fixed iteration cap per solver.  The
//! caller evaluates the floating-point Newton step and reports whether two
//! successive iterates fell within tolerance; the verified verdict below
//! decides whether to accept the iterate, refine once more, or give up and
//! report the failure sentinel.  Exceeding a cap is terminal: there is no
//! retry.

use vstd::prelude::*;

verus! {

/// Iteration cap of the closed-form elliptic solver.
pub const ELLIPTIC_NEWTON_CAP: u32 = 50;

/// Iteration cap of the closed-form hyperbolic solver.
pub const HYPERBOLIC_NEWTON_CAP: u32 = 100;

/// Iteration cap of the near-parabolic power-series solver.
pub const NEAR_PARABOLIC_NEWTON_CAP: u32 = 50;

/// What a Newton driver does after one more iterate.
#[derive(Clone, Copy, Debug, PartialEq, Eq, Structural)]
pub enum SolverStep {
    /// Two successive iterates fell within tolerance: the new iterate is
    /// the answer.
    Accept,
    /// Not converged and the cap not yet reached: iterate again.
    Refine,
    /// Not converged and the cap exhausted: the solver failed, the caller
    /// reports the failure sentinel.
    GiveUp,
}

/// The verdict after one more Newton iterate, `steps_done` of them taken
/// before it.
pub open spec fn solver_step_of(steps_done: u32, cap: u32, within_tol: bool) -> SolverStep {
    if within_tol {
        SolverStep::Accept
    } else if steps_done + 1 < cap {
        SolverStep::Refine
    } else {
        SolverStep::GiveUp
    }
}

/// Decides what a Newton driver does after one more iterate: accept it on
/// convergence, give up exactly when the cap is exhausted without
/// convergence, refine otherwise.  The driver calls this once per
/// iterate, so no solver ever runs past its cap.
pub fn solver_step(steps_done: u32, cap: u32, within_tol: bool) -> (s: SolverStep)
    requires
        steps_done < cap,
    ensures
        s == solver_step_of(steps_done, cap, within_tol),
        (s == SolverStep::Accept) <==> within_tol,
        (s == SolverStep::GiveUp) <==> (!within_tol && steps_done + 1 == cap),
        (s == SolverStep::Refine) <==> (!within_tol && steps_done + 1 < cap),
{
    if within_tol {
        SolverStep::Accept
    } else if steps_done + 1 < cap {
        SolverStep::Refine
    } else {
        SolverStep::GiveUp
    }
}

/// Which side of the mean anomaly the elliptic Newton seed starts on.
#[derive(Clone, Copy, Debug, PartialEq, Eq, Structural)]
pub enum SeedSide {
    /// Seed at `M + e`.
    AboveMean,
    /// Seed at `M - e`.
    BelowMean,
}

/// The seed side of the elliptic solver for a principal-range mean
/// anomaly: below the mean on `(-pi, 0)` and above `pi`, above the mean
/// otherwise, so the first iterate starts on the correct side of the
/// fixed point.
pub open spec fn elliptic_seed_of(mean_pico: i64) -> SeedSide {
    if (-(crate::angle::PI_PICO as int) < mean_pico < 0) || crate::angle::PI_PICO < mean_pico {
        SeedSide::BelowMean
    } else {
        SeedSide::AboveMean
    }
}

/// Chooses the side of the mean anomaly the elliptic Newton seed starts
/// on.
pub fn elliptic_seed_side(mean_pico: i64) -> (side: SeedSide)
    ensures
        side == elliptic_seed_of(mean_pico),
        (side == SeedSide::BelowMean) <==> ((-crate::angle::PI_PICO < mean_pico && mean_pico < 0)
            || crate::angle::PI_PICO < mean_pico),
{
    if (-crate::angle::PI_PICO < mean_pico && mean_pico < 0) || crate::angle::PI_PICO < mean_pico {
        SeedSide::BelowMean
    } else {
        SeedSide::AboveMean
    }
}

} // verus!
