//! Decision core of a Farnocchia-style two-body propagator.
//!
//! Advancing an orbit in time means solving Kepler's equation across the
//! conic regimes: elliptic, parabolic, hyperbolic, and a near-parabolic band
//! around eccentricity one where the closed forms lose precision and a power
//! series must take over.  The delicate part of that algorithm is not the
//! transcendental evaluation itself but the boundary logic: which regime a
//! `(eccentricity, anomaly)` pair falls into, which time law each regime
//! uses, when a bounded Newton iteration must give up, and how the elliptic
//! mean anomaly is folded into a single revolution.
//!
//! This crate verifies exactly that decision logic.  Every rule is stated
//! and proved over plain integers on a fixed-point grid of one trillionth
//! (here called the pico grid): the embedding program evaluates the
//! floating-point measurements (eccentricity, the Newton derivative of
//! Kepler's equation, the branch margin `1 + e cos nu`, mean anomalies),
//! rounds them onto the grid, and lets the verified core choose the regime,
//! the time law, the Newton seed, and the moment to stop iterating.  The
//! numerical evaluation of the per-regime formulas stays outside: it is
//! floating point, which this verifier does not reason about.
//!
//! Modules:
//! - [`regime`]: the six-way regime classification, the per-regime time
//!   laws, and the mirror-image selector used when inverting time back to an
//!   anomaly, with proved consistency laws between the two.
//! - [`solver`]: iteration control for the damped-free Newton solvers, with
//!   their fixed iteration caps, and the seed rule for the elliptic solver.
//! - [`angle`]: exact folding of a mean anomaly into one revolution on the
//!   pico grid.

pub mod angle;
pub mod regime;
pub mod solver;
