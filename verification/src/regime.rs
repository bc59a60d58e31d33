//! Regime classification for the orbital time law.
//!
//! A `(eccentricity, anomaly)` pair is sorted into one of six regimes, and
//! each regime dispatches to one of four time laws.  Eccentricities and the
//! local measurements at the anomaly are taken as fixed-point values on a
//! grid of one trillionth (the pico grid): the caller rounds its
//! floating-point measurements onto the grid, and the classification below
//! is exact on those grid values.

use vstd::prelude::*;

verus! {

/// One, on the pico grid: the parabolic eccentricity.
pub const ONE_PICO: u64 = 1_000_000_000_000;

/// Width of the near-parabolic eccentricity band around one, on the pico
/// grid: one hundredth.  Inside the band the closed-form Kepler inversion
/// is trusted only where the local Newton derivative stays at least this
/// large; elsewhere the power-series law takes over.
pub const DELTA_PICO: u64 = 10_000_000_000;

/// Where an eccentricity sits relative to the near-parabolic band
/// `[1 - delta, 1 + delta]` around one.
#[derive(Clone, Copy, Debug, PartialEq, Eq, Structural)]
pub enum Band {
    /// `ecc < 1 - delta`
    StronglyElliptic,
    /// `1 - delta <= ecc < 1`
    NearUnityElliptic,
    /// `ecc == 1`
    Parabolic,
    /// `1 < ecc <= 1 + delta`
    NearUnityHyperbolic,
    /// `1 + delta < ecc`
    StronglyHyperbolic,
}

/// The band an eccentricity falls into for a given band half-width.
pub open spec fn band_of(ecc_pico: u64, delta_pico: u64) -> Band {
    if ecc_pico < ONE_PICO - delta_pico {
        Band::StronglyElliptic
    } else if ecc_pico < ONE_PICO {
        Band::NearUnityElliptic
    } else if ecc_pico == ONE_PICO {
        Band::Parabolic
    } else if ecc_pico <= ONE_PICO + delta_pico {
        Band::NearUnityHyperbolic
    } else {
        Band::StronglyHyperbolic
    }
}

/// Sorts an eccentricity into its band.
pub fn eccentricity_band(ecc_pico: u64, delta_pico: u64) -> (b: Band)
    requires
        delta_pico <= ONE_PICO,
    ensures
        b == band_of(ecc_pico, delta_pico),
        (b == Band::StronglyElliptic) <==> (ecc_pico < ONE_PICO - delta_pico),
        (b == Band::NearUnityElliptic) <==> (ONE_PICO - delta_pico <= ecc_pico < ONE_PICO),
        (b == Band::Parabolic) <==> (ecc_pico == ONE_PICO),
        (b == Band::NearUnityHyperbolic) <==> (ONE_PICO < ecc_pico <= ONE_PICO + delta_pico),
        (b == Band::StronglyHyperbolic) <==> (ONE_PICO + delta_pico < ecc_pico),
{
    if ecc_pico < ONE_PICO - delta_pico {
        Band::StronglyElliptic
    } else if ecc_pico < ONE_PICO {
        Band::NearUnityElliptic
    } else if ecc_pico == ONE_PICO {
        Band::Parabolic
    } else if ecc_pico <= ONE_PICO + delta_pico {
        Band::NearUnityHyperbolic
    } else {
        Band::StronglyHyperbolic
    }
}

/// Local measurements at the anomaly under classification, on the pico
/// grid.  The caller evaluates both and rounds them onto the grid.
#[derive(Clone, Copy, Debug, PartialEq, Eq, Structural)]
pub struct AnomalyProbe {
    /// The Newton derivative of Kepler's equation at this anomaly:
    /// `1 - e cos E` on the elliptic side, `e cosh F - 1` on the
    /// hyperbolic side.  Inside the near-parabolic band, the closed form
    /// is trusted only where this stays at least `delta`.
    pub kepler_derivative_pico: i64,
    /// `1 + e cos nu`.  Negative exactly when the point lies off the
    /// physical branch of a hyperbola, where no time law applies.
    pub branch_margin_pico: i64,
}

/// Whether the local Newton derivative is large enough for the closed-form
/// Kepler inversion to be numerically trustworthy at this anomaly.
pub open spec fn closed_form_trusted(delta_pico: u64, kepler_derivative_pico: i64) -> bool {
    delta_pico <= kepler_derivative_pico
}

/// Whether the point lies off the physical branch of the hyperbola.
pub open spec fn off_physical_branch(branch_margin_pico: i64) -> bool {
    branch_margin_pico < 0
}

/// The six regimes of the time law.
#[derive(Clone, Copy, Debug, PartialEq, Eq, Structural)]
pub enum Regime {
    /// Closed-form elliptic Kepler law.
    Elliptic,
    /// Elliptic side of the band, too close to the parabolic singularity
    /// for the closed form: power-series law.
    NearParabolicElliptic,
    /// Exactly parabolic: Barker's law.
    Parabolic,
    /// Off the physical hyperbola branch: no time law, the propagation
    /// fails with the sentinel.
    Invalid,
    /// Hyperbolic side of the band, too close to the singularity:
    /// power-series law.
    NearParabolicHyperbolic,
    /// Closed-form hyperbolic Kepler law.
    Hyperbolic,
}

/// The regime of an `(eccentricity, anomaly)` pair.
pub open spec fn regime_of(ecc_pico: u64, delta_pico: u64, probe: AnomalyProbe) -> Regime {
    match band_of(ecc_pico, delta_pico) {
        Band::StronglyElliptic => Regime::Elliptic,
        Band::NearUnityElliptic => if closed_form_trusted(
            delta_pico,
            probe.kepler_derivative_pico,
        ) {
            Regime::Elliptic
        } else {
            Regime::NearParabolicElliptic
        },
        Band::Parabolic => Regime::Parabolic,
        Band::NearUnityHyperbolic => if off_physical_branch(probe.branch_margin_pico) {
            Regime::Invalid
        } else if closed_form_trusted(delta_pico, probe.kepler_derivative_pico) {
            Regime::Hyperbolic
        } else {
            Regime::NearParabolicHyperbolic
        },
        Band::StronglyHyperbolic => if off_physical_branch(probe.branch_margin_pico) {
            Regime::Invalid
        } else {
            Regime::Hyperbolic
        },
    }
}

/// Classifies an `(eccentricity, anomaly)` pair into its regime.
///
/// The six clauses below restate the whole regime table, so the contract
/// pins the result down for every input.
pub fn classify_regime(ecc_pico: u64, delta_pico: u64, probe: AnomalyProbe) -> (r: Regime)
    requires
        delta_pico <= ONE_PICO,
    ensures
        r == regime_of(ecc_pico, delta_pico, probe),
        (r == Regime::Elliptic) <==> (ecc_pico < ONE_PICO && (ecc_pico < ONE_PICO - delta_pico
            || closed_form_trusted(delta_pico, probe.kepler_derivative_pico))),
        (r == Regime::NearParabolicElliptic) <==> (ONE_PICO - delta_pico <= ecc_pico < ONE_PICO
            && !closed_form_trusted(delta_pico, probe.kepler_derivative_pico)),
        (r == Regime::Parabolic) <==> (ecc_pico == ONE_PICO),
        (r == Regime::Invalid) <==> (ONE_PICO < ecc_pico && off_physical_branch(
            probe.branch_margin_pico,
        )),
        (r == Regime::NearParabolicHyperbolic) <==> (ONE_PICO < ecc_pico <= ONE_PICO + delta_pico
            && !off_physical_branch(probe.branch_margin_pico) && !closed_form_trusted(
            delta_pico,
            probe.kepler_derivative_pico,
        )),
        (r == Regime::Hyperbolic) <==> (ONE_PICO < ecc_pico && !off_physical_branch(
            probe.branch_margin_pico,
        ) && (ONE_PICO + delta_pico < ecc_pico || closed_form_trusted(
            delta_pico,
            probe.kepler_derivative_pico,
        ))),
{
    let trusted: bool = probe.kepler_derivative_pico >= 0 && delta_pico
        <= probe.kepler_derivative_pico as u64;
    match eccentricity_band(ecc_pico, delta_pico) {
        Band::StronglyElliptic => Regime::Elliptic,
        Band::NearUnityElliptic => if trusted {
            Regime::Elliptic
        } else {
            Regime::NearParabolicElliptic
        },
        Band::Parabolic => Regime::Parabolic,
        Band::NearUnityHyperbolic => if probe.branch_margin_pico < 0 {
            Regime::Invalid
        } else if trusted {
            Regime::Hyperbolic
        } else {
            Regime::NearParabolicHyperbolic
        },
        Band::StronglyHyperbolic => if probe.branch_margin_pico < 0 {
            Regime::Invalid
        } else {
            Regime::Hyperbolic
        },
    }
}

/// The four time laws the regimes dispatch to.
#[derive(Clone, Copy, Debug, PartialEq, Eq, Structural)]
pub enum TimeLaw {
    /// `E` from `nu`, `M = E - e sin E`, mean motion
    /// `n = sqrt(k (1 - e)^3 / q^3)`.
    EllipticKepler,
    /// `D = tan(nu / 2)`, `M = D + D^3 / 3`, mean motion
    /// `n = sqrt(k / (2 q^3))`.
    ParabolicBarker,
    /// `D = tan(nu / 2)`, `M` from the near-parabolic power series, mean
    /// motion `n = sqrt(k / (2 q^3))`.
    NearParabolicBarker,
    /// `F` from `nu`, `M = e sinh F - F`, mean motion
    /// `n = sqrt(k (e - 1)^3 / q^3)`.
    HyperbolicKepler,
}

/// The time law a regime uses; the invalid regime has none.
pub open spec fn time_law_of(r: Regime) -> Option<TimeLaw> {
    match r {
        Regime::Elliptic => Some(TimeLaw::EllipticKepler),
        Regime::NearParabolicElliptic => Some(TimeLaw::NearParabolicBarker),
        Regime::Parabolic => Some(TimeLaw::ParabolicBarker),
        Regime::Invalid => None,
        Regime::NearParabolicHyperbolic => Some(TimeLaw::NearParabolicBarker),
        Regime::Hyperbolic => Some(TimeLaw::HyperbolicKepler),
    }
}

/// Dispatches a regime to its time law.  `None` is the failure sentinel:
/// it comes back exactly for the invalid regime, and the caller reports
/// the propagation as failed instead of computing a time.
pub fn time_law_for(r: Regime) -> (l: Option<TimeLaw>)
    ensures
        l == time_law_of(r),
        (l == None::<TimeLaw>) <==> (r == Regime::Invalid),
{
    match r {
        Regime::Elliptic => Some(TimeLaw::EllipticKepler),
        Regime::NearParabolicElliptic => Some(TimeLaw::NearParabolicBarker),
        Regime::Parabolic => Some(TimeLaw::ParabolicBarker),
        Regime::Invalid => None,
        Regime::NearParabolicHyperbolic => Some(TimeLaw::NearParabolicBarker),
        Regime::Hyperbolic => Some(TimeLaw::HyperbolicKepler),
    }
}

/// The time law the inverse selector uses, given the magnitudes of the
/// mean anomaly to invert and of the mean anomaly at the band's boundary
/// anomaly.  Inside the near-parabolic band the closed form is kept while
/// the target mean anomaly is at least the boundary one; no pair is
/// invalid here, since a time is always reachable on the physical branch.
pub open spec fn inverse_law_of(
    ecc_pico: u64,
    delta_pico: u64,
    mean_abs_pico: u128,
    boundary_mean_abs_pico: u128,
) -> TimeLaw {
    match band_of(ecc_pico, delta_pico) {
        Band::StronglyElliptic => TimeLaw::EllipticKepler,
        Band::NearUnityElliptic => if boundary_mean_abs_pico <= mean_abs_pico {
            TimeLaw::EllipticKepler
        } else {
            TimeLaw::NearParabolicBarker
        },
        Band::Parabolic => TimeLaw::ParabolicBarker,
        Band::NearUnityHyperbolic => if boundary_mean_abs_pico <= mean_abs_pico {
            TimeLaw::HyperbolicKepler
        } else {
            TimeLaw::NearParabolicBarker
        },
        Band::StronglyHyperbolic => TimeLaw::HyperbolicKepler,
    }
}

/// Selects the time law for inverting a mean anomaly back to an anomaly:
/// the mirror image of [`classify_regime`].  The four clauses restate the
/// whole selection table.
pub fn inverse_time_law(
    ecc_pico: u64,
    delta_pico: u64,
    mean_abs_pico: u128,
    boundary_mean_abs_pico: u128,
) -> (l: TimeLaw)
    requires
        delta_pico <= ONE_PICO,
    ensures
        l == inverse_law_of(ecc_pico, delta_pico, mean_abs_pico, boundary_mean_abs_pico),
        (l == TimeLaw::EllipticKepler) <==> (ecc_pico < ONE_PICO && (ecc_pico < ONE_PICO
            - delta_pico || boundary_mean_abs_pico <= mean_abs_pico)),
        (l == TimeLaw::ParabolicBarker) <==> (ecc_pico == ONE_PICO),
        (l == TimeLaw::HyperbolicKepler) <==> (ONE_PICO < ecc_pico && (ONE_PICO + delta_pico
            < ecc_pico || boundary_mean_abs_pico <= mean_abs_pico)),
        (l == TimeLaw::NearParabolicBarker) <==> (ecc_pico != ONE_PICO && ONE_PICO - delta_pico
            <= ecc_pico <= ONE_PICO + delta_pico && mean_abs_pico < boundary_mean_abs_pico),
{
    match eccentricity_band(ecc_pico, delta_pico) {
        Band::StronglyElliptic => TimeLaw::EllipticKepler,
        Band::NearUnityElliptic => if boundary_mean_abs_pico <= mean_abs_pico {
            TimeLaw::EllipticKepler
        } else {
            TimeLaw::NearParabolicBarker
        },
        Band::Parabolic => TimeLaw::ParabolicBarker,
        Band::NearUnityHyperbolic => if boundary_mean_abs_pico <= mean_abs_pico {
            TimeLaw::HyperbolicKepler
        } else {
            TimeLaw::NearParabolicBarker
        },
        Band::StronglyHyperbolic => TimeLaw::HyperbolicKepler,
    }
}

/// Law: invalid geometry yields the failure sentinel.  For a hyperbolic
/// eccentricity and an anomaly with `1 + e cos nu < 0`, the pair is
/// classified invalid and no time law is dispatched, whatever the band
/// half-width and the other measurement say.
pub proof fn lemma_invalid_geometry_sentinel(ecc_pico: u64, delta_pico: u64, probe: AnomalyProbe)
    requires
        ONE_PICO < ecc_pico,
        off_physical_branch(probe.branch_margin_pico),
    ensures
        regime_of(ecc_pico, delta_pico, probe) == Regime::Invalid,
        time_law_of(regime_of(ecc_pico, delta_pico, probe)) == None::<TimeLaw>,
{
}

/// Law: on the physical branch a time law is always owed.  Whenever the
/// branch margin is not negative, the pair is classified into a lawful
/// regime and the dispatch never returns the failure sentinel.
pub proof fn lemma_on_branch_always_lawful(ecc_pico: u64, delta_pico: u64, probe: AnomalyProbe)
    requires
        !off_physical_branch(probe.branch_margin_pico),
    ensures
        regime_of(ecc_pico, delta_pico, probe) != Regime::Invalid,
        time_law_of(regime_of(ecc_pico, delta_pico, probe)) != None::<TimeLaw>,
{
}

/// Law: the regime does not jump at the lower edge of the near-parabolic
/// band.  Where the local Newton derivative still clears the band
/// half-width, eccentricities on either side of `1 - delta` classify into
/// the same elliptic regime, so the same closed-form time law applies on
/// both sides of the edge.
pub proof fn lemma_steady_at_lower_edge(
    ecc_below: u64,
    ecc_above: u64,
    delta_pico: u64,
    probe: AnomalyProbe,
)
    requires
        ecc_below < ONE_PICO - delta_pico,
        ONE_PICO - delta_pico <= ecc_above < ONE_PICO,
        closed_form_trusted(delta_pico, probe.kepler_derivative_pico),
    ensures
        regime_of(ecc_below, delta_pico, probe) == Regime::Elliptic,
        regime_of(ecc_above, delta_pico, probe) == Regime::Elliptic,
{
}

/// Law: the regime does not jump at the upper edge of the near-parabolic
/// band.  On the physical branch, where the local Newton derivative still
/// clears the band half-width, eccentricities on either side of
/// `1 + delta` classify into the same hyperbolic regime.
pub proof fn lemma_steady_at_upper_edge(
    ecc_inside: u64,
    ecc_beyond: u64,
    delta_pico: u64,
    probe: AnomalyProbe,
)
    requires
        ONE_PICO < ecc_inside <= ONE_PICO + delta_pico,
        ONE_PICO + delta_pico < ecc_beyond,
        !off_physical_branch(probe.branch_margin_pico),
        closed_form_trusted(delta_pico, probe.kepler_derivative_pico),
    ensures
        regime_of(ecc_inside, delta_pico, probe) == Regime::Hyperbolic,
        regime_of(ecc_beyond, delta_pico, probe) == Regime::Hyperbolic,
{
}

/// Law: away from the near-parabolic band, the forward and the inverse
/// selector choose the same time law, whatever the local measurements
/// say; going to a time and coming back runs through one law.
pub proof fn lemma_selectors_agree_outside_band(
    ecc_pico: u64,
    delta_pico: u64,
    probe: AnomalyProbe,
    mean_abs_pico: u128,
    boundary_mean_abs_pico: u128,
)
    requires
        band_of(ecc_pico, delta_pico) == Band::StronglyElliptic || band_of(ecc_pico, delta_pico)
            == Band::Parabolic || band_of(ecc_pico, delta_pico) == Band::StronglyHyperbolic,
        !off_physical_branch(probe.branch_margin_pico),
    ensures
        time_law_of(regime_of(ecc_pico, delta_pico, probe)) == Some(
            inverse_law_of(ecc_pico, delta_pico, mean_abs_pico, boundary_mean_abs_pico),
        ),
{
}

} // verus!
