use vstd::prelude::*;

use crate::bounds::{clamp_int, clamp_usize, lemma_clamp_idempotent, lemma_clamp_monotone};

verus! {

/// Smallest accepted number of coil turns.
pub const MIN_TURNS: usize = 1;

/// Largest accepted number of coil turns.
pub const MAX_TURNS: usize = 200;

/// Smallest accepted radial (`n_rho`) or axial (`n_z`) sample count.
pub const MIN_AXIS_SAMPLES: usize = 8;

/// Largest accepted radial (`n_rho`) or axial (`n_z`) sample count.
pub const MAX_AXIS_SAMPLES: usize = 300;

/// Smallest accepted sample count of the Hankel (`lambda`) integral.
pub const MIN_N_LAMBDA: usize = 40;

/// Smallest `lambda` sample count that the automatic grid recommends.
pub const MIN_RECOMMENDED_N_LAMBDA: usize = 640;

/// Largest `lambda` sample count, recommended or accepted.
pub const MAX_RECOMMENDED_N_LAMBDA: usize = 6000;

/// Default number of coil turns.
pub const DEFAULT_TURNS: usize = 14;

/// Default radial and axial sample count.
pub const DEFAULT_AXIS_SAMPLES: usize = 64;

/// Default `lambda` sample count, also the recommendation before one is made.
pub const DEFAULT_N_LAMBDA: usize = 640;

/// The discrete part of the eddy-current model parameters: the coil's turn
/// count and the sample counts of the numerical grids (radial, axial and the
/// `lambda` grid of the Hankel integral), with the automatic-grid switch and
/// the `lambda` sample count that the automatic grid recommends.
#[derive(Clone, Copy, Debug, PartialEq, Eq, Structural)]
pub struct EddyCounts {
    pub turns: usize,
    pub n_rho: usize,
    pub n_z: usize,
    pub auto_lambda_grid: bool,
    pub n_lambda: usize,
    pub recommended_n_lambda: usize,
}

/// The `lambda` sample count recommended for a grid on which the Hankel
/// kernel goes through `periods` half-oscillations (rounded up): one more
/// sample than that, forced into
/// `[MIN_RECOMMENDED_N_LAMBDA, MAX_RECOMMENDED_N_LAMBDA]`.
pub open spec fn recommended_count_spec(periods: nat) -> int {
    clamp_int(
        (periods + 1) as int,
        MIN_RECOMMENDED_N_LAMBDA as int,
        MAX_RECOMMENDED_N_LAMBDA as int,
    )
}

/// Computes [`recommended_count_spec`] (the count grows by one without
/// overflow and is then clamped).
pub fn recommended_lambda_count(periods: usize) -> (r: usize)
    ensures
        r == recommended_count_spec(periods as nat),
        MIN_RECOMMENDED_N_LAMBDA <= r <= MAX_RECOMMENDED_N_LAMBDA,
        periods + 1 <= 640 ==> r == 640,
        640 <= periods + 1 <= 6000 ==> r == periods + 1,
        periods + 1 >= 6000 ==> r == 6000,
{
    clamp_usize(periods.saturating_add(1), MIN_RECOMMENDED_N_LAMBDA, MAX_RECOMMENDED_N_LAMBDA)
}

impl EddyCounts {
    /// Every count forced into its accepted range; the recommendation is reset
    /// to its default until a new one is made.
    pub open spec fn clamped_spec(self) -> EddyCounts {
        EddyCounts {
            turns: clamp_int(self.turns as int, MIN_TURNS as int, MAX_TURNS as int) as usize,
            n_rho: clamp_int(
                self.n_rho as int,
                MIN_AXIS_SAMPLES as int,
                MAX_AXIS_SAMPLES as int,
            ) as usize,
            n_z: clamp_int(
                self.n_z as int,
                MIN_AXIS_SAMPLES as int,
                MAX_AXIS_SAMPLES as int,
            ) as usize,
            auto_lambda_grid: self.auto_lambda_grid,
            n_lambda: clamp_int(
                self.n_lambda as int,
                MIN_N_LAMBDA as int,
                MAX_RECOMMENDED_N_LAMBDA as int,
            ) as usize,
            recommended_n_lambda: DEFAULT_N_LAMBDA,
        }
    }

    /// The recommendation recorded; with the automatic grid on, the `lambda`
    /// sample count becomes the recommended one.
    pub open spec fn with_recommendation_spec(self, recommended: usize) -> EddyCounts {
        EddyCounts {
            n_lambda: if self.auto_lambda_grid {
                recommended
            } else {
                self.n_lambda
            },
            recommended_n_lambda: recommended,
            ..self
        }
    }

    /// Full normalization for a grid of `periods` kernel half-oscillations.
    pub open spec fn normalized_spec(self, periods: nat) -> EddyCounts {
        self.clamped_spec().with_recommendation_spec(
            recommended_count_spec(periods) as usize,
        )
    }

    /// Whether every count lies in its accepted range, the recommendation in
    /// the recommended range, and the automatic grid uses the recommendation.
    pub open spec fn is_normalized(self) -> bool {
        &&& MIN_TURNS <= self.turns <= MAX_TURNS
        &&& MIN_AXIS_SAMPLES <= self.n_rho <= MAX_AXIS_SAMPLES
        &&& MIN_AXIS_SAMPLES <= self.n_z <= MAX_AXIS_SAMPLES
        &&& MIN_N_LAMBDA <= self.n_lambda <= MAX_RECOMMENDED_N_LAMBDA
        &&& MIN_RECOMMENDED_N_LAMBDA <= self.recommended_n_lambda <= MAX_RECOMMENDED_N_LAMBDA
        &&& self.auto_lambda_grid ==> self.n_lambda == self.recommended_n_lambda
    }

    /// Forces every count into its accepted range and resets the
    /// recommendation to its default.
    pub fn clamped(&self) -> (r: EddyCounts)
        ensures
            r == self.clamped_spec(),
            self.turns < 1 ==> r.turns == 1,
            self.turns > 200 ==> r.turns == 200,
            1 <= self.turns <= 200 ==> r.turns == self.turns,
            self.n_rho < 8 ==> r.n_rho == 8,
            self.n_rho > 300 ==> r.n_rho == 300,
            8 <= self.n_rho <= 300 ==> r.n_rho == self.n_rho,
            self.n_z < 8 ==> r.n_z == 8,
            self.n_z > 300 ==> r.n_z == 300,
            8 <= self.n_z <= 300 ==> r.n_z == self.n_z,
            self.n_lambda < 40 ==> r.n_lambda == 40,
            self.n_lambda > 6000 ==> r.n_lambda == 6000,
            40 <= self.n_lambda <= 6000 ==> r.n_lambda == self.n_lambda,
            r.auto_lambda_grid == self.auto_lambda_grid,
            r.recommended_n_lambda == 640,
    {
        EddyCounts {
            turns: clamp_usize(self.turns, MIN_TURNS, MAX_TURNS),
            n_rho: clamp_usize(self.n_rho, MIN_AXIS_SAMPLES, MAX_AXIS_SAMPLES),
            n_z: clamp_usize(self.n_z, MIN_AXIS_SAMPLES, MAX_AXIS_SAMPLES),
            auto_lambda_grid: self.auto_lambda_grid,
            n_lambda: clamp_usize(self.n_lambda, MIN_N_LAMBDA, MAX_RECOMMENDED_N_LAMBDA),
            recommended_n_lambda: DEFAULT_N_LAMBDA,
        }
    }

    /// Records a recommended `lambda` sample count and, with the automatic
    /// grid on, adopts it.
    pub fn with_recommendation(&self, recommended: usize) -> (r: EddyCounts)
        ensures
            r == self.with_recommendation_spec(recommended),
            r.recommended_n_lambda == recommended,
            self.auto_lambda_grid ==> r.n_lambda == recommended,
            !self.auto_lambda_grid ==> r.n_lambda == self.n_lambda,
            r.turns == self.turns,
            r.n_rho == self.n_rho,
            r.n_z == self.n_z,
            r.auto_lambda_grid == self.auto_lambda_grid,
    {
        EddyCounts {
            turns: self.turns,
            n_rho: self.n_rho,
            n_z: self.n_z,
            auto_lambda_grid: self.auto_lambda_grid,
            n_lambda: if self.auto_lambda_grid {
                recommended
            } else {
                self.n_lambda
            },
            recommended_n_lambda: recommended,
        }
    }

    /// Normalizes the counts for a `lambda` grid on which the Hankel kernel
    /// goes through `periods` half-oscillations: clamps every count, then
    /// records the recommended `lambda` sample count and adopts it when the
    /// automatic grid is on. A manual `lambda` count is kept, clamped.
    pub fn normalized(&self, periods: usize) -> (r: EddyCounts)
        ensures
            r == self.normalized_spec(periods as nat),
            r.is_normalized(),
            r.recommended_n_lambda == recommended_count_spec(periods as nat),
            !self.auto_lambda_grid ==> r.n_lambda == clamp_int(
                self.n_lambda as int,
                MIN_N_LAMBDA as int,
                MAX_RECOMMENDED_N_LAMBDA as int,
            ),
            r.auto_lambda_grid == self.auto_lambda_grid,
            self.auto_lambda_grid ==> r.n_lambda == r.recommended_n_lambda,
            periods + 1 <= 640 ==> r.recommended_n_lambda == 640,
            640 <= periods + 1 <= 6000 ==> r.recommended_n_lambda == periods + 1,
            periods + 1 >= 6000 ==> r.recommended_n_lambda == 6000,
            !self.auto_lambda_grid && self.n_lambda < 40 ==> r.n_lambda == 40,
            !self.auto_lambda_grid && self.n_lambda > 6000 ==> r.n_lambda == 6000,
            !self.auto_lambda_grid && 40 <= self.n_lambda <= 6000 ==> r.n_lambda == self.n_lambda,
            self.turns < 1 ==> r.turns == 1,
            self.turns > 200 ==> r.turns == 200,
            1 <= self.turns <= 200 ==> r.turns == self.turns,
            self.n_rho < 8 ==> r.n_rho == 8,
            self.n_rho > 300 ==> r.n_rho == 300,
            8 <= self.n_rho <= 300 ==> r.n_rho == self.n_rho,
            self.n_z < 8 ==> r.n_z == 8,
            self.n_z > 300 ==> r.n_z == 300,
            8 <= self.n_z <= 300 ==> r.n_z == self.n_z,
    {
        let recommended = recommended_lambda_count(periods);
        self.clamped().with_recommendation(recommended)
    }
}

impl Default for EddyCounts {
    fn default() -> (r: EddyCounts)
        ensures
            r.turns == DEFAULT_TURNS,
            r.n_rho == DEFAULT_AXIS_SAMPLES,
            r.n_z == DEFAULT_AXIS_SAMPLES,
            r.auto_lambda_grid,
            r.n_lambda == DEFAULT_N_LAMBDA,
            r.recommended_n_lambda == DEFAULT_N_LAMBDA,
    {
        EddyCounts {
            turns: DEFAULT_TURNS,
            n_rho: DEFAULT_AXIS_SAMPLES,
            n_z: DEFAULT_AXIS_SAMPLES,
            auto_lambda_grid: true,
            n_lambda: DEFAULT_N_LAMBDA,
            recommended_n_lambda: DEFAULT_N_LAMBDA,
        }
    }
}

/// The recommended `lambda` sample count never decreases as the number of
/// kernel half-oscillations grows, and always lies in the recommended range.
pub proof fn lemma_recommended_count_monotone(p: nat, q: nat)
    requires
        p <= q,
    ensures
        MIN_RECOMMENDED_N_LAMBDA <= recommended_count_spec(p) <= MAX_RECOMMENDED_N_LAMBDA,
        recommended_count_spec(p) <= recommended_count_spec(q),
{
    lemma_clamp_monotone(
        (p + 1) as int,
        (q + 1) as int,
        MIN_RECOMMENDED_N_LAMBDA as int,
        MAX_RECOMMENDED_N_LAMBDA as int,
    );
}

/// Normalized counts are in their ranges, and normalizing them again for the
/// same grid changes nothing.
pub proof fn lemma_normalized_idempotent(c: EddyCounts, periods: nat)
    ensures
        c.normalized_spec(periods).is_normalized(),
        c.normalized_spec(periods).normalized_spec(periods) == c.normalized_spec(periods),
{
    lemma_clamp_idempotent(c.turns as int, MIN_TURNS as int, MAX_TURNS as int);
    lemma_clamp_idempotent(c.n_rho as int, MIN_AXIS_SAMPLES as int, MAX_AXIS_SAMPLES as int);
    lemma_clamp_idempotent(c.n_z as int, MIN_AXIS_SAMPLES as int, MAX_AXIS_SAMPLES as int);
    lemma_clamp_idempotent(
        c.n_lambda as int,
        MIN_N_LAMBDA as int,
        MAX_RECOMMENDED_N_LAMBDA as int,
    );
    lemma_clamp_idempotent(
        (periods + 1) as int,
        MIN_RECOMMENDED_N_LAMBDA as int,
        MAX_RECOMMENDED_N_LAMBDA as int,
    );
}

/// Counts that are already normalized keep their turns, radial, axial and
/// manual `lambda` counts under normalization; only the recommendation (and,
/// with the automatic grid on, the `lambda` count that follows it) can change.
pub proof fn lemma_in_range_counts_kept(c: EddyCounts, periods: nat)
    requires
        c.is_normalized(),
    ensures
        c.normalized_spec(periods).turns == c.turns,
        c.normalized_spec(periods).n_rho == c.n_rho,
        c.normalized_spec(periods).n_z == c.n_z,
        c.normalized_spec(periods).auto_lambda_grid == c.auto_lambda_grid,
        !c.auto_lambda_grid ==> c.normalized_spec(periods).n_lambda == c.n_lambda,
{
}

/// The recommended `lambda` sample count is one more than the number of kernel
/// half-oscillations, raised to at least 640 and capped at 6000.
pub proof fn lemma_recommended_count_values(p: nat)
    ensures
        p + 1 <= 640 ==> recommended_count_spec(p) == 640,
        640 <= p + 1 <= 6000 ==> recommended_count_spec(p) == p + 1,
        p + 1 >= 6000 ==> recommended_count_spec(p) == 6000,
        recommended_count_spec(p) >= 640,
        recommended_count_spec(p) <= 6000,
        p + 1 <= 6000 ==> recommended_count_spec(p) >= p + 1,
{
}

/// Clamping forces each count into its range: turns into `[1, 200]`, radial
/// and axial counts into `[8, 300]`, the `lambda` count into `[40, 6000]`; a
/// value below the range becomes its lower end, one above becomes its upper
/// end, one inside is kept. The switch is kept and the recommendation reset
/// to 640.
pub proof fn lemma_clamped_values(c: EddyCounts)
    ensures
        c.turns < 1 ==> c.clamped_spec().turns == 1,
        c.turns > 200 ==> c.clamped_spec().turns == 200,
        1 <= c.turns <= 200 ==> c.clamped_spec().turns == c.turns,
        c.n_rho < 8 ==> c.clamped_spec().n_rho == 8,
        c.n_rho > 300 ==> c.clamped_spec().n_rho == 300,
        8 <= c.n_rho <= 300 ==> c.clamped_spec().n_rho == c.n_rho,
        c.n_z < 8 ==> c.clamped_spec().n_z == 8,
        c.n_z > 300 ==> c.clamped_spec().n_z == 300,
        8 <= c.n_z <= 300 ==> c.clamped_spec().n_z == c.n_z,
        c.n_lambda < 40 ==> c.clamped_spec().n_lambda == 40,
        c.n_lambda > 6000 ==> c.clamped_spec().n_lambda == 6000,
        40 <= c.n_lambda <= 6000 ==> c.clamped_spec().n_lambda == c.n_lambda,
        c.clamped_spec().auto_lambda_grid == c.auto_lambda_grid,
        c.clamped_spec().recommended_n_lambda == 640,
{
}

/// Clamping preserves the order of each count: more turns (or samples) in
/// never give fewer out.
pub proof fn lemma_clamped_monotone(a: EddyCounts, b: EddyCounts)
    ensures
        a.turns <= b.turns ==> a.clamped_spec().turns <= b.clamped_spec().turns,
        a.n_rho <= b.n_rho ==> a.clamped_spec().n_rho <= b.clamped_spec().n_rho,
        a.n_z <= b.n_z ==> a.clamped_spec().n_z <= b.clamped_spec().n_z,
        a.n_lambda <= b.n_lambda ==> a.clamped_spec().n_lambda <= b.clamped_spec().n_lambda,
{
}

/// Recording a recommendation stores it, makes it the `lambda` count exactly
/// when the automatic grid is on, and touches nothing else.
pub proof fn lemma_with_recommendation_values(c: EddyCounts, recommended: usize)
    ensures
        c.with_recommendation_spec(recommended).recommended_n_lambda == recommended,
        c.auto_lambda_grid ==> c.with_recommendation_spec(recommended).n_lambda == recommended,
        !c.auto_lambda_grid ==> c.with_recommendation_spec(recommended).n_lambda == c.n_lambda,
        c.with_recommendation_spec(recommended).turns == c.turns,
        c.with_recommendation_spec(recommended).n_rho == c.n_rho,
        c.with_recommendation_spec(recommended).n_z == c.n_z,
        c.with_recommendation_spec(recommended).auto_lambda_grid == c.auto_lambda_grid,
{
}

/// Normalization keeps the automatic-grid switch for every input; with the
/// switch on, the `lambda` count is the recommendation (one more than the
/// half-oscillations, within `[640, 6000]`) whatever count was given; with it
/// off, the given count is kept, clamped into `[40, 6000]`. Turns and the
/// radial and axial counts are clamped into their ranges.
pub proof fn lemma_normalized_values(c: EddyCounts, p: nat)
    ensures
        c.normalized_spec(p).auto_lambda_grid == c.auto_lambda_grid,
        c.normalized_spec(p).recommended_n_lambda == recommended_count_spec(p),
        c.auto_lambda_grid && p + 1 <= 640 ==> c.normalized_spec(p).n_lambda == 640,
        c.auto_lambda_grid && 640 <= p + 1 <= 6000 ==> c.normalized_spec(p).n_lambda == p + 1,
        c.auto_lambda_grid && p + 1 >= 6000 ==> c.normalized_spec(p).n_lambda == 6000,
        !c.auto_lambda_grid && c.n_lambda < 40 ==> c.normalized_spec(p).n_lambda == 40,
        !c.auto_lambda_grid && c.n_lambda > 6000 ==> c.normalized_spec(p).n_lambda == 6000,
        !c.auto_lambda_grid && 40 <= c.n_lambda <= 6000 ==> c.normalized_spec(p).n_lambda
            == c.n_lambda,
        c.turns < 1 ==> c.normalized_spec(p).turns == 1,
        c.turns > 200 ==> c.normalized_spec(p).turns == 200,
        1 <= c.turns <= 200 ==> c.normalized_spec(p).turns == c.turns,
        c.n_rho < 8 ==> c.normalized_spec(p).n_rho == 8,
        c.n_rho > 300 ==> c.normalized_spec(p).n_rho == 300,
        8 <= c.n_rho <= 300 ==> c.normalized_spec(p).n_rho == c.n_rho,
        c.n_z < 8 ==> c.normalized_spec(p).n_z == 8,
        c.n_z > 300 ==> c.normalized_spec(p).n_z == 300,
        8 <= c.n_z <= 300 ==> c.normalized_spec(p).n_z == c.n_z,
{
}

/// The normalized counts do not depend on the stale `lambda` count when the
/// automatic grid is on, nor on any stored recommendation.
pub proof fn lemma_normalized_ignores_stale_counts(c: EddyCounts, n_lambda: usize, stale: usize, p: nat)
    ensures
        (EddyCounts { recommended_n_lambda: stale, ..c }).normalized_spec(p) == c.normalized_spec(p),
        c.auto_lambda_grid ==> (EddyCounts { n_lambda: n_lambda, ..c }).normalized_spec(p)
            == c.normalized_spec(p),
{
}

/// The default counts are already normalized.
pub proof fn lemma_default_counts_normalized()
    ensures
        (EddyCounts {
            turns: DEFAULT_TURNS,
            n_rho: DEFAULT_AXIS_SAMPLES,
            n_z: DEFAULT_AXIS_SAMPLES,
            auto_lambda_grid: true,
            n_lambda: DEFAULT_N_LAMBDA,
            recommended_n_lambda: DEFAULT_N_LAMBDA,
        }).is_normalized(),
{
}

} // verus!
