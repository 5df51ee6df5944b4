use vstd::prelude::*;

use crate::bounds::{clamp_int, clamp_usize};

verus! {

/// Smallest number of angle samples a normalized request asks for.
pub const MIN_SAMPLE_COUNT: usize = 91;

/// Largest number of angle samples a normalized request asks for.
pub const MAX_SAMPLE_COUNT: usize = 721;

/// Number of angle samples asked for when nothing else is given.
pub const DEFAULT_SAMPLE_COUNT: usize = 241;

/// Options of the angle solver: how many points of the efficiency curve over
/// `pi/2 ..= pi` are reported.
#[derive(Clone, Copy, Debug, PartialEq, Eq, Structural)]
pub struct SolverOptions {
    pub sample_count: usize,
}

impl SolverOptions {
    /// The options after normalization: the sample count forced into
    /// `[MIN_SAMPLE_COUNT, MAX_SAMPLE_COUNT]`.
    pub open spec fn normalized_spec(self) -> SolverOptions {
        SolverOptions {
            sample_count: clamp_int(
                self.sample_count as int,
                MIN_SAMPLE_COUNT as int,
                MAX_SAMPLE_COUNT as int,
            ) as usize,
        }
    }

    /// Whether the options are already within the normalized ranges.
    pub open spec fn is_normalized(self) -> bool {
        MIN_SAMPLE_COUNT <= self.sample_count <= MAX_SAMPLE_COUNT
    }

    /// Forces the sample count into `[MIN_SAMPLE_COUNT, MAX_SAMPLE_COUNT]`.
    pub fn normalized(&self) -> (r: SolverOptions)
        ensures
            r == self.normalized_spec(),
            r.is_normalized(),
            self.sample_count < 91 ==> r.sample_count == 91,
            self.sample_count > 721 ==> r.sample_count == 721,
            91 <= self.sample_count <= 721 ==> r.sample_count == self.sample_count,
    {
        SolverOptions { sample_count: clamp_usize(self.sample_count, MIN_SAMPLE_COUNT, MAX_SAMPLE_COUNT) }
    }
}

impl Default for SolverOptions {
    fn default() -> (r: SolverOptions)
        ensures
            r.sample_count == DEFAULT_SAMPLE_COUNT,
    {
        SolverOptions { sample_count: DEFAULT_SAMPLE_COUNT }
    }
}

/// Normalized options lie in the normalized range, and normalizing them again
/// changes nothing.
pub proof fn lemma_options_normalized_idempotent(o: SolverOptions)
    ensures
        o.normalized_spec().is_normalized(),
        o.normalized_spec().normalized_spec() == o.normalized_spec(),
{
}

/// Options already in range are left as they are by normalization.
pub proof fn lemma_options_in_range_unchanged(o: SolverOptions)
    requires
        o.is_normalized(),
    ensures
        o.normalized_spec() == o,
{
}

/// Normalization forces the sample count into `[91, 721]`: too few samples
/// become 91, too many become 721, and a count in range is kept.
pub proof fn lemma_options_normalized_values(o: SolverOptions)
    ensures
        o.sample_count < 91 ==> o.normalized_spec().sample_count == 91,
        o.sample_count > 721 ==> o.normalized_spec().sample_count == 721,
        91 <= o.sample_count <= 721 ==> o.normalized_spec().sample_count == o.sample_count,
        91 <= o.normalized_spec().sample_count <= 721,
{
}

/// Asking for more samples never yields fewer after normalization.
pub proof fn lemma_options_normalized_monotone(a: SolverOptions, b: SolverOptions)
    requires
        a.sample_count <= b.sample_count,
    ensures
        a.normalized_spec().sample_count <= b.normalized_spec().sample_count,
{
}

/// The default options are already normalized.
pub proof fn lemma_default_options_normalized()
    ensures
        (SolverOptions { sample_count: DEFAULT_SAMPLE_COUNT }).is_normalized(),
{
}

} // verus!
