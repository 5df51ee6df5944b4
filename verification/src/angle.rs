use vstd::prelude::*;

verus! {

/// How the optimal operating angle was found: by bisection inside a bracket
/// where the stationarity residual changes sign, or, when the scan finds no
/// sign change, by minimizing the residual's magnitude.
#[derive(Clone, Copy, Debug, PartialEq, Eq, Structural)]
pub enum AngleMethod {
    BracketedBisection,
    MinimumResidualSearch,
}

impl AngleMethod {
    /// A solution counts as converged exactly when it was bracketed: only then
    /// is a root of the residual known to lie in the final interval.
    pub fn converged(&self) -> (r: bool)
        ensures
            r == (*self is BracketedBisection),
    {
        match self {
            AngleMethod::BracketedBisection => true,
            AngleMethod::MinimumResidualSearch => false,
        }
    }

    /// The name reported with the solution.
    pub fn name(&self) -> (r: String)
        ensures
            *self is BracketedBisection ==> r@ == "bracketed-bisection"@,
            *self is MinimumResidualSearch ==> r@ == "minimum-residual-search"@,
    {
        match self {
            AngleMethod::BracketedBisection => "bracketed-bisection".to_owned(),
            AngleMethod::MinimumResidualSearch => "minimum-residual-search".to_owned(),
        }
    }
}

} // verus!
