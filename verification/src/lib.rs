//! Verified integer core of the seawater wireless power transfer (SWPT)
//! optimal-angle calculator: normalization of the discrete model parameters
//! (turn count and the sample counts of the numerical grids) and of the solver
//! options.

pub mod angle;
pub mod bounds;
pub mod grid;
pub mod options;
