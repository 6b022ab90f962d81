//! Verified logic of three small browser demos: clearing the red channel
//! of a PNG picture, the bookkeeping of a repeated straight-line fit, and
//! the stage schedule and histogram of a Metropolis-Hastings walker.

pub mod unred;
pub mod metropolis;
pub mod fit_tally;
