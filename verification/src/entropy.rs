//! The external randomness source used to seed fresh tables.

use vstd::prelude::*;

verus! {

/// Relies on rand::random: one uniformly distributed value of the requested
/// width per call. Nothing can be promised of a random value, so this
/// specification has no ensures; every table cell it seeds is arbitrary.
pub assume_specification<T>[ rand::random::<T> ]() -> (r: T)
    where
        rand::distributions::Standard: rand::distributions::Distribution<T>,
;

} // verus!
