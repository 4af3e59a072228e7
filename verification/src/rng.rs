//! The machine's entropy source.
use vstd::prelude::*;

verus! {

/// Relies on rand::random: draws one value of `T` from the thread-local
/// generator. Nothing can be promised of a random value, so there is no
/// `ensures`; the masked-random operation states what holds of every
/// outcome.
pub assume_specification<T>[ rand::random::<T> ]() -> (r: T)
    where
        rand::distributions::Standard: rand::distributions::Distribution<T>,
;

} // verus!
