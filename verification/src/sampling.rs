//! Uniform sampling from a vector, the one place where the library calls
//! into the `rand` crate.

use vstd::prelude::*;
use rand::seq::IndexedRandom;

verus! {

/// Relies on rand's `IndexedRandom::choose`: it returns a uniformly sampled
/// element of the slice, and `None` exactly when the slice is empty.
#[verifier::external_body]
pub(crate) fn choose_copied<T: Copy>(items: &Vec<T>) -> (r: Option<T>)
    ensures
        match r {
            Some(x) => items@.contains(x),
            None => items@.len() == 0,
        },
{
    items.as_slice().choose(&mut rand::rng()).copied()
}

} // verus!
