//! Randomness, drawn through the `rand` crate. Each draw is wrapped so
//! that callers state only what holds of every outcome.

use vstd::prelude::*;
use rand::Rng;
use rand::seq::IndexedRandom;

verus! {

/// Relies on rand::Rng::random_range over `0..n`: the sample lies in the
/// range; the call panics only on an empty range, which `n > 0` rules out.
#[verifier::external_body]
pub(crate) fn random_below(n: u32) -> (r: u32)
    requires
        n > 0,
    ensures
        r < n,
{
    rand::rng().random_range(0..n)
}

/// Relies on rand::seq::IndexedRandom::choose: `None` exactly on an empty
/// slice, otherwise a reference to one of its elements.
#[verifier::external_body]
pub(crate) fn choose_i32(v: &Vec<i32>) -> (r: Option<i32>)
    ensures
        r is Some <==> v@.len() > 0,
        r matches Some(x) ==> v@.contains(x),
{
    v.choose(&mut rand::rng()).copied()
}

} // verus!
