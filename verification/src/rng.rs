//! The randomness the engine draws on, behind trusted declarations.  Nothing
//! is assumed of a drawn value beyond its type and, for a ranged draw, its
//! range; every caller is verified for every value that can come back.

use vstd::prelude::*;

use rand::Rng;

verus! {

pub assume_specification<T>[ rand::random::<T> ]() -> (r: T)
    where
        rand::distributions::Standard: rand::distributions::Distribution<T>,
;

/// Relies on rand::thread_rng and rand::Rng::gen_range: a draw uniform over
/// the half-open range, which must not be empty.
#[verifier::external_body]
pub(crate) fn gen_range_u64(lo: u64, hi: u64) -> (r: u64)
    requires
        lo < hi,
    ensures
        lo <= r < hi,
{
    rand::thread_rng().gen_range(lo..hi)
}

} // verus!
