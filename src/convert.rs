//! Fixed-size views of vectors.

use vstd::prelude::*;

verus! {

/// Relies on std's `TryFrom<Vec<T>> for [T; N]`: a vector of exactly `N`
/// items becomes the array of those items, in order.
#[verifier::external_body]
fn vec_into_array<T, const N: usize>(v: Vec<T>) -> (r: [T; N])
    requires
        v@.len() == N,
    ensures
        r@ == v@,
{
    <[T; N]>::try_from(v).ok().unwrap()
}

/// Turns a vector of exactly `N` items into an array holding the same items
/// in the same order.
pub fn convert_vec_to_array<T, const N: usize>(v: Vec<T>) -> (r: [T; N])
    requires
        v@.len() == N,
    ensures
        r@ == v@,
{
    vec_into_array(v)
}

} // verus!
