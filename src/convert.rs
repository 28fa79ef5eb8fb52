//! Fixed-size views of vectors.

use vstd::prelude::*;

verus! {

/// Relies on std's `TryFrom<Vec<T>>` for `[T; 32]`: a vector of exactly 32
/// elements becomes the array of those elements, in order.
#[verifier::external_body]
fn vec_into_array<T>(v: Vec<T>) -> (r: [T; 32])
    requires
        v@.len() == 32,
    ensures
        r@ == v@,
{
    <[T; 32]>::try_from(v).ok().unwrap()
}

/// The 32 elements of `v` as an array.
pub fn to_array<T>(v: Vec<T>) -> (r: [T; 32])
    requires
        v@.len() == 32,
    ensures
        r@ == v@,
{
    vec_into_array(v)
}

} // verus!
