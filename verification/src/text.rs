//! Comparison of string slices.

use vstd::prelude::*;

verus! {

/// `str`'s `==` of the standard library: whether the two slices hold the
/// same characters.
#[verifier::external_body]
pub(crate) fn same_text(left: &str, right: &str) -> (same: bool)
    ensures
        same == (left@ == right@),
{
    left == right
}

} // verus!
