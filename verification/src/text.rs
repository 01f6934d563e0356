//! Text helpers shared by the path and model types.

use vstd::prelude::*;

verus! {

/// Joins two pieces of text.
///
/// Wraps `concat` on a slice of string slices, which yields the pieces one
/// after the other and nothing else.
#[verifier::external_body]
pub(crate) fn concat(head: &str, tail: &str) -> (joined: String)
    ensures
        joined@ == head@ + tail@,
{
    [head, tail].concat()
}

} // verus!
