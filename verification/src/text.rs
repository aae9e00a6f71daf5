//! Text helpers.

use vstd::prelude::*;

verus! {

/// Whether two string slices hold the same characters.
///
/// This is `str`'s `==`, which compares the two slices byte by byte; two
/// slices of valid UTF-8 have the same bytes exactly if they have the same
/// characters.
#[verifier::external_body]
pub(crate) fn str_eq(a: &str, b: &str) -> (r: bool)
    ensures
        r == (a@ == b@),
{
    a == b
}

} // verus!
