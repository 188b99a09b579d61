//! Small verified helpers for working with string slices.

use vstd::prelude::*;

verus! {

/// Compares two string slices by their character sequences.
pub(crate) fn str_eq(a: &str, b: &str) -> (r: bool)
    ensures
        r == (a@ == b@),
{
    let x: String = a.to_owned();
    let y: String = b.to_owned();
    x == y
}

} // verus!
