//! Small helpers for the text forms.

use vstd::prelude::*;

verus! {

/// The word by which the host language prints a truth value.
pub open spec fn spec_repr_bool(b: bool) -> Seq<char> {
    if b {
        "True"@
    } else {
        "False"@
    }
}

pub fn repr_bool(b: bool) -> (r: &'static str)
    ensures
        r@ == spec_repr_bool(b),
{
    if b {
        "True"
    } else {
        "False"
    }
}

} // verus!
