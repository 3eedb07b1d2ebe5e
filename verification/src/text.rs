//! A trusted shim over a std string operation that vstd leaves unspecified.

use vstd::prelude::*;

verus! {

/// Relies on `String::push_str`: appends the given slice to the end of the
/// string, leaving the prior contents in place.
#[verifier::external_body]
pub(crate) fn append_str(s: &mut String, piece: &str)
    ensures
        final(s)@ == old(s)@ + piece@,
{
    s.push_str(piece)
}

} // verus!
