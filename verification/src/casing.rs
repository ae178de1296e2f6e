//! Uppercasing of environment-variable names for the custom-script
//! exporter.

use vstd::prelude::*;

verus! {

/// The uppercase equivalent of a character sequence, as Unicode case mapping
/// defines it.  It is a function of the characters alone.
pub uninterp spec fn upper_of(s: Seq<char>) -> Seq<char>;

/// Relies on str::to_uppercase: returns the uppercase equivalent of the
/// string, determined by its characters alone; an empty string stays empty.
#[verifier::external_body]
pub(crate) fn to_upper_text(s: &str) -> (r: String)
    ensures
        r@ == upper_of(s@),
        s@.len() == 0 ==> r@.len() == 0,
{
    s.to_uppercase()
}

} // verus!
