//! Case folding for the name comparison used when sorting listings.

use vstd::prelude::*;

verus! {

/// The lowercase form of a sequence of characters, as Unicode defines it.
/// The full mapping is too large to restate here; contracts speak of the
/// result only through this name.
pub uninterp spec fn lower_of(s: Seq<char>) -> Seq<char>;

/// Relies on str::to_lowercase: the result is determined by the input
/// characters alone, and an empty string stays empty.
#[verifier::external_body]
pub(crate) fn lowercase(s: &str) -> (r: String)
    ensures
        r@ == lower_of(s@),
        s@.len() == 0 ==> r@.len() == 0,
{
    s.to_lowercase()
}

} // verus!
