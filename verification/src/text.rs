//! Building strings from characters.

use vstd::prelude::*;

verus! {

/// A string of the given characters, collected with `FromIterator<char>`
/// (`Iterator::collect` into a `String`): the characters in order.
#[verifier::external_body]
pub(crate) fn string_from_chars(chars: &Vec<char>) -> (r: String)
    ensures
        r@ == chars@,
{
    chars.iter().collect()
}

} // verus!
