//! What this library takes on trust about the string functions of the
//! standard library, and the small string helpers it proves from that.

use vstd::prelude::*;
use crate::text::{contains, padded};

verus! {

/// The lowercase form of `text` as `str::to_lowercase` computes it. The
/// mapping follows the Unicode tables built into the standard library and is
/// not spelled out here; it depends on the characters of `text` alone.
pub uninterp spec fn lowercase(text: Seq<char>) -> Seq<char>;

/// `str::to_lowercase`: the result is the lowercase form of the argument.
/// Nothing else is claimed of it.
pub assume_specification[ str::to_lowercase ](text: &str) -> (lower: String)
    ensures
        lower@ == lowercase(text@),
;

/// `==` on string slices: two slices are equal exactly when they hold the same
/// characters in the same order.
pub assume_specification[ <str as PartialEq>::eq ](left: &str, right: &str) -> (same: bool)
    ensures
        same == (left@ == right@),
;

/// `String::from(&str)`: the new string holds the characters of the slice.
pub assume_specification<'a>[ <String as From<&'a str>>::from ](source: &str) -> (owned: String)
    ensures
        owned@ == source@,
;

/// The reflexive `From<T> for T` of the standard library hands its argument
/// back unchanged.
pub assume_specification<T>[ <T as From<T>>::from ](value: T) -> (same: T)
    ensures
        same == value,
;

/// `str::contains` with a string slice as the pattern: whether `needle` occurs
/// in `haystack` as a contiguous run of characters.
#[verifier::external_body]
pub(crate) fn str_contains(haystack: &str, needle: &str) -> (found: bool)
    ensures
        found == contains(haystack@, needle@),
{
    haystack.contains(needle)
}

/// A copy of `text` with one space in front of it and one behind it.
pub(crate) fn pad(text: &str) -> (wide: String)
    ensures
        wide@ == padded(text@),
{
    let mut wide = " ".to_owned();
    wide.append(text);
    wide.append(" ");
    proof {
        reveal_strlit(" ");
        assert(" "@ =~= seq![' ']);
        assert(wide@ =~= padded(text@));
    }
    wide
}

} // verus!
