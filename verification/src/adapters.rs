//! Needles that need no configuration: plain strings, which stand for
//! themselves, compiled regular expressions, and predicates on strings.

use vstd::prelude::*;
use regex::Regex;
use crate::needle::{Needle, NeedleIter};
use crate::string_match::StringMatch;

verus! {

/// A compiled regular expression of the `regex` crate. What it holds is not
/// visible here.
#[verifier::external_type_specification]
#[verifier::external_body]
pub struct ExRegex(Regex);

/// Whether the regular expression finds a match anywhere in `haystack`, as
/// `Regex::is_match` decides it. How the pattern's syntax is read (anchors,
/// flags, classes) is the `regex` crate's affair and is not spelled out here;
/// the answer depends on the compiled expression and on the characters of
/// `haystack` alone.
pub uninterp spec fn regex_finds(pattern: Regex, haystack: Seq<char>) -> bool;

/// `Regex::is_match`: the answer is the one that the expression gives for
/// these characters. It searches from the start of the haystack and does not
/// panic.
#[verifier::external_body]
fn regex_is_match(pattern: &Regex, haystack: &str) -> (found: bool)
    ensures
        found == regex_finds(*pattern, haystack@),
{
    Regex::is_match(pattern, haystack)
}

/// A string slice accepts the candidate that is equal to it, character for
/// character.
impl<'a> Needle for &'a str {
    open spec fn admits(&self, haystack: Seq<char>) -> bool {
        true
    }

    open spec fn matches(&self, haystack: Seq<char>) -> bool {
        haystack == self@
    }

    fn is_match(&self, haystack: &str) -> (matched: bool) {
        (*self).eq(haystack)
    }
}

/// An owned string accepts the candidate that is equal to it, character for
/// character.
impl Needle for String {
    open spec fn admits(&self, haystack: Seq<char>) -> bool {
        true
    }

    open spec fn matches(&self, haystack: Seq<char>) -> bool {
        haystack == self@
    }

    fn is_match(&self, haystack: &str) -> (matched: bool) {
        self.as_str().eq(haystack)
    }
}

/// A regular expression accepts the candidates in which it finds a match.
impl Needle for Regex {
    open spec fn admits(&self, haystack: Seq<char>) -> bool {
        true
    }

    open spec fn matches(&self, haystack: Seq<char>) -> bool {
        regex_finds(*self, haystack)
    }

    fn is_match(&self, haystack: &str) -> (matched: bool) {
        regex_is_match(self, haystack)
    }
}

/// `predicate` may return `answer` when called on a string with the
/// characters of `haystack`.
pub open spec fn may_answer<F: Fn(&str) -> bool>(
    predicate: F,
    haystack: Seq<char>,
    answer: bool,
) -> bool {
    exists|text: &str| text@ == haystack && call_ensures(predicate, (text,), answer)
}

/// `predicate` may be called on every string with the characters of
/// `haystack`.
pub open spec fn callable_on<F: Fn(&str) -> bool>(predicate: F, haystack: Seq<char>) -> bool {
    forall|text: &str| text@ == haystack ==> call_requires(predicate, (text,))
}

/// A predicate accepts the candidates for which it returns `true`.
///
/// It can be asked about a candidate if it may be called on every string with
/// those characters and cannot answer both ways for them.
impl<F> Needle for F where F: Fn(&str) -> bool {
    open spec fn admits(&self, haystack: Seq<char>) -> bool {
        &&& callable_on(*self, haystack)
        &&& !(may_answer(*self, haystack, true) && may_answer(*self, haystack, false))
    }

    open spec fn matches(&self, haystack: Seq<char>) -> bool {
        may_answer(*self, haystack, true)
    }

    /// Calls the predicate on the candidate and hands its answer back.
    fn is_match(&self, haystack: &str) -> (matched: bool)
        ensures
            call_ensures(*self, (haystack,), matched),
    {
        self(haystack)
    }
}

/// What it means for a predicate to be a needle, for use where the predicate
/// is a given closure or function.
pub proof fn lemma_predicate_needle<F: Fn(&str) -> bool>(predicate: F, haystack: Seq<char>)
    ensures
        predicate.admits(haystack) <==> callable_on(predicate, haystack) && !(may_answer(
            predicate,
            haystack,
            true,
        ) && may_answer(predicate, haystack, false)),
        predicate.matches(haystack) <==> may_answer(predicate, haystack, true),
{
}

/// Every kind of needle of this library can search a sequence of candidates.
impl NeedleIter for StringMatch {

}

impl<'a> NeedleIter for &'a str {

}

impl NeedleIter for String {

}

impl NeedleIter for Regex {

}

impl<F> NeedleIter for F where F: Fn(&str) -> bool {

}

} // verus!
