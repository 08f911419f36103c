//! The configurable string matcher: a needle text, the length of match that it
//! asks for, and whether the comparison tells upper case from lower case.

use vstd::prelude::*;
use vstd::std_specs::cmp::PartialEqSpecImpl;
use vstd::std_specs::convert::FromSpecImpl;
use vstd::std_specs::convert::IntoSpec;
use crate::needle::Needle;
use crate::strings::{lowercase, pad, str_contains};
use crate::text::{contains, contains_word, lemma_padded_contains, occurs_at, word_at};

verus! {

/// How much of the candidate the needle text has to cover.
#[derive(Debug, Eq, PartialEq, Hash, Structural)]
pub enum StringMatchLength {
    /// The needle text is the whole candidate.
    Full,
    /// The needle text occurs anywhere in the candidate.
    Partial,
    /// The needle text occurs in the candidate between spaces or the ends of
    /// the candidate.
    Word,
}

impl Clone for StringMatchLength {
    fn clone(&self) -> (same: Self)
        ensures
            same == *self,
    {
        match self {
            StringMatchLength::Full => StringMatchLength::Full,
            StringMatchLength::Partial => StringMatchLength::Partial,
            StringMatchLength::Word => StringMatchLength::Word,
        }
    }
}

/// Whether `needle` is found in `haystack` under the given length of match.
/// Both are compared as they are.
pub open spec fn found_in(
    needle: Seq<char>,
    haystack: Seq<char>,
    match_length: StringMatchLength,
) -> bool {
    match match_length {
        StringMatchLength::Full => haystack == needle,
        StringMatchLength::Partial => contains(haystack, needle),
        StringMatchLength::Word => contains_word(haystack, needle),
    }
}

/// `text` as it is compared: itself, or its lowercase form where case does
/// not count.
pub open spec fn folded(text: Seq<char>, case_sensitive: bool) -> Seq<char> {
    if case_sensitive {
        text
    } else {
        lowercase(text)
    }
}

/// Two texts that differ in case at most: their lowercase forms are equal.
pub open spec fn same_ignoring_case(left: Seq<char>, right: Seq<char>) -> bool {
    lowercase(left) == lowercase(right)
}

/// `text` is the content of a string that `source` may convert to.
pub open spec fn converts_to<S: Into<String>>(source: S, text: Seq<char>) -> bool {
    exists|owned: String|
        call_ensures(<S as Into<String>>::into, (source,), owned) && owned@ == text
}

/// What a `StringMatch` is: its three attributes.
pub struct StringMatchView {
    pub text: Seq<char>,
    pub match_length: StringMatchLength,
    pub case_sensitive: bool,
}

impl StringMatchView {
    /// The matcher that a plain text starts as: the whole candidate has to be
    /// the text, case included.
    pub open spec fn fresh(text: Seq<char>) -> Self {
        StringMatchView { text, match_length: StringMatchLength::Full, case_sensitive: true }
    }

    /// The same matcher with another length of match.
    pub open spec fn with_length(self, match_length: StringMatchLength) -> Self {
        StringMatchView { match_length, ..self }
    }

    /// The same matcher with another case sensitivity.
    pub open spec fn with_case(self, case_sensitive: bool) -> Self {
        StringMatchView { case_sensitive, ..self }
    }

    /// The candidates that the matcher accepts.
    pub open spec fn accepts(self, haystack: Seq<char>) -> bool {
        found_in(
            folded(self.text, self.case_sensitive),
            folded(haystack, self.case_sensitive),
            self.match_length,
        )
    }
}

/// A needle text with its length of match and its case sensitivity.
#[derive(Debug, Eq, Hash)]
pub struct StringMatch {
    text: String,
    match_length: StringMatchLength,
    case_sensitive: bool,
}

impl View for StringMatch {
    type V = StringMatchView;

    closed spec fn view(&self) -> StringMatchView {
        StringMatchView {
            text: self.text@,
            match_length: self.match_length,
            case_sensitive: self.case_sensitive,
        }
    }
}

impl Clone for StringMatch {
    fn clone(&self) -> (same: Self)
        ensures
            same == *self,
    {
        StringMatch {
            text: self.text.clone(),
            match_length: self.match_length.clone(),
            case_sensitive: self.case_sensitive,
        }
    }
}

impl PartialEq for StringMatch {
    /// Two matchers are equal exactly when their three attributes are.
    fn eq(&self, other: &Self) -> (same: bool) {
        self.text == other.text && self.match_length == other.match_length && self.case_sensitive
            == other.case_sensitive
    }
}

impl PartialEqSpecImpl for StringMatch {
    open spec fn obeys_eq_spec() -> bool {
        true
    }

    open spec fn eq_spec(&self, other: &Self) -> bool {
        self@ == other@
    }
}

impl<S> From<S> for StringMatch where S: Into<String> {
    /// A matcher for the whole of `text`, case included.
    fn from(text: S) -> (m: Self)
        ensures
            converts_to(text, m@.text),
            m@ == StringMatchView::fresh(m@.text),
    {
        Self { text: text.into(), match_length: StringMatchLength::Full, case_sensitive: true }
    }
}

impl<S> FromSpecImpl<S> for StringMatch where S: Into<String> {
    open spec fn obeys_from_spec() -> bool {
        S::obeys_into_spec()
    }

    closed spec fn from_spec(text: S) -> Self {
        StringMatch {
            text: S::into_spec(text),
            match_length: StringMatchLength::Full,
            case_sensitive: true,
        }
    }
}

impl StringMatch {
    /// A matcher for the whole of `text`, case included.
    pub fn new<S>(text: S) -> (m: Self) where S: Into<String>
        ensures
            converts_to(text, m@.text),
            m@ == StringMatchView::fresh(m@.text),
    {
        Self::from(text)
    }

    /// The needle text.
    pub fn text(&self) -> (text: &str)
        ensures
            text@ == self@.text,
    {
        self.text.as_str()
    }

    /// Whether the text has to be the whole candidate.
    pub fn is_full_match(&self) -> (full: bool)
        ensures
            full == (self@.match_length == StringMatchLength::Full),
    {
        matches!(self.match_length, StringMatchLength::Full)
    }

    /// Whether the text may occur anywhere in the candidate.
    pub fn is_partial_match(&self) -> (partial: bool)
        ensures
            partial == (self@.match_length == StringMatchLength::Partial),
    {
        matches!(self.match_length, StringMatchLength::Partial)
    }

    /// Whether the text has to occur as a word of the candidate.
    pub fn is_word_match(&self) -> (word: bool)
        ensures
            word == (self@.match_length == StringMatchLength::Word),
    {
        matches!(self.match_length, StringMatchLength::Word)
    }

    /// Whether the comparison tells upper case from lower case.
    pub fn is_case_sensitive(&self) -> (sensitive: bool)
        ensures
            sensitive == self@.case_sensitive,
    {
        self.case_sensitive
    }

    /// The same matcher, looking for the text anywhere in the candidate.
    pub fn partial(self) -> (m: Self)
        ensures
            m@ == self@.with_length(StringMatchLength::Partial),
    {
        let mut m = self;
        m.match_length = StringMatchLength::Partial;
        m
    }

    /// The same matcher, asking that the text be the whole candidate.
    pub fn full(self) -> (m: Self)
        ensures
            m@ == self@.with_length(StringMatchLength::Full),
    {
        let mut m = self;
        m.match_length = StringMatchLength::Full;
        m
    }

    /// The same matcher, looking for the text as a word of the candidate.
    pub fn word(self) -> (m: Self)
        ensures
            m@ == self@.with_length(StringMatchLength::Word),
    {
        let mut m = self;
        m.match_length = StringMatchLength::Word;
        m
    }

    /// The same matcher, comparing lowercase forms.
    pub fn case_insensitive(self) -> (m: Self)
        ensures
            m@ == self@.with_case(false),
    {
        let mut m = self;
        m.case_sensitive = false;
        m
    }

    /// The same matcher, comparing the texts as they are.
    pub fn case_sensitive(self) -> (m: Self)
        ensures
            m@ == self@.with_case(true),
    {
        let mut m = self;
        m.case_sensitive = true;
        m
    }
}

/// Whether `needle` is found in `haystack` under the given length of match,
/// both compared as they are.
pub fn needle_in_haystack(
    needle: &str,
    haystack: &str,
    match_length: &StringMatchLength,
) -> (found: bool)
    ensures
        found == found_in(needle@, haystack@, *match_length),
{
    match match_length {
        StringMatchLength::Full => haystack.eq(needle),
        StringMatchLength::Partial => str_contains(haystack, needle),
        StringMatchLength::Word => {
            let wide_haystack = pad(haystack);
            let wide_needle = pad(needle);
            proof {
                lemma_padded_contains(haystack@, needle@);
            }
            str_contains(wide_haystack.as_str(), wide_needle.as_str())
        },
    }
}

/// A matcher accepts the candidates in which its text is found under its
/// length of match, both taken in lowercase where case does not count.
impl Needle for StringMatch {
    open spec fn admits(&self, haystack: Seq<char>) -> bool {
        true
    }

    open spec fn matches(&self, haystack: Seq<char>) -> bool {
        self@.accepts(haystack)
    }

    /// Compares the text and the candidate as they are, or the lowercase
    /// forms of both, under the matcher's length of match.
    fn is_match(&self, haystack: &str) -> (matched: bool) {
        if self.case_sensitive {
            needle_in_haystack(self.text.as_str(), haystack, &self.match_length)
        } else {
            let hs = haystack.to_lowercase();
            let needle = self.text.as_str().to_lowercase();
            needle_in_haystack(needle.as_str(), hs.as_str(), &self.match_length)
        }
    }
}

/// A string slice converts to a string of its own characters, and an owned
/// string to itself: a matcher made from either holds that text.
pub proof fn law_strings_convert_to_themselves(slice: &str, owned: String, text: Seq<char>)
    ensures
        converts_to(slice, text) ==> text == slice@,
        converts_to(owned, text) ==> text == owned@,
{
}

/// A matcher fresh from a text accepts that text and no other candidate: not
/// the text in another case, not a longer or shorter one, and the empty
/// candidate only where the text is empty.
pub proof fn law_fresh_accepts_itself_only(text: Seq<char>, haystack: Seq<char>)
    ensures
        StringMatchView::fresh(text).accepts(haystack) <==> haystack == text,
        StringMatchView::fresh(text).accepts(Seq::empty()) <==> text.len() == 0,
{
    assert(Seq::<char>::empty() == text <==> text.len() == 0) by {
        if text.len() == 0 {
            assert(text =~= Seq::<char>::empty());
        }
    }
}

/// A matcher for the whole candidate that does not tell case apart accepts
/// exactly the candidates that differ from its text in case at most.
pub proof fn law_full_ignoring_case(text: Seq<char>, haystack: Seq<char>)
    ensures
        StringMatchView::fresh(text).with_case(false).accepts(haystack) <==> same_ignoring_case(
            haystack,
            text,
        ),
        StringMatchView::fresh(text).with_case(false).accepts(text),
{
}

/// The three lengths of match nest: a candidate that is the needle holds it
/// as a word, and a candidate that holds it as a word holds it.
pub proof fn law_lengths_nest(needle: Seq<char>, haystack: Seq<char>)
    ensures
        found_in(needle, haystack, StringMatchLength::Full) ==> found_in(
            needle,
            haystack,
            StringMatchLength::Word,
        ),
        found_in(needle, haystack, StringMatchLength::Word) ==> found_in(
            needle,
            haystack,
            StringMatchLength::Partial,
        ),
{
    if haystack == needle {
        assert(haystack.subrange(0, needle.len() as int) =~= needle);
        assert(word_at(needle, haystack, 0));
    }
    if contains_word(haystack, needle) {
        let at = choose|at: int| word_at(needle, haystack, at);
        assert(occurs_at(needle, haystack, at));
    }
}

/// A candidate that is compared as the same text as the needle is accepted
/// under every length of match, with or without regard to case.
pub proof fn law_same_as_compared_is_accepted(m: StringMatchView, haystack: Seq<char>)
    requires
        folded(haystack, m.case_sensitive) == folded(m.text, m.case_sensitive),
    ensures
        m.accepts(haystack),
{
    let needle = folded(m.text, m.case_sensitive);
    law_lengths_nest(needle, needle);
}

/// A candidate that is compared as the empty text is accepted by no matcher
/// whose needle is compared as a text that is not empty, whatever the length
/// of match.
pub proof fn law_empty_candidate(m: StringMatchView, haystack: Seq<char>)
    requires
        folded(haystack, m.case_sensitive).len() == 0,
        folded(m.text, m.case_sensitive).len() > 0,
    ensures
        !m.accepts(haystack),
{
    let needle = folded(m.text, m.case_sensitive);
    let hay = folded(haystack, m.case_sensitive);
    assert forall|at: int| !occurs_at(needle, hay, at) by {}
    assert forall|at: int| !word_at(needle, hay, at) by {}
}

/// Of several builder calls of one kind the last one decides, and the two
/// kinds do not touch each other.
pub proof fn law_last_builder_decides(
    m: StringMatchView,
    first: StringMatchLength,
    last: StringMatchLength,
    early: bool,
    late: bool,
)
    ensures
        m.with_length(first).with_length(last) == m.with_length(last),
        m.with_case(early).with_case(late) == m.with_case(late),
        m.with_length(last).with_case(late) == m.with_case(late).with_length(last),
        m.with_length(last).text == m.text,
        m.with_case(late).text == m.text,
{
}

/// The three attributes make the matcher: put together again from what was
/// read off a matcher, they give that matcher, for every length of match and
/// either case sensitivity.
pub proof fn law_rebuilt_from_attributes(m: StringMatchView)
    ensures
        StringMatchView::fresh(m.text).with_length(m.match_length).with_case(m.case_sensitive)
            == m,
{
}

} // verus!
