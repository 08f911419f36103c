//! Shortcuts that turn a plain string into a configured matcher in one call.

use vstd::prelude::*;
use crate::string_match::{StringMatch, StringMatchLength, StringMatchView};

verus! {

/// `base` is a matcher that `source` may convert to.
pub open spec fn promotes_to<S: Into<StringMatch>>(source: S, base: StringMatchView) -> bool {
    exists|m: StringMatch|
        call_ensures(<S as Into<StringMatch>>::into, (source,), m) && m@ == base
}

/// A value that converts to a matcher, with one call for each configuration.
/// Each call converts the value and then applies the one builder it is named
/// after.
pub trait StringMatchable: Into<StringMatch> {
    fn match_case_sensitive(self) -> (m: StringMatch)
        ensures
            exists|base: StringMatchView|
                #![trigger promotes_to(self, base)]
                promotes_to(self, base) && m@ == base.with_case(true),
    {
        let base: StringMatch = self.into();
        assert(promotes_to(self, base@));
        base.case_sensitive()
    }

    fn match_case_insensitive(self) -> (m: StringMatch)
        ensures
            exists|base: StringMatchView|
                #![trigger promotes_to(self, base)]
                promotes_to(self, base) && m@ == base.with_case(false),
    {
        let base: StringMatch = self.into();
        assert(promotes_to(self, base@));
        base.case_insensitive()
    }

    fn match_full(self) -> (m: StringMatch)
        ensures
            exists|base: StringMatchView|
                #![trigger promotes_to(self, base)]
                promotes_to(self, base) && m@ == base.with_length(StringMatchLength::Full),
    {
        let base: StringMatch = self.into();
        assert(promotes_to(self, base@));
        base.full()
    }

    fn match_word(self) -> (m: StringMatch)
        ensures
            exists|base: StringMatchView|
                #![trigger promotes_to(self, base)]
                promotes_to(self, base) && m@ == base.with_length(StringMatchLength::Word),
    {
        let base: StringMatch = self.into();
        assert(promotes_to(self, base@));
        base.word()
    }

    fn match_partial(self) -> (m: StringMatch)
        ensures
            exists|base: StringMatchView|
                #![trigger promotes_to(self, base)]
                promotes_to(self, base) && m@ == base.with_length(StringMatchLength::Partial),
    {
        let base: StringMatch = self.into();
        assert(promotes_to(self, base@));
        base.partial()
    }
}

impl StringMatchable for String {

}

impl<'a> StringMatchable for &'a str {

}

/// A string slice and an owned string are promoted to the fresh matcher for
/// their own characters, so each shortcut gives what the constructor followed
/// by the builder of that name gives.
pub proof fn law_strings_promote_to_fresh(slice: &str, owned: String, base: StringMatchView)
    ensures
        promotes_to(slice, base) ==> base == StringMatchView::fresh(slice@),
        promotes_to(owned, base) ==> base == StringMatchView::fresh(owned@),
{
}

} // verus!
