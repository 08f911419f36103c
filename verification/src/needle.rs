//! The capability that every kind of matcher offers: a yes-or-no answer for a
//! candidate string, and the search for a first accepted candidate in a
//! sequence of them.

use vstd::prelude::*;
use vstd::std_specs::iter::IteratorSpec;

verus! {

/// Something that a candidate string can be tested against.
pub trait Needle {
    /// The candidates on which this needle can be asked. Every needle that
    /// this library defines admits all of them; a predicate admits those on
    /// which it may be called and gives one answer.
    spec fn admits(&self, haystack: Seq<char>) -> bool;

    /// The candidates that this needle accepts. The answer depends on the
    /// needle and on the characters of the candidate, and on nothing else.
    spec fn matches(&self, haystack: Seq<char>) -> bool;

    /// Tests one candidate.
    fn is_match(&self, haystack: &str) -> (matched: bool)
        requires
            self.admits(haystack@),
        ensures
            matched == self.matches(haystack@),
    ;
}

/// `item` may convert to a string on which `needle` gives the answer
/// `verdict`.
pub open spec fn judged<'a, N: Needle + ?Sized, S: Into<&'a str>>(
    needle: &N,
    item: S,
    verdict: bool,
) -> bool {
    exists|text: &'a str|
        call_ensures(<S as Into<&'a str>>::into, (item,), text) && needle.matches(text@)
            == verdict
}

/// `needle` can be asked about every string that `item` may convert to.
pub open spec fn askable<'a, N: Needle + ?Sized, S: Into<&'a str>>(needle: &N, item: S) -> bool {
    forall|text: &'a str|
        call_ensures(<S as Into<&'a str>>::into, (item,), text) ==> needle.admits(text@)
}

/// The candidate at index `k` of `items` is accepted and every one before it
/// is rejected.
pub open spec fn first_accepted<'a, N: Needle + ?Sized, S: Into<&'a str>>(
    needle: &N,
    items: Seq<S>,
    k: int,
) -> bool {
    &&& 0 <= k < items.len()
    &&& judged(needle, items[k], true)
    &&& forall|j: int| 0 <= j < k ==> judged(needle, #[trigger] items[j], false)
}

/// Every candidate of `items` is rejected.
pub open spec fn all_rejected<'a, N: Needle + ?Sized, S: Into<&'a str>>(
    needle: &N,
    items: Seq<S>,
) -> bool {
    forall|j: int| 0 <= j < items.len() ==> judged(needle, #[trigger] items[j], false)
}

/// The search for a match among many candidates, for every needle.
pub trait NeedleIter: Needle {
    /// Whether one of the candidates that `haystacks` still yields is
    /// accepted.
    ///
    /// The candidates are taken one by one, and none is taken after the first
    /// one accepted: on `true` the iterator stands just behind that
    /// candidate, and every candidate before it was rejected. On `false` the
    /// iterator is used up and every candidate was rejected; an iterator with
    /// nothing left gives `false`.
    fn is_match_in<'a, I, S>(&self, haystacks: &mut I) -> (found: bool) where
        I: Iterator<Item = S>,
        S: Into<&'a str>,

        requires
            <I as IteratorSpec>::obeys_prophetic_iter_laws(old(haystacks)),
            <I as IteratorSpec>::decrease(old(haystacks)) is Some,
            forall|i: int|
                0 <= i < <I as IteratorSpec>::remaining(old(haystacks)).len() ==> askable(
                    self,
                    #[trigger] <I as IteratorSpec>::remaining(old(haystacks))[i],
                ),
        ensures
            found ==> exists|k: int|
                #![trigger first_accepted(self, <I as IteratorSpec>::remaining(old(haystacks)), k)]
                {
                    &&& first_accepted(self, <I as IteratorSpec>::remaining(old(haystacks)), k)
                    &&& <I as IteratorSpec>::remaining(final(haystacks))
                        == <I as IteratorSpec>::remaining(old(haystacks)).skip(k + 1)
                },
            !found ==> {
                &&& all_rejected(self, <I as IteratorSpec>::remaining(old(haystacks)))
                &&& <I as IteratorSpec>::remaining(final(haystacks)).len() == 0
            },
    {
        let ghost all = <I as IteratorSpec>::remaining(haystacks);
        let ghost mut seen: int = 0;
        let mut found = false;
        loop
            invariant_except_break
                !found,
                <I as IteratorSpec>::remaining(haystacks) == all.skip(seen),
            invariant
                <I as IteratorSpec>::obeys_prophetic_iter_laws(haystacks),
                <I as IteratorSpec>::decrease(haystacks) is Some,
                0 <= seen <= all.len(),
                forall|i: int| 0 <= i < all.len() ==> askable(self, #[trigger] all[i]),
                forall|j: int| 0 <= j < seen ==> judged(self, #[trigger] all[j], false),
            ensures
                found ==> seen < all.len() && judged(self, all[seen], true)
                    && <I as IteratorSpec>::remaining(haystacks) == all.skip(seen + 1),
                !found ==> seen == all.len() && <I as IteratorSpec>::remaining(haystacks).len()
                    == 0,
            decreases <I as IteratorSpec>::decrease(haystacks)->0,
        {
            match haystacks.next() {
                None => {
                    break ;
                },
                Some(item) => {
                    assert(item == all[seen]);
                    assert(<I as IteratorSpec>::remaining(haystacks) =~= all.skip(seen + 1));
                    let text: &str = item.into();
                    if self.is_match(text) {
                        found = true;
                        break ;
                    }
                    proof {
                        seen = seen + 1;
                    }
                },
            }
        }
        proof {
            if found {
                assert(first_accepted(self, all, seen));
            }
        }
        found
    }
}

/// Where each candidate converts to one string only, the outcome of the
/// search reads plainly: a first accepted candidate is one whose string the
/// needle accepts while it accepts none of the strings before it, candidates
/// that are all rejected have strings of which the needle accepts none, and
/// among no candidates there is no first accepted one.
pub proof fn law_search_outcome<'a, N: Needle + ?Sized, S: Into<&'a str>>(
    needle: &N,
    items: Seq<S>,
    texts: Seq<Seq<char>>,
)
    requires
        texts.len() == items.len(),
        forall|i: int, text: &'a str|
            0 <= i < items.len() && #[trigger] call_ensures(
                <S as Into<&'a str>>::into,
                (items[i],),
                text,
            ) ==> text@ == texts[i],
    ensures
        forall|k: int|
            #[trigger] first_accepted(needle, items, k) ==> needle.matches(texts[k]) && forall|
                j: int,
            |
                0 <= j < k ==> !needle.matches(#[trigger] texts[j]),
        all_rejected(needle, items) ==> forall|i: int|
            0 <= i < texts.len() ==> !needle.matches(#[trigger] texts[i]),
        items.len() == 0 ==> forall|k: int| !first_accepted(needle, items, k),
{
    assert forall|k: int| #[trigger] first_accepted(needle, items, k) implies needle.matches(
        texts[k],
    ) && forall|j: int| 0 <= j < k ==> !needle.matches(#[trigger] texts[j]) by {
        assert forall|j: int| 0 <= j < k implies !needle.matches(#[trigger] texts[j]) by {
            assert(judged(needle, items[j], false));
        }
    }
    if all_rejected(needle, items) {
        assert forall|i: int| 0 <= i < texts.len() implies !needle.matches(
            #[trigger] texts[i],
        ) by {
            assert(judged(needle, items[i], false));
        }
    }
}

} // verus!
