//! Vocabulary for talking about strings as sequences of characters:
//! where one sequence occurs in another, and where it occurs as a word.

use vstd::prelude::*;

verus! {

/// `needle` occurs in `haystack` as a contiguous run that starts at index `at`.
pub open spec fn occurs_at(needle: Seq<char>, haystack: Seq<char>, at: int) -> bool {
    &&& 0 <= at
    &&& at + needle.len() <= haystack.len()
    &&& haystack.subrange(at, at + needle.len()) == needle
}

/// `needle` occurs somewhere in `haystack`.
pub open spec fn contains(haystack: Seq<char>, needle: Seq<char>) -> bool {
    exists|at: int| occurs_at(needle, haystack, at)
}

/// `needle` occurs in `haystack` at index `at`, and on each side it is bounded
/// by the end of `haystack` or by a space.
pub open spec fn word_at(needle: Seq<char>, haystack: Seq<char>, at: int) -> bool {
    &&& occurs_at(needle, haystack, at)
    &&& (at == 0 || haystack[at - 1] == ' ')
    &&& (at + needle.len() == haystack.len() || haystack[at + needle.len()] == ' ')
}

/// `needle` occurs somewhere in `haystack` as a word.
pub open spec fn contains_word(haystack: Seq<char>, needle: Seq<char>) -> bool {
    exists|at: int| word_at(needle, haystack, at)
}

/// `text` with one space in front of it and one behind it.
pub open spec fn padded(text: Seq<char>) -> Seq<char> {
    seq![' '] + text + seq![' ']
}

/// The character of `padded(text)` at index `i`.
proof fn lemma_padded_index(text: Seq<char>, i: int)
    requires
        0 <= i < text.len() + 2,
    ensures
        padded(text).len() == text.len() + 2,
        padded(text)[i] == if i == 0 || i == text.len() + 1 {
            ' '
        } else {
            text[i - 1]
        },
{
}

/// A padded needle occurs in a padded haystack at `at` exactly where the
/// needle occurs in the haystack as a word.
pub proof fn lemma_padded_occurs_at(haystack: Seq<char>, needle: Seq<char>, at: int)
    ensures
        occurs_at(padded(needle), padded(haystack), at) <==> word_at(needle, haystack, at),
{
    let wide = padded(haystack);
    let pat = padded(needle);
    let n = needle.len() as int;
    let h = haystack.len() as int;
    lemma_padded_index(haystack, 0);
    lemma_padded_index(needle, 0);
    if 0 <= at && at + n <= h {
        let window = wide.subrange(at, at + n + 2);
        lemma_padded_index(haystack, at);
        lemma_padded_index(haystack, at + n + 1);
        lemma_padded_index(needle, n + 1);
        assert(window[0] == wide[at]);
        assert(window[n + 1] == wide[at + n + 1]);
        if occurs_at(pat, wide, at) {
            assert(window == pat);
            assert(haystack.subrange(at, at + n) =~= needle) by {
                assert forall|k: int| 0 <= k < n implies haystack[at + k] == needle[k] by {
                    lemma_padded_index(haystack, at + k + 1);
                    lemma_padded_index(needle, k + 1);
                    assert(window[k + 1] == wide[at + k + 1]);
                }
            }
        }
        if word_at(needle, haystack, at) {
            assert(window =~= pat) by {
                assert forall|k: int| 0 <= k < n + 2 implies window[k] == pat[k] by {
                    lemma_padded_index(haystack, at + k);
                    lemma_padded_index(needle, k);
                    if 1 <= k <= n {
                        assert(haystack.subrange(at, at + n)[k - 1] == haystack[at + k - 1]);
                    }
                }
            }
        }
    }
}

/// Padding both sides with a space turns the search for a word into the
/// search for a run of characters.
pub proof fn lemma_padded_contains(haystack: Seq<char>, needle: Seq<char>)
    ensures
        contains(padded(haystack), padded(needle)) <==> contains_word(haystack, needle),
{
    if contains(padded(haystack), padded(needle)) {
        let at = choose|at: int| occurs_at(padded(needle), padded(haystack), at);
        lemma_padded_occurs_at(haystack, needle, at);
    }
    if contains_word(haystack, needle) {
        let at = choose|at: int| word_at(needle, haystack, at);
        lemma_padded_occurs_at(haystack, needle, at);
    }
}

} // verus!
