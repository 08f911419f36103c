//! One test, "does this candidate string match?", over several kinds of
//! matcher: plain strings, configurable string matchers, regular expressions
//! and predicates.

pub mod adapters;
pub mod matchable;
pub mod needle;
pub mod string_match;
pub mod strings;
pub mod text;

pub use matchable::StringMatchable;
pub use needle::{Needle, NeedleIter};
pub use string_match::{needle_in_haystack, StringMatch, StringMatchLength};
