//! Compiled expressions whose behaviour is known from their pattern text.

use crate::matching::{
    pattern_text, regex_captures, regex_compiles, regex_expansions, regex_source, replace_all,
    spliced,
};
use regex::Regex;
use vstd::prelude::*;

verus! {

/// A regular expression compiled from its pattern text with the default
/// options. Its view is that text, which decides what the expression
/// matches.
pub struct Matcher {
    compiled: Regex,
}

impl View for Matcher {
    type V = Seq<char>;

    closed spec fn view(&self) -> Seq<char> {
        regex_source(self.compiled).unwrap()
    }
}

impl Matcher {
    #[verifier::type_invariant]
    spec fn compiled_from_text(&self) -> bool {
        regex_source(self.compiled) is Some
    }

    /// Compiles `pattern`. There is no matcher for a text that is not a
    /// valid expression.
    pub fn compile(pattern: &str) -> (matcher: Option<Matcher>)
        ensures
            matcher.is_some() == regex_compiles(pattern@),
            matcher matches Some(m) ==> m@ == pattern@,
    {
        match Regex::new(pattern) {
            Ok(compiled) => Some(Matcher { compiled }),
            Err(_) => None,
        }
    }

    /// The pattern text.
    pub fn as_str(&self) -> (text: &str)
        ensures
            text@ == self@,
    {
        proof {
            use_type_invariant(self);
        }
        pattern_text(&self.compiled)
    }

    /// The compiled expression, which came from the pattern text.
    pub fn expression(&self) -> (compiled: &Regex)
        ensures
            regex_source(*compiled) == Some(self@),
    {
        proof {
            use_type_invariant(self);
        }
        &self.compiled
    }

    /// Replaces every match in `haystack` by the expansion of `template` and
    /// keeps the text between the matches. A haystack without a match comes
    /// back unchanged.
    pub fn replace_all(&self, haystack: &str, template: &str) -> (out: String)
        ensures
            out@ == replaced(self@, haystack@, template@),
            regex_captures(self@, haystack@).len() == 0 ==> out@ == haystack@,
    {
        proof {
            use_type_invariant(self);
            lemma_no_match_unchanged(self@, haystack@, template@);
        }
        replace_all(&self.compiled, haystack, template)
    }
}

/// `haystack` with every match of `pattern` replaced by the expansion of
/// `template` for that match.
pub open spec fn replaced(pattern: Seq<char>, haystack: Seq<char>, template: Seq<char>) -> Seq<
    char,
> {
    spliced(
        haystack,
        regex_captures(pattern, haystack),
        regex_expansions(pattern, haystack, template),
        0,
        0,
    )
}

/// A haystack in which `pattern` finds no match is its own replacement.
pub proof fn lemma_no_match_unchanged(pattern: Seq<char>, haystack: Seq<char>, template: Seq<char>)
    ensures
        regex_captures(pattern, haystack).len() == 0 ==> replaced(pattern, haystack, template)
            == haystack,
{
    assert(haystack.subrange(0, haystack.len() as int) == haystack);
}

} // verus!
