//! The boundary to the `regex` crate.
//!
//! Nothing in this module is proved. It declares the crate's types, names
//! what the crate computes, and states what its functions return in terms of
//! those names. The rest of the library is verified against these statements.
//!
//! Positions in a text are counted in characters throughout, as the views of
//! strings are sequences of characters.

use crate::literal::{code_replacer, renderings};
use regex::{Captures, Regex};
use vstd::prelude::*;

verus! {

/// A compiled regular expression, `regex::Regex`. Its inside is not visible
/// to the verifier.
#[verifier::external_type_specification]
#[verifier::external_body]
pub struct ExRegex(regex::Regex);

/// The error of a failed compilation, `regex::Error`.
#[verifier::external_type_specification]
#[verifier::external_body]
pub struct ExRegexError(regex::Error);

/// Whether `Regex::new` accepts `pattern`.
pub uninterp spec fn regex_compiles(pattern: Seq<char>) -> bool;

/// The pattern text of a compiled expression, as `Regex::as_str` returns it,
/// where `Regex::new` compiled the expression: such an expression behaves as
/// its text says and as nothing else. It is `None` for an expression built
/// in another way, of which this library states nothing.
pub uninterp spec fn regex_source(compiled: Regex) -> Option<Seq<char>>;

/// The successive non-overlapping matches of `pattern` in `haystack`, in the
/// order in which `Regex::captures_iter` yields them. Each match lists its
/// capture groups by number, group 0 being the whole match. A group that took
/// part in the match is `Some((start, end))`: its text lies between these two
/// positions of `haystack`, counted in characters.
pub uninterp spec fn regex_captures(pattern: Seq<char>, haystack: Seq<char>) -> Seq<
    Seq<Option<(int, int)>>,
>;

/// For each match of `pattern` in `haystack`, in the order of
/// `regex_captures`, the text that `Captures::expand` gives for `template`:
/// the template with its references to capture groups filled in from that
/// match.
pub uninterp spec fn regex_expansions(
    pattern: Seq<char>,
    haystack: Seq<char>,
    template: Seq<char>,
) -> Seq<Seq<char>>;

/// `Regex::new`: whether compilation succeeds depends on the pattern text
/// alone, and the compiled expression keeps that text.
pub assume_specification[ regex::Regex::new ](re: &str) -> (compiled: Result<
    Regex,
    regex::Error,
>)
    ensures
        compiled.is_ok() == regex_compiles(re@),
        compiled matches Ok(expression) ==> regex_source(expression) == Some(re@),
;

/// `Regex::as_str`: the text that the expression was compiled from.
#[verifier::external_body]
pub(crate) fn pattern_text(compiled: &Regex) -> (text: &str)
    ensures
        regex_source(*compiled) matches Some(pattern) ==> text@ == pattern,
{
    compiled.as_str()
}

/// `Regex::replace_all` with a template as replacer: the text between the
/// matches is kept, and each match gives way to the expansion of the
/// template for it. With no match the haystack comes back unchanged.
#[verifier::external_body]
pub(crate) fn replace_all(compiled: &Regex, haystack: &str, template: &str) -> (out: String)
    ensures
        regex_source(*compiled) matches Some(pattern) ==> out@ == spliced(
            haystack@,
            regex_captures(pattern, haystack@),
            regex_expansions(pattern, haystack@, template@),
            0,
            0,
        ),
{
    compiled.replace_all(haystack, template).into_owned()
}

/// Where the whole match `found` begins in its haystack.
pub open spec fn match_start(found: Seq<Option<(int, int)>>) -> int {
    found[0].unwrap().0
}

/// Where the whole match `found` ends in its haystack.
pub open spec fn match_end(found: Seq<Option<(int, int)>>) -> int {
    found[0].unwrap().1
}

/// The text of capture group `group` of the match `found`, as
/// `Captures::get` gives it: `None` where the group does not exist or took no
/// part in the match.
pub open spec fn captured(haystack: Seq<char>, found: Seq<Option<(int, int)>>, group: int) -> Option<
    Seq<char>,
> {
    if 0 <= group < found.len() && found[group] is Some {
        Some(haystack.subrange(found[group].unwrap().0, found[group].unwrap().1))
    } else {
        None
    }
}

/// The haystack from position `from` on, where the matches `found[next]`,
/// `found[next + 1]` and so on are still to come: each of them is replaced by
/// its entry of `texts`, and the text between and behind them is kept.
pub open spec fn spliced(
    haystack: Seq<char>,
    found: Seq<Seq<Option<(int, int)>>>,
    texts: Seq<Seq<char>>,
    next: int,
    from: int,
) -> Seq<char>
    decreases found.len() - next,
{
    if 0 <= next < found.len() {
        haystack.subrange(from, match_start(found[next])) + texts[next] + spliced(
            haystack,
            found,
            texts,
            next + 1,
            match_end(found[next]),
        )
    } else {
        haystack.subrange(from, haystack.len() as int)
    }
}

/// `Regex::replace_all` with a closure as replacer: the text between the
/// matches is kept, and each match gives way to what `code_replacer` returns
/// for the match's first and second capture groups.
#[verifier::external_body]
pub(crate) fn replace_blocks(compiled: &Regex, haystack: &str) -> (out: String)
    ensures
        regex_source(*compiled) matches Some(pattern) ==> out@ == spliced(
            haystack@,
            regex_captures(pattern, haystack@),
            renderings(haystack@, regex_captures(pattern, haystack@)),
            0,
            0,
        ),
{
    compiled.replace_all(
        haystack,
        |found: &Captures|
            code_replacer(
                found.get(1).map(|inner| inner.as_str()),
                found.get(2).map(|inner| inner.as_str()),
            ),
    ).into_owned()
}

} // verus!
