//! Literal blocks: `[code]` and `[preformatted]` regions whose contents are
//! shown as written and never read as markup.

use crate::matcher::Matcher;
use crate::matching::{captured, regex_captures, regex_compiles, replace_blocks, spliced};
use crate::text::{
    lemma_concat_lacks, lemma_substituted_lacks, lemma_substituted_removes, replace, substituted,
};
use vstd::prelude::*;
use vstd::string::StringExecFns;

verus! {

/// The expression that finds a literal block. It has one alternative for
/// each kind of block: an opening `[code]` tag, the shortest text after it
/// (line breaks included) that `[/code]` follows, and that closing tag; or
/// the same with `[preformatted]` and `[/preformatted]`. So a block ends at
/// the first closing tag of its own kind. The inner text is the first capture
/// group for a `code` block and the second for a `preformatted` one.
pub open spec fn block_pattern() -> Seq<char> {
    r"(?s)(?:\[code\](.*?)\[/code\]|\[preformatted\](.*?)\[/preformatted\])"@
}

/// The inner text of a literal block made harmless: first every `[` becomes
/// `&#91;`, then every `]` becomes `&#93;`, then every `<br />` becomes a
/// line feed.
pub open spec fn escaped(inner: Seq<char>) -> Seq<char> {
    substituted(
        substituted(substituted(inner, "["@, "&#91;"@), "]"@, "&#93;"@),
        "<br />"@,
        "\n"@,
    )
}

/// The HTML that stands for a literal block with the given inner text. A
/// block without inner text is rendered as an empty one.
pub open spec fn rendered_block(inner: Option<Seq<char>>) -> Seq<char> {
    "<pre><code>"@ + escaped(
        match inner {
            Some(text) => text,
            None => Seq::empty(),
        },
    ) + "</code></pre>"@
}

/// The characters of an optional string slice.
pub open spec fn text_of(inner: Option<&str>) -> Option<Seq<char>> {
    match inner {
        Some(text) => Some(text@),
        None => None,
    }
}

/// The inner text of a block, given what each alternative of the block
/// expression captured: that of the alternative that matched.
pub open spec fn inner_text(code: Option<Seq<char>>, preformatted: Option<Seq<char>>) -> Option<
    Seq<char>,
> {
    if code is Some {
        code
    } else {
        preformatted
    }
}

/// Renders one literal block from the text found between its tags: `code` is
/// what the `code` alternative captured, `preformatted` what the other one
/// did. The rendering holds no bracket, so no tag expression can match inside
/// it.
pub fn code_replacer(code: Option<&str>, preformatted: Option<&str>) -> (out: String)
    ensures
        out@ == rendered_block(inner_text(text_of(code), text_of(preformatted))),
        !out@.contains('['),
        !out@.contains(']'),
{
    let inner: Option<&str> = match code {
        Some(text) => Some(text),
        None => preformatted,
    };
    let raw: &str = match inner {
        Some(text) => text,
        None => "",
    };
    proof {
        reveal_strlit("");
        assert(""@ == Seq::<char>::empty());
        lemma_rendered_block_has_no_brackets(inner_text(text_of(code), text_of(preformatted)));
    }
    let mut replaced = replace(raw, "[", "&#91;");
    replaced = replace(replaced.as_str(), "]", "&#93;");
    replaced = replace(replaced.as_str(), "<br />", "\n");
    let mut out = String::from_str("<pre><code>");
    out.append(replaced.as_str());
    out.append("</code></pre>");
    out
}

/// A rendered literal block holds neither `[` nor `]`, whatever its inner
/// text: every bracket of the inner text has become an entity, and neither
/// the entities nor the surrounding tags hold one.
pub proof fn lemma_rendered_block_has_no_brackets(inner: Option<Seq<char>>)
    ensures
        !rendered_block(inner).contains('['),
        !rendered_block(inner).contains(']'),
{
    reveal_strlit("[");
    reveal_strlit("]");
    reveal_strlit("&#91;");
    reveal_strlit("&#93;");
    reveal_strlit("<br />");
    reveal_strlit("\n");
    reveal_strlit("<pre><code>");
    reveal_strlit("</code></pre>");
    let text = match inner {
        Some(text) => text,
        None => Seq::empty(),
    };
    assert("["@ == seq!['[']);
    assert("]"@ == seq![']']);
    let first = substituted(text, "["@, "&#91;"@);
    let second = substituted(first, "]"@, "&#93;"@);
    let third = substituted(second, "<br />"@, "\n"@);
    lemma_substituted_removes(text, "&#91;"@, '[');
    lemma_substituted_removes(first, "&#93;"@, ']');
    lemma_substituted_lacks(first, "]"@, "&#93;"@, '[');
    lemma_substituted_lacks(second, "<br />"@, "\n"@, '[');
    lemma_substituted_lacks(second, "<br />"@, "\n"@, ']');
    lemma_concat_lacks("<pre><code>"@, third, '[');
    lemma_concat_lacks("<pre><code>"@, third, ']');
    lemma_concat_lacks("<pre><code>"@ + third, "</code></pre>"@, '[');
    lemma_concat_lacks("<pre><code>"@ + third, "</code></pre>"@, ']');
}

/// What stands in the place of each literal block of `found`, the matches in
/// `haystack`: the rendering of the inner text that the match captured, in
/// its first group or else in its second.
pub open spec fn renderings(haystack: Seq<char>, found: Seq<Seq<Option<(int, int)>>>) -> Seq<
    Seq<char>,
> {
    Seq::new(
        found.len(),
        |i: int|
            rendered_block(
                inner_text(captured(haystack, found[i], 1), captured(haystack, found[i], 2)),
            ),
    )
}

/// `text` with every literal block that `pattern` finds in it rendered as
/// HTML, and the text between the blocks kept as it is.
pub open spec fn protected_by(pattern: Seq<char>, text: Seq<char>) -> Seq<char> {
    spliced(
        text,
        regex_captures(pattern, text),
        renderings(text, regex_captures(pattern, text)),
        0,
        0,
    )
}

/// Renders every literal block that `blocks` finds in `input` and keeps the
/// rest. A text without a block comes back unchanged.
pub fn protect(blocks: &Matcher, input: &str) -> (out: String)
    ensures
        out@ == protected_by(blocks@, input@),
        regex_captures(blocks@, input@).len() == 0 ==> out@ == input@,
{
    proof {
        lemma_no_block_unchanged(blocks@, input@);
    }
    replace_blocks(blocks.expression(), input)
}

/// A text in which `pattern` finds no literal block passes the literal-block
/// pass unchanged.
pub proof fn lemma_no_block_unchanged(pattern: Seq<char>, text: Seq<char>)
    ensures
        regex_captures(pattern, text).len() == 0 ==> protected_by(pattern, text) == text,
{
    assert(text.subrange(0, text.len() as int) == text);
}

/// The text after the literal-block pass: `input` itself where the block
/// expression cannot be compiled.
pub open spec fn protected(input: Seq<char>) -> Seq<char> {
    if regex_compiles(block_pattern()) {
        protected_by(block_pattern(), input)
    } else {
        input
    }
}

/// Compiles the expression that finds literal blocks.
pub fn block_matcher() -> (matcher: Option<Matcher>)
    ensures
        matcher.is_some() == regex_compiles(block_pattern()),
        matcher matches Some(m) ==> m@ == block_pattern(),
{
    Matcher::compile(r"(?s)(?:\[code\](.*?)\[/code\]|\[preformatted\](.*?)\[/preformatted\])")
}

/// Renders every literal block of `input` and keeps the rest. A text without
/// a block comes back unchanged.
pub fn code(input: &str) -> (out: String)
    ensures
        out@ == protected(input@),
        regex_captures(block_pattern(), input@).len() == 0 ==> out@ == input@,
{
    match block_matcher() {
        Some(blocks) => protect(&blocks, input),
        None => input.to_owned(),
    }
}

} // verus!
