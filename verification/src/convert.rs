//! The substitution engine: the literal-block pass followed by one
//! whole-text replacement per entry of the pattern table, in table order.

use crate::literal::{
    block_pattern, code, inner_text, lemma_no_block_unchanged,
    lemma_rendered_block_has_no_brackets, protect, protected, protected_by, rendered_block,
    renderings,
};
use crate::matcher::{lemma_no_match_unchanged, replaced, Matcher};
use crate::matching::{
    captured, match_end, match_start, regex_captures, regex_compiles, spliced,
};
use crate::table::{pattern_table, patterns, table_compiles, table_view};
use crate::text::contains_char;
use vstd::prelude::*;

verus! {

/// The text after the first `n` passes of `table` over `doc`: each pass
/// replaces every match of its expression in the output of the pass before.
pub open spec fn cascaded(doc: Seq<char>, table: Seq<(Seq<char>, Seq<char>)>, n: nat) -> Seq<char>
    decreases n,
{
    if n == 0 {
        doc
    } else {
        replaced(table[n - 1].0, cascaded(doc, table, (n - 1) as nat), table[n - 1].1)
    }
}

/// The HTML for `input`. Every tag opens with a bracket, so a text without
/// an opening bracket holds nothing to convert and is its own conversion.
/// Any other text goes through the literal-block pass. What that pass leaves
/// goes through every pass of the pattern table, in table order, unless it
/// holds no opening bracket any more or the table cannot be compiled: then it
/// is the result.
pub open spec fn converted(input: Seq<char>) -> Seq<char> {
    if !input.contains('[') {
        input
    } else if protected(input).contains('[') && table_compiles() {
        cascaded(protected(input), pattern_table(), pattern_table().len())
    } else {
        protected(input)
    }
}

/// Whether no expression of `table` finds a match in `doc`.
pub open spec fn none_matches(doc: Seq<char>, table: Seq<(Seq<char>, Seq<char>)>) -> bool {
    forall|i: int| 0 <= i < table.len() ==> regex_captures(#[trigger] table[i].0, doc).len() == 0
}

/// Whether `input` holds nothing to convert: no literal block and no match
/// of any expression of the pattern table.
pub open spec fn plain(input: Seq<char>) -> bool {
    &&& regex_captures(block_pattern(), input).len() == 0
    &&& none_matches(input, pattern_table())
}

/// Runs every pass of `table` over `doc`, in table order.
pub fn apply_patterns(table: &Vec<(Matcher, &'static str)>, doc: String) -> (out: String)
    ensures
        out@ == cascaded(doc@, table_view(table@), table@.len()),
        none_matches(doc@, table_view(table@)) ==> out@ == doc@,
{
    let ghost start = doc@;
    let ghost view = table_view(table@);
    let mut output = doc;
    let mut i: usize = 0;
    while i < table.len()
        invariant
            i <= table@.len(),
            view == table_view(table@),
            output@ == cascaded(start, view, i as nat),
        decreases table@.len() - i,
    {
        proof {
            assert(view[i as int] == (table@[i as int].0@, table@[i as int].1@));
        }
        output = table[i].0.replace_all(output.as_str(), table[i].1);
        i += 1;
    }
    proof {
        if none_matches(start, view) {
            lemma_cascade_without_match(start, view, view.len());
        }
    }
    output
}

/// A text in which no expression of `table` finds a match passes any number
/// of passes of the table unchanged.
pub proof fn lemma_cascade_without_match(
    doc: Seq<char>,
    table: Seq<(Seq<char>, Seq<char>)>,
    n: nat,
)
    requires
        n <= table.len(),
        none_matches(doc, table),
    ensures
        cascaded(doc, table, n) == doc,
    decreases n,
{
    if n > 0 {
        lemma_cascade_without_match(doc, table, (n - 1) as nat);
        assert(regex_captures(table[n - 1].0, doc).len() == 0);
        lemma_no_match_unchanged(table[n - 1].0, doc, table[n - 1].1);
    }
}

/// Pass-through: a text that holds no literal block and no match of any
/// expression of the pattern table is its own conversion.
pub proof fn lemma_plain_text_passes_through(input: Seq<char>)
    requires
        plain(input),
    ensures
        converted(input) == input,
{
    lemma_no_block_unchanged(block_pattern(), input);
    lemma_cascade_without_match(input, pattern_table(), pattern_table().len());
}

/// Converts `input` with an engine built beforehand: `blocks` finds the
/// literal blocks, and `table` is applied after them, entry by entry. The
/// engine is only read, so it may be shared.
pub fn convert_with(blocks: &Matcher, table: &Vec<(Matcher, &'static str)>, input: &str) -> (out:
    String)
    ensures
        out@ == cascaded(
            protected_by(blocks@, input@),
            table_view(table@),
            table@.len(),
        ),
        regex_captures(blocks@, input@).len() == 0 && none_matches(
            input@,
            table_view(table@),
        ) ==> out@ == input@,
{
    apply_patterns(table, protect(blocks, input))
}

/// Pass-through: a text without an opening bracket is its own conversion.
pub proof fn lemma_text_without_bracket_passes_through(input: Seq<char>)
    requires
        !input.contains('['),
    ensures
        converted(input) == input,
{
}

/// Where the literal-block pass leaves no opening bracket, no pass of the
/// pattern table touches what it leaves.
pub proof fn lemma_protected_text_is_left_alone(input: Seq<char>)
    requires
        input.contains('['),
        !protected(input).contains('['),
    ensures
        converted(input) == protected(input),
{
}

/// A text that is one literal block from end to end is converted to the
/// rendering of that block, and no pass of the pattern table reads the
/// block's inner text as markup.
pub proof fn lemma_lone_block_is_rendered(input: Seq<char>)
    requires
        regex_compiles(block_pattern()),
        input.contains('['),
        regex_captures(block_pattern(), input).len() == 1,
        match_start(regex_captures(block_pattern(), input)[0]) == 0,
        match_end(regex_captures(block_pattern(), input)[0]) == input.len(),
    ensures
        converted(input) == rendered_block(
            inner_text(
                captured(input, regex_captures(block_pattern(), input)[0], 1),
                captured(input, regex_captures(block_pattern(), input)[0], 2),
            ),
        ),
{
    let found = regex_captures(block_pattern(), input);
    let block = found[0];
    let rendering = rendered_block(inner_text(captured(input, block, 1), captured(input, block, 2)));
    let texts = renderings(input, found);
    assert(texts[0] == rendering);
    assert(spliced(input, found, texts, 1, input.len() as int) == Seq::<char>::empty());
    assert(spliced(input, found, texts, 0, 0) == input.subrange(0, 0) + rendering + spliced(
        input,
        found,
        texts,
        1,
        input.len() as int,
    ));
    assert(input.subrange(0, 0) + rendering + Seq::<char>::empty() == rendering);
    lemma_rendered_block_has_no_brackets(
        inner_text(captured(input, block, 1), captured(input, block, 2)),
    );
}

/// Converts BBCode to HTML. Text without an opening bracket, and text in
/// which no expression finds a match, comes back unchanged.
///
/// Every call that finds an opening bracket compiles the expressions anew.
/// To convert many texts, build the engine once with `block_matcher` and
/// `patterns` and hand it to `convert_with`.
pub fn str_to_html(input: &str) -> (out: String)
    ensures
        out@ == converted(input@),
        !input@.contains('[') ==> out@ == input@,
        plain(input@) ==> out@ == input@,
{
    proof {
        if plain(input@) {
            lemma_plain_text_passes_through(input@);
        }
    }
    if !contains_char(input, '[') {
        return input.to_owned();
    }
    let output = code(input);
    if !contains_char(output.as_str(), '[') {
        return output;
    }
    match patterns() {
        Some(table) => apply_patterns(&table, output),
        None => output,
    }
}

/// Text that can be converted from BBCode to HTML.
pub trait BBCode {
    /// The HTML for this text.
    fn as_html(&self) -> String;
}

impl<'a> BBCode for &'a str {
    fn as_html(&self) -> (out: String)
        ensures
            out@ == converted((*self)@),
            !(*self)@.contains('[') ==> out@ == (*self)@,
            plain((*self)@) ==> out@ == (*self)@,
    {
        str_to_html(*self)
    }
}

} // verus!
