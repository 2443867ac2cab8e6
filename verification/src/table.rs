//! The pattern table: the fixed, ordered list of tag expressions and the
//! HTML templates that replace their matches.

use crate::matcher::Matcher;
use crate::matching::regex_compiles;
use vstd::prelude::*;

verus! {

/// The number of entries of the pattern table.
pub const PATTERNS_AMOUNT: usize = 28;

/// The pattern table as text: each entry pairs the expression that finds a
/// tag with the template that replaces it. Every expression spans lines and
/// takes the shortest text up to the first closing tag; an attribute ends at
/// the first `]`, but for images, whose attribute text is taken as it comes.
/// The order is part of the meaning: an earlier entry rewrites the text
/// before a later one sees it. So the sized image stands before the named
/// image, and that before the plain one; and a table is rewritten before its
/// rows, and a row before its cells.
pub open spec fn pattern_table() -> Seq<(Seq<char>, Seq<char>)> {
    seq![
        (r"(?s)\[b\](.*?)\[/b\]"@, "<strong>$1</strong>"@),
        (r"(?s)\[i\](.*?)\[/i\]"@, "<em>$1</em>"@),
        (r"(?s)\[u\](.*?)\[/u\]"@, "<u>$1</u>"@),
        (r"(?s)\[s\](.*?)\[/s\]"@, "<strike>$1</strike>"@),
        (r"(?s)\[size=(\d+)](.*?)\[/size\]"@, "<span style=\"font-size: ${1}px;\">$2</span>"@),
        (r"(?s)\[color=(.+?)](.*?)\[/color\]"@, "<span style=\"color: $1;\">$2</span>"@),
        (r"(?s)\[center\](.*?)\[/center\]"@, "<div style=\"text-align: center;\">$1</div>"@),
        (r"(?s)\[left\](.*?)\[/left\]"@, "<div style=\"text-align: left;\">$1</div>"@),
        (r"(?s)\[right\](.*?)\[/right\]"@, "<div style=\"text-align: right;\">$1</div>"@),
        (r"(?s)\[table\](.*?)\[/table\]"@, "<table>$1</table>"@),
        (r"(?s)\[tr\](.*?)\[/tr\]"@, "<tr>$1</tr>"@),
        (r"(?s)\[th\](.*?)\[/th\]"@, "<th>$1</th>"@),
        (r"(?s)\[td\](.*?)\[/td\]"@, "<td>$1</td>"@),
        (
            r"(?s)\[url\](.*?)\[/url\]"@,
            "<a href=\"$1\" rel=\"nofollow\" target=\"_new\">$1</a>"@,
        ),
        (
            r"(?s)\[url=(.+?)\](.*?)\[/url\]"@,
            "<a href=\"$2\" rel=\"nofollow\" target=\"_new\">$1</a>"@,
        ),
        (r"(?s)\[quote\](.*?)\[/quote\]"@, "<blockquote>$1</blockquote>"@),
        (
            r"(?s)\[quote=(.+?)\](.*?)\[/quote\]"@,
            "<blockquote><strong>$1 wrote:</strong>\n$2</blockquote>"@,
        ),
        (
            r"(?s)\[img=(\d+)x(\d+)(\b.*)?\](.*?)\[/img\]"@,
            "<img src=\"$4\" width=\"$1\" height=\"$2\"$3 />"@,
        ),
        (r"(?s)\[img=(.+)(\b.*)?\](.*?)\[/img\]"@, "<img src=\"$3\" alt=\"$1\"$2 />"@),
        (r"(?s)\[img(\b.*)?\](.*?)\[/img\]"@, "<img src=\"$2\"$1 />"@),
        (r"(?s)\[ol\](.*?)\[/ol\]"@, "<ol>$1</ol>"@),
        (r"(?s)\[ul\](.*?)\[/ul\]"@, "<ul>$1</ul>"@),
        (r"(?s)\[list\](.*?)\[/list\]"@, "<ul>$1</ul>"@),
        (
            r"(?s)\[youtube\](.*?)\[/youtube\]"@,
            "<object data=\"http://www.youtube.com/embed/$1\"></object>"@,
        ),
        (
            r"(?s)\[youtube=(\d+)x(\d+)\](.*?)\[/youtube\]"@,
            "<object width=\"$1\" height=\"$2\" data=\"http://www.youtube.com/embed/$3\"></object>"@,
        ),
        (r"(?s)\[li\](.*?)\[/li\]"@, "<li>$1</li>"@),
        (r"(?s)\[sub\](.*?)\[/sub\]"@, "<sub>$1</sub>"@),
        (r"(?s)\[sup\](.*?)\[/sup\]"@, "<sup>$1</sup>"@),
    ]
}

/// The texts of a list of string pairs.
pub open spec fn texts_of(pairs: Seq<(&'static str, &'static str)>) -> Seq<(Seq<char>, Seq<char>)> {
    Seq::new(pairs.len(), |i: int| (pairs[i].0@, pairs[i].1@))
}

/// The pattern table as text, in table order.
pub fn pattern_sources() -> (sources: Vec<(&'static str, &'static str)>)
    ensures
        sources@.len() == PATTERNS_AMOUNT,
        texts_of(sources@) == pattern_table(),
{
    let sources: Vec<(&'static str, &'static str)> = vec![
        (r"(?s)\[b\](.*?)\[/b\]", "<strong>$1</strong>"),
        (r"(?s)\[i\](.*?)\[/i\]", "<em>$1</em>"),
        (r"(?s)\[u\](.*?)\[/u\]", "<u>$1</u>"),
        (r"(?s)\[s\](.*?)\[/s\]", "<strike>$1</strike>"),
        (r"(?s)\[size=(\d+)](.*?)\[/size\]", "<span style=\"font-size: ${1}px;\">$2</span>"),
        (r"(?s)\[color=(.+?)](.*?)\[/color\]", "<span style=\"color: $1;\">$2</span>"),
        (r"(?s)\[center\](.*?)\[/center\]", "<div style=\"text-align: center;\">$1</div>"),
        (r"(?s)\[left\](.*?)\[/left\]", "<div style=\"text-align: left;\">$1</div>"),
        (r"(?s)\[right\](.*?)\[/right\]", "<div style=\"text-align: right;\">$1</div>"),
        (r"(?s)\[table\](.*?)\[/table\]", "<table>$1</table>"),
        (r"(?s)\[tr\](.*?)\[/tr\]", "<tr>$1</tr>"),
        (r"(?s)\[th\](.*?)\[/th\]", "<th>$1</th>"),
        (r"(?s)\[td\](.*?)\[/td\]", "<td>$1</td>"),
        (r"(?s)\[url\](.*?)\[/url\]", "<a href=\"$1\" rel=\"nofollow\" target=\"_new\">$1</a>"),
        (
            r"(?s)\[url=(.+?)\](.*?)\[/url\]",
            "<a href=\"$2\" rel=\"nofollow\" target=\"_new\">$1</a>",
        ),
        (r"(?s)\[quote\](.*?)\[/quote\]", "<blockquote>$1</blockquote>"),
        (
            r"(?s)\[quote=(.+?)\](.*?)\[/quote\]",
            "<blockquote><strong>$1 wrote:</strong>\n$2</blockquote>",
        ),
        (
            r"(?s)\[img=(\d+)x(\d+)(\b.*)?\](.*?)\[/img\]",
            "<img src=\"$4\" width=\"$1\" height=\"$2\"$3 />",
        ),
        (r"(?s)\[img=(.+)(\b.*)?\](.*?)\[/img\]", "<img src=\"$3\" alt=\"$1\"$2 />"),
        (r"(?s)\[img(\b.*)?\](.*?)\[/img\]", "<img src=\"$2\"$1 />"),
        (r"(?s)\[ol\](.*?)\[/ol\]", "<ol>$1</ol>"),
        (r"(?s)\[ul\](.*?)\[/ul\]", "<ul>$1</ul>"),
        (r"(?s)\[list\](.*?)\[/list\]", "<ul>$1</ul>"),
        (
            r"(?s)\[youtube\](.*?)\[/youtube\]",
            "<object data=\"http://www.youtube.com/embed/$1\"></object>",
        ),
        (
            r"(?s)\[youtube=(\d+)x(\d+)\](.*?)\[/youtube\]",
            "<object width=\"$1\" height=\"$2\" data=\"http://www.youtube.com/embed/$3\"></object>",
        ),
        (r"(?s)\[li\](.*?)\[/li\]", "<li>$1</li>"),
        (r"(?s)\[sub\](.*?)\[/sub\]", "<sub>$1</sub>"),
        (r"(?s)\[sup\](.*?)\[/sup\]", "<sup>$1</sup>"),
    ];
    sources
}

/// Whether every expression of the pattern table can be compiled.
pub open spec fn table_compiles() -> bool {
    forall|i: int|
        0 <= i < pattern_table().len() ==> regex_compiles(#[trigger] pattern_table()[i].0)
}

/// A compiled table as text: each entry's expression by the text it was
/// compiled from, beside its template.
pub open spec fn table_view(table: Seq<(Matcher, &'static str)>) -> Seq<(Seq<char>, Seq<char>)> {
    Seq::new(table.len(), |i: int| (table[i].0@, table[i].1@))
}

/// Builds the pattern table: every expression compiled, in table order, each
/// beside its template. There is no table where an expression cannot be
/// compiled. Two tables built by this function have the same view.
pub fn patterns() -> (table: Option<Vec<(Matcher, &'static str)>>)
    ensures
        table.is_some() == table_compiles(),
        table matches Some(entries) ==> entries@.len() == PATTERNS_AMOUNT && table_view(entries@)
            == pattern_table(),
{
    let sources = pattern_sources();
    let mut entries: Vec<(Matcher, &'static str)> = Vec::new();
    let mut i: usize = 0;
    while i < sources.len()
        invariant
            i <= sources@.len(),
            texts_of(sources@) == pattern_table(),
            entries@.len() == i,
            forall|j: int| 0 <= j < i ==> regex_compiles(#[trigger] pattern_table()[j].0),
            forall|j: int|
                0 <= j < i ==> (#[trigger] table_view(entries@)[j]) == pattern_table()[j],
        decreases sources@.len() - i,
    {
        let source: &'static str = sources[i].0;
        let template: &'static str = sources[i].1;
        proof {
            assert(texts_of(sources@)[i as int] == (source@, template@));
        }
        match Matcher::compile(source) {
            Some(matcher) => {
                let ghost before = entries@;
                entries.push((matcher, template));
                proof {
                    assert forall|j: int| 0 <= j < i + 1 implies (#[trigger] table_view(
                        entries@,
                    )[j]) == pattern_table()[j] by {
                        if j < i {
                            assert(table_view(before)[j] == pattern_table()[j]);
                            assert(entries@[j] == before[j]);
                        }
                    }
                }
            },
            None => {
                proof {
                    assert(!regex_compiles(pattern_table()[i as int].0));
                }
                return None;
            },
        }
        i += 1;
    }
    proof {
        assert(table_view(entries@) =~= pattern_table());
    }
    Some(entries)
}

} // verus!
