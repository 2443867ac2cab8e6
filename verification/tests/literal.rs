//! The literal-block pass.

use bbcode::literal::{block_matcher, code, code_replacer, protect};
use bbcode::Matcher;

#[test]
fn code_replacer_escapes_brackets() {
    assert_eq!(
        code_replacer(Some("[b]test[/b]"), None),
        "<pre><code>&#91;b&#93;test&#91;/b&#93;</code></pre>"
    );
}

#[test]
fn code_replacer_turns_line_break_markup_into_line_feeds() {
    assert_eq!(
        code_replacer(Some("one<br />two<br />"), None),
        "<pre><code>one\ntwo\n</code></pre>"
    );
}

#[test]
fn code_replacer_escapes_brackets_before_line_breaks() {
    assert_eq!(
        code_replacer(Some("[<br />]"), None),
        "<pre><code>&#91;\n&#93;</code></pre>"
    );
    assert_eq!(
        code_replacer(Some("<br [/>"), None),
        "<pre><code><br &#91;/></code></pre>"
    );
}

#[test]
fn code_replacer_keeps_other_text() {
    assert_eq!(
        code_replacer(Some("let x = a < b && c > d;"), None),
        "<pre><code>let x = a < b && c > d;</code></pre>"
    );
}

#[test]
fn code_replacer_renders_an_empty_block() {
    assert_eq!(code_replacer(Some(""), None), "<pre><code></code></pre>");
    assert_eq!(code_replacer(None, None), "<pre><code></code></pre>");
}

#[test]
fn code_replacer_takes_the_text_of_the_alternative_that_matched() {
    assert_eq!(
        code_replacer(None, Some("[i]x[/i]")),
        "<pre><code>&#91;i&#93;x&#91;/i&#93;</code></pre>"
    );
    assert_eq!(code_replacer(None, Some("")), "<pre><code></code></pre>");
    assert_eq!(
        code_replacer(Some("first"), Some("second")),
        "<pre><code>first</code></pre>"
    );
    assert_eq!(code_replacer(Some(""), Some("second")), "<pre><code></code></pre>");
}

#[test]
fn code_replacer_leaves_no_bracket() {
    let out = code_replacer(Some("[[a]] [/code] ]["), None);
    assert!(!out.contains('['));
    assert!(!out.contains(']'));
    assert_eq!(
        out,
        "<pre><code>&#91;&#91;a&#93;&#93; &#91;/code&#93; &#93;&#91;</code></pre>"
    );
}

#[test]
fn block_matcher_compiles() {
    let matcher = block_matcher();
    assert!(matcher.is_some());
    assert_eq!(
        matcher.unwrap().as_str(),
        r"(?s)(?:\[code\](.*?)\[/code\]|\[preformatted\](.*?)\[/preformatted\])"
    );
}

#[test]
fn code_renders_a_code_block() {
    assert_eq!(
        code("[code][b]t[/b][/code]"),
        "<pre><code>&#91;b&#93;t&#91;/b&#93;</code></pre>"
    );
}

#[test]
fn code_renders_a_preformatted_block() {
    assert_eq!(
        code("[preformatted]a<br />b[/preformatted]"),
        "<pre><code>a\nb</code></pre>"
    );
}

#[test]
fn code_keeps_the_text_around_and_between_blocks() {
    assert_eq!(
        code("x [b]y[/b] [code][i][/code] z [preformatted]][[/preformatted] end"),
        "x [b]y[/b] <pre><code>&#91;i&#93;</code></pre> z <pre><code>&#93;&#91;</code></pre> end"
    );
}

#[test]
fn code_spans_lines() {
    assert_eq!(
        code("[code]fn main() {\n    v[0];\n}[/code]"),
        "<pre><code>fn main() {\n    v&#91;0&#93;;\n}</code></pre>"
    );
}

#[test]
fn code_renders_an_empty_block() {
    assert_eq!(code("[code][/code]"), "<pre><code></code></pre>");
}

#[test]
fn code_ends_a_block_at_the_first_closing_tag() {
    assert_eq!(
        code("[code]a[code]b[/code]c[/code]"),
        "<pre><code>a&#91;code&#93;b</code></pre>c[/code]"
    );
}

#[test]
fn code_ends_a_block_only_at_the_closing_tag_of_its_kind() {
    assert_eq!(
        code("[code]a[/preformatted]b[/code]"),
        "<pre><code>a&#91;/preformatted&#93;b</code></pre>"
    );
    assert_eq!(
        code("[preformatted]a[/code]b[/preformatted]"),
        "<pre><code>a&#91;/code&#93;b</code></pre>"
    );
}

#[test]
fn code_leaves_a_block_closed_by_the_other_kind() {
    assert_eq!(code("[code]a[/preformatted]"), "[code]a[/preformatted]");
    assert_eq!(code("[preformatted]a[/code]"), "[preformatted]a[/code]");
}

#[test]
fn code_takes_a_block_of_one_kind_inside_the_other_as_text() {
    assert_eq!(
        code("[preformatted]x[code]y[/code]z[/preformatted]"),
        "<pre><code>x&#91;code&#93;y&#91;/code&#93;z</code></pre>"
    );
    assert_eq!(
        code("[code]x[preformatted]y[/preformatted]z[/code]"),
        "<pre><code>x&#91;preformatted&#93;y&#91;/preformatted&#93;z</code></pre>"
    );
}

#[test]
fn code_spans_lines_in_a_preformatted_block() {
    assert_eq!(
        code("[preformatted]one\n[two]\nthree[/preformatted]"),
        "<pre><code>one\n&#91;two&#93;\nthree</code></pre>"
    );
}

#[test]
fn code_leaves_an_unterminated_block() {
    assert_eq!(code("[code]never closed [b]x[/b]"), "[code]never closed [b]x[/b]");
    assert_eq!(code("no opening[/code]"), "no opening[/code]");
}

#[test]
fn code_is_case_sensitive() {
    assert_eq!(code("[CODE]x[/CODE]"), "[CODE]x[/CODE]");
}

#[test]
fn code_leaves_text_without_a_block() {
    assert_eq!(code("[b]bold[/b] and plain"), "[b]bold[/b] and plain");
    assert_eq!(code(""), "");
}

#[test]
fn protect_renders_the_group_that_took_part_in_each_match() {
    let blocks = Matcher::compile(r"(?s)<raw>(.*?)</raw>|<pre>(.*?)</pre>").unwrap();
    assert_eq!(
        protect(&blocks, "a <raw>[x]</raw> b <pre>]</pre>"),
        "a <pre><code>&#91;x&#93;</code></pre> b <pre><code>&#93;</code></pre>"
    );
}

#[test]
fn protect_renders_an_empty_block_where_no_group_took_part() {
    let no_group = Matcher::compile(r"<raw>").unwrap();
    assert_eq!(protect(&no_group, "a <raw> b"), "a <pre><code></code></pre> b");
    let idle_groups = Matcher::compile(r"<raw>|(never)!|(ever)!").unwrap();
    assert_eq!(protect(&idle_groups, "a <raw> b"), "a <pre><code></code></pre> b");
}

#[test]
fn protect_agrees_with_code_on_the_block_expression() {
    let blocks = block_matcher().unwrap();
    for input in ["", "x", "[code][b]t[/b][/code]", "[code]a", "a[preformatted]<br />[/preformatted]"] {
        assert_eq!(protect(&blocks, input), code(input));
    }
}
