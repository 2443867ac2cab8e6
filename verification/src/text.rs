//! Plain text as sequences of characters, and literal substring replacement.

use vstd::prelude::*;

verus! {

/// `String::push` appends one character to the end of the string.
pub assume_specification[ String::push ](text: &mut String, ch: char)
    ensures
        final(text)@ == old(text)@.push(ch),
;

/// Whether `from` occurs in `text` at position `at`.
pub open spec fn occurs_at(text: Seq<char>, from: Seq<char>, at: int) -> bool {
    &&& 0 <= at
    &&& at + from.len() <= text.len()
    &&& text.subrange(at, at + from.len()) == from
}

/// The text `s` with every occurrence of `from` replaced by `to`. The
/// occurrences are found from left to right and do not overlap: the search
/// goes on behind each one. An empty `from` occurs nowhere.
pub open spec fn substituted(s: Seq<char>, from: Seq<char>, to: Seq<char>) -> Seq<char>
    decreases s.len(),
{
    if from.len() == 0 || s.len() < from.len() {
        s
    } else if occurs_at(s, from, 0) {
        to + substituted(s.skip(from.len() as int), from, to)
    } else {
        seq![s[0]] + substituted(s.skip(1), from, to)
    }
}

/// The characters of `s`, in order.
pub fn chars_of(s: &str) -> (out: Vec<char>)
    ensures
        out@ == s@,
{
    let mut out: Vec<char> = Vec::new();
    for c in it: s.chars()
        invariant
            out@ == it.seq().take(it.index()),
            it.seq() == s@,
    {
        out.push(c);
    }
    out
}

/// Tests whether the character `c` stands anywhere in `text`.
pub fn contains_char(text: &str, c: char) -> (found: bool)
    ensures
        found == text@.contains(c),
{
    let mut found = false;
    for ch in it: text.chars()
        invariant
            it.seq() == text@,
            found == it.seq().take(it.index()).contains(c),
    {
        proof {
            let seen = it.seq().take(it.index());
            let now = it.seq().take(it.index() + 1);
            assert(now == seen.push(ch));
            if seen.contains(c) {
                let at = choose|i: int| 0 <= i < seen.len() && seen[i] == c;
                assert(now[at] == c);
            }
            if ch == c {
                assert(now[it.index()] == c);
            }
        }
        if ch == c {
            found = true;
        }
    }
    proof {
        assert(text@.take(text@.len() as int) == text@);
    }
    found
}

/// Tests whether `from` occurs in `text` at position `at`.
pub fn starts_at(text: &Vec<char>, from: &Vec<char>, at: usize) -> (found: bool)
    ensures
        found == occurs_at(text@, from@, at as int),
{
    if at > text.len() || from.len() > text.len() - at {
        return false;
    }
    let mut j: usize = 0;
    while j < from.len()
        invariant
            j <= from.len(),
            at + from.len() <= text.len(),
            text@.subrange(at as int, at + j) == from@.take(j as int),
        decreases from.len() - j,
    {
        if text[at + j] != from[j] {
            return false;
        }
        proof {
            assert(text@.subrange(at as int, at + j + 1) == text@.subrange(at as int, at + j).push(
                text@[at + j],
            ));
        }
        j += 1;
    }
    proof {
        assert(from@.take(from@.len() as int) == from@);
    }
    true
}

/// Replaces every occurrence of `from` in `text` by `to`.
pub fn replace(text: &str, from: &str, to: &str) -> (out: String)
    ensures
        out@ == substituted(text@, from@, to@),
{
    let text = chars_of(text);
    let from = chars_of(from);
    let to = chars_of(to);
    let mut out = String::new();
    let mut i: usize = 0;
    proof {
        assert(text@.skip(0) == text@);
    }
    while i < text.len()
        invariant
            i <= text.len(),
            out@ + substituted(text@.skip(i as int), from@, to@) == substituted(
                text@,
                from@,
                to@,
            ),
        decreases text.len() - i,
    {
        let ghost rest = text@.skip(i as int);
        let ghost before = out@;
        if from.len() > 0 && starts_at(&text, &from, i) {
            let mut k: usize = 0;
            while k < to.len()
                invariant
                    k <= to.len(),
                    out@ == before + to@.take(k as int),
                decreases to.len() - k,
            {
                out.push(to[k]);
                proof {
                    assert(to@.take(k + 1) == to@.take(k as int).push(to@[k as int]));
                }
                k += 1;
            }
            proof {
                assert(rest.subrange(0, from@.len() as int) == text@.subrange(
                    i as int,
                    i + from@.len(),
                ));
                assert(rest.skip(from@.len() as int) == text@.skip(i + from@.len()));
            }
            i += from.len();
        } else {
            out.push(text[i]);
            proof {
                assert(rest.skip(1) == text@.skip(i + 1));
                if from@.len() > 0 && rest.len() >= from@.len() {
                    assert(rest.subrange(0, from@.len() as int) == text@.subrange(
                        i as int,
                        i + from@.len(),
                    ));
                }
            }
            i += 1;
        }
    }
    out
}

/// Replacement brings in no character that neither the text nor the
/// replacement holds.
pub proof fn lemma_substituted_lacks(s: Seq<char>, from: Seq<char>, to: Seq<char>, c: char)
    requires
        !s.contains(c),
        !to.contains(c),
    ensures
        !substituted(s, from, to).contains(c),
    decreases s.len(),
{
    if from.len() == 0 || s.len() < from.len() {
    } else if occurs_at(s, from, 0) {
        let rest = s.skip(from.len() as int);
        assert forall|i: int| 0 <= i < rest.len() implies rest[i] != c by {
            assert(s.contains(s[i + from.len()]));
        }
        lemma_substituted_lacks(rest, from, to, c);
        lemma_concat_lacks(to, substituted(rest, from, to), c);
    } else {
        let rest = s.skip(1);
        assert forall|i: int| 0 <= i < rest.len() implies rest[i] != c by {
            assert(s.contains(s[i + 1]));
        }
        lemma_substituted_lacks(rest, from, to, c);
        assert(s.contains(s[0]));
        lemma_concat_lacks(seq![s[0]], substituted(rest, from, to), c);
    }
}

/// Replacing a single character by a text without it leaves none of it.
pub proof fn lemma_substituted_removes(s: Seq<char>, to: Seq<char>, c: char)
    requires
        !to.contains(c),
    ensures
        !substituted(s, seq![c], to).contains(c),
    decreases s.len(),
{
    let from = seq![c];
    if s.len() < 1 {
    } else if occurs_at(s, from, 0) {
        lemma_substituted_removes(s.skip(1), to, c);
        lemma_concat_lacks(to, substituted(s.skip(1), from, to), c);
    } else {
        lemma_substituted_removes(s.skip(1), to, c);
        assert(s[0] != c) by {
            if s[0] == c {
                assert(s.subrange(0, 1) == from);
            }
        }
        lemma_concat_lacks(seq![s[0]], substituted(s.skip(1), from, to), c);
    }
}

/// A character that neither of two texts holds is not in their
/// concatenation.
pub proof fn lemma_concat_lacks(a: Seq<char>, b: Seq<char>, c: char)
    requires
        !a.contains(c),
        !b.contains(c),
    ensures
        !(a + b).contains(c),
{
    assert forall|i: int| 0 <= i < (a + b).len() implies (a + b)[i] != c by {
        if i < a.len() {
            assert(a.contains(a[i]));
        } else {
            assert(b.contains(b[i - a.len()]));
        }
    }
}

} // verus!
