//! The answer formatter: from the backend's text and citations to the
//! front-end's markup.
//!
//! Formatting has three steps, in this order: citation markers become
//! links, a leading hyphen becomes a bullet, and the characters that the
//! strict markup dialect reserves are escaped.

use crate::numeral::{decimal, push_decimal, sup, superscript};
use crate::text::{
    append_str, chars_of, lemma_replaced_without_occurrence, occurs_in, push_char, replace_all,
    replaced, string_of,
};
use vstd::prelude::*;

verus! {

/// The markup dialect of the front-end.
#[derive(Clone, Copy, Debug, PartialEq, Eq, Structural)]
pub enum MarkupMode {
    /// Rich markup: citations are linked, the leading hyphen becomes a
    /// bullet, reserved characters are escaped.
    Strict,
    /// The answer's text is passed through as it is.
    Legacy,
}

/// What the backend answers: a text with citation markers in it, and the
/// sources that the markers cite, in the order of their indices.
#[derive(Debug, PartialEq, Eq)]
pub struct Answer {
    pub text: String,
    pub citations: Vec<String>,
}

/// An answer as plain values.
pub struct AnswerView {
    pub text: Seq<char>,
    pub citations: Seq<Seq<char>>,
}

impl View for Answer {
    type V = AnswerView;

    open spec fn view(&self) -> AnswerView {
        AnswerView { text: self.text@, citations: texts_of(self.citations@) }
    }
}

/// The characters of each string of `strings`.
pub open spec fn texts_of(strings: Seq<String>) -> Seq<Seq<char>> {
    Seq::new(strings.len(), |i: int| strings[i]@)
}

/// The marker that the backend puts in its text where it cites the source
/// with the given one-based index.
pub open spec fn marker(index: nat) -> Seq<char> {
    seq!['[', '^'] + decimal(index) + seq!['^', ']']
}

/// The link that stands for a citation: the index in superscript digits as
/// its label, the source as its target.
pub open spec fn link(index: nat, source: Seq<char>) -> Seq<char> {
    seq!['['] + superscript(index) + seq![']', '('] + source + seq![')']
}

/// `text` after the markers of the first `count` sources have been replaced
/// by their links, one source after the other.
pub open spec fn cited(text: Seq<char>, sources: Seq<Seq<char>>, count: nat) -> Seq<char>
    decreases count,
{
    if count == 0 {
        text
    } else {
        replaced(
            cited(text, sources, (count - 1) as nat),
            marker(count),
            link(count, sources[count - 1]),
        )
    }
}

/// `text` after the markers of all `sources` have been replaced by their
/// links.
pub open spec fn with_citations(text: Seq<char>, sources: Seq<Seq<char>>) -> Seq<char> {
    cited(text, sources, sources.len())
}

/// `text` with a hyphen at its very start turned into a bullet.
pub open spec fn with_bullet(text: Seq<char>) -> Seq<char> {
    if text.len() > 0 && text[0] == '-' {
        seq!['•'] + text.skip(1)
    } else {
        text
    }
}

/// Whether the strict dialect reserves `c`.
pub open spec fn needs_escape(c: char) -> bool {
    c == '"' || c == '{' || c == '}' || c == '_' || c == '.'
}

/// What stands for `c` in escaped text: `c` itself, behind a backslash if
/// it is reserved.
pub open spec fn escaped_char(c: char) -> Seq<char> {
    if needs_escape(c) {
        seq!['\\', c]
    } else {
        seq![c]
    }
}

/// `text` with a backslash put before each reserved character.
pub open spec fn escaped(text: Seq<char>) -> Seq<char>
    decreases text.len(),
{
    if text.len() == 0 {
        Seq::empty()
    } else {
        escaped(text.drop_last()) + escaped_char(text.last())
    }
}

/// The strict markup for an answer.
pub open spec fn strict_markup(text: Seq<char>, sources: Seq<Seq<char>>) -> Seq<char> {
    escaped(with_bullet(with_citations(text, sources)))
}

/// The markup for an answer in the given dialect.
pub open spec fn markup(text: Seq<char>, sources: Seq<Seq<char>>, mode: MarkupMode) -> Seq<char> {
    match mode {
        MarkupMode::Strict => strict_markup(text, sources),
        MarkupMode::Legacy => text,
    }
}

fn is_reserved(c: char) -> (reserved: bool)
    ensures
        reserved == needs_escape(c),
{
    c == '"' || c == '{' || c == '}' || c == '_' || c == '.'
}

/// Escapes the characters that the strict dialect reserves.
#[verifier::loop_isolation(false)]
pub fn escape(text: &str) -> (out: String)
    ensures
        out@ == escaped(text@),
{
    broadcast use vstd::string::axiom_spec_iter;

    let mut out = String::new();
    let chars = text.chars();
    for c in it: chars
        invariant
            it.seq() == text@,
            out@ == escaped(text@.take(it.index())),
    {
        assert(text@.take(it.index() + 1).drop_last() == text@.take(it.index()));
        if is_reserved(c) {
            push_char(&mut out, '\\');
        }
        push_char(&mut out, c);
    }
    assert(text@.take(text@.len() as int) == text@);
    out
}

/// The marker of the source with the given one-based index.
pub fn marker_of(index: usize) -> (out: Vec<char>)
    ensures
        out@ == marker(index as nat),
{
    let mut out: Vec<char> = Vec::new();
    out.push('[');
    out.push('^');
    push_decimal(index as u64, &mut out);
    out.push('^');
    out.push(']');
    out
}

/// The link to `source` for the given one-based index.
pub fn link_of(index: usize, source: &str) -> (out: Vec<char>)
    ensures
        out@ == link(index as nat, source@),
{
    let mut out: Vec<char> = Vec::new();
    out.push('[');
    append_str(&mut out, sup(index).as_str());
    out.push(']');
    out.push('(');
    append_str(&mut out, source);
    out.push(')');
    out
}

/// Replaces each citation marker in the answer's text by a link to the
/// source it cites. The sources themselves are left as they are.
pub fn fix_attributions(answer: &mut Answer)
    ensures
        final(answer)@.text == with_citations(old(answer)@.text, old(answer)@.citations),
        final(answer).citations == old(answer).citations,
{
    let ghost text = answer.text@;
    let ghost sources = texts_of(answer.citations@);
    let mut current = chars_of(answer.text.as_str());
    let mut i: usize = 0;
    while i < answer.citations.len()
        invariant
            i <= answer.citations.len(),
            sources == texts_of(answer.citations@),
            current@ == cited(text, sources, i as nat),
        decreases answer.citations.len() - i,
    {
        let pattern = marker_of(i + 1);
        let replacement = link_of(i + 1, answer.citations[i].as_str());
        current = replace_all(&current, &pattern, &replacement);
        i += 1;
    }
    answer.text = string_of(&current);
}

/// Turns a hyphen at the very start of the answer's text into a bullet.
pub fn fix_unordered_list(answer: &mut Answer)
    ensures
        final(answer)@.text == with_bullet(old(answer)@.text),
        final(answer).citations == old(answer).citations,
{
    let mut chars = chars_of(answer.text.as_str());
    if chars.len() > 0 && chars[0] == '-' {
        chars[0] = '•';
    }
    answer.text = string_of(&chars);
}

/// Formats an answer for the strict dialect.
pub fn parse_answer(answer: Answer) -> (out: String)
    ensures
        out@ == strict_markup(answer@.text, answer@.citations),
{
    let mut answer = answer;
    fix_attributions(&mut answer);
    fix_unordered_list(&mut answer);
    escape(answer.text.as_str())
}

/// Formats an answer for the given dialect.
pub fn format_answer(answer: Answer, mode: MarkupMode) -> (out: String)
    ensures
        out@ == markup(answer@.text, answer@.citations, mode),
{
    match mode {
        MarkupMode::Strict => parse_answer(answer),
        MarkupMode::Legacy => answer.text,
    }
}

/// How many characters of `text` the strict dialect reserves.
pub open spec fn reserved_count(text: Seq<char>) -> nat
    decreases text.len(),
{
    if text.len() == 0 {
        0
    } else {
        reserved_count(text.drop_last()) + if needs_escape(text.last()) {
            1nat
        } else {
            0nat
        }
    }
}

/// `text` without the backslashes that stand directly before a reserved
/// character. This undoes `escaped`.
pub open spec fn unescaped(text: Seq<char>) -> Seq<char>
    decreases text.len(),
{
    if text.len() == 0 {
        text
    } else if text[0] == '\\' && text.len() >= 2 && needs_escape(text[1]) {
        seq![text[1]] + unescaped(text.skip(2))
    } else {
        seq![text[0]] + unescaped(text.skip(1))
    }
}

proof fn lemma_escaped_concat(a: Seq<char>, b: Seq<char>)
    ensures
        escaped(a + b) == escaped(a) + escaped(b),
    decreases b.len(),
{
    if b.len() > 0 {
        assert((a + b).drop_last() == a + b.drop_last());
        lemma_escaped_concat(a, b.drop_last());
    }
}

proof fn lemma_escaped_guards_reserved(text: Seq<char>, at: int)
    requires
        0 <= at < escaped(text).len(),
        needs_escape(escaped(text)[at]),
    ensures
        at > 0,
        escaped(text)[at - 1] == '\\',
    decreases text.len(),
{
    if text.len() > 0 {
        let front = escaped(text.drop_last());
        if at < front.len() {
            lemma_escaped_guards_reserved(text.drop_last(), at);
        }
    }
}

proof fn lemma_escaped_len(text: Seq<char>)
    ensures
        escaped(text).len() == text.len() + reserved_count(text),
    decreases text.len(),
{
    if text.len() > 0 {
        lemma_escaped_len(text.drop_last());
    }
}

proof fn lemma_unescaped_escaped(text: Seq<char>)
    ensures
        unescaped(escaped(text)) == text,
    decreases text.len(),
{
    if text.len() > 0 {
        let first = text[0];
        let rest = text.skip(1);
        assert(text == seq![first] + rest);
        lemma_escaped_concat(seq![first], rest);
        assert(escaped(seq![first]) == escaped_char(first)) by {
            assert(seq![first].drop_last() == Seq::<char>::empty());
            assert(escaped(Seq::<char>::empty()) == Seq::<char>::empty());
        }
        lemma_unescaped_escaped(rest);
        let all = escaped(text);
        if needs_escape(first) {
            assert(all.skip(2) == escaped(rest));
        } else {
            assert(all.skip(1) == escaped(rest));
            if escaped(rest).len() > 0 && needs_escape(escaped(rest)[0]) {
                lemma_escaped_guards_reserved(rest, 0);
            }
        }
    }
}

/// Escaping is complete and touches nothing else. In escaped text every
/// reserved character stands directly behind a backslash; the escaped text
/// is longer than the text by exactly one character for each reserved
/// character of the text; and taking out the backslashes that stand before
/// reserved characters gives the text back, so no other character was
/// added, dropped or changed.
pub proof fn lemma_escaping_complete(text: Seq<char>)
    ensures
        forall|at: int|
            0 <= at < escaped(text).len() && needs_escape(#[trigger] escaped(text)[at]) ==> at > 0
                && escaped(text)[at - 1] == '\\',
        escaped(text).len() == text.len() + reserved_count(text),
        unescaped(escaped(text)) == text,
{
    assert forall|at: int|
        0 <= at < escaped(text).len() && needs_escape(#[trigger] escaped(text)[at]) implies at > 0
        && escaped(text)[at - 1] == '\\' by {
        lemma_escaped_guards_reserved(text, at);
    }
    lemma_escaped_len(text);
    lemma_unescaped_escaped(text);
}

/// The bullet touches the first character only. Whatever the text, it
/// keeps its length and every character behind the first; a hyphen that
/// starts a later line stays a hyphen.
pub proof fn lemma_bullet_keeps_the_rest(text: Seq<char>)
    ensures
        with_bullet(text).len() == text.len(),
        forall|at: int| 1 <= at < text.len() ==> #[trigger] with_bullet(text)[at] == text[at],
{
}

proof fn lemma_cited_with_another_source(
    text: Seq<char>,
    sources: Seq<Seq<char>>,
    index: nat,
    other: Seq<char>,
    count: nat,
)
    requires
        1 <= index <= sources.len(),
        count <= sources.len(),
        !occurs_in(cited(text, sources, (index - 1) as nat), marker(index)),
    ensures
        cited(text, sources.update(index - 1, other), count) == cited(text, sources, count),
    decreases count,
{
    if count > 0 {
        lemma_cited_with_another_source(text, sources, index, other, (count - 1) as nat);
        if count == index {
            let before = cited(text, sources, (index - 1) as nat);
            lemma_replaced_without_occurrence(before, marker(index), link(index, other));
            lemma_replaced_without_occurrence(
                before,
                marker(index),
                link(index, sources[index - 1]),
            );
        }
    }
}

/// A source that the text does not cite is not used. If no marker of a
/// source stands in the text when the source's turn comes, the text comes
/// out the same with any other source in its place: nothing of the source
/// goes into the text.
pub proof fn lemma_unmarked_source_is_not_used(
    text: Seq<char>,
    sources: Seq<Seq<char>>,
    index: nat,
    other: Seq<char>,
)
    requires
        1 <= index <= sources.len(),
        !occurs_in(cited(text, sources, (index - 1) as nat), marker(index)),
    ensures
        with_citations(text, sources.update(index - 1, other)) == with_citations(text, sources),
{
    lemma_cited_with_another_source(text, sources, index, other, sources.len());
}

} // verus!
