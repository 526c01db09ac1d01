//! Character-level helpers shared by the rest of the crate.
//!
//! Text is modelled as `Seq<char>`. Executable code works on `Vec<char>`,
//! which gives constant-time indexing, and converts from and to strings at
//! the edges.

use vstd::prelude::*;

verus! {

/// Whether `pattern` occurs in `text` starting at position `at`.
pub open spec fn occurs_at(text: Seq<char>, at: int, pattern: Seq<char>) -> bool {
    &&& 0 <= at
    &&& at + pattern.len() <= text.len()
    &&& text.subrange(at, at + pattern.len()) == pattern
}

/// Whether `pattern` occurs somewhere in `text`.
pub open spec fn occurs_in(text: Seq<char>, pattern: Seq<char>) -> bool {
    exists|at: int| occurs_at(text, at, pattern)
}

/// `text` with every occurrence of `pattern` replaced by `replacement`.
///
/// Occurrences are looked for from left to right and do not overlap: after
/// an occurrence the search goes on behind it, and the replacement itself is
/// not searched. For an empty pattern nothing is replaced.
pub open spec fn replaced(text: Seq<char>, pattern: Seq<char>, replacement: Seq<char>) -> Seq<char>
    decreases text.len(),
{
    if text.len() == 0 || pattern.len() == 0 {
        text
    } else if occurs_at(text, 0, pattern) {
        replacement + replaced(text.skip(pattern.len() as int), pattern, replacement)
    } else {
        seq![text[0]] + replaced(text.skip(1), pattern, replacement)
    }
}

/// Appends one character to a string.
///
/// Trusted: this is `String::push` of the standard library, which the
/// verifier's library leaves unspecified. The contract says that the string
/// afterwards is the string before, followed by `c`.
#[verifier::external_body]
pub(crate) fn push_char(s: &mut String, c: char)
    ensures
        final(s)@ == old(s)@.push(c),
{
    s.push(c)
}

/// The characters of `s`, in order.
#[verifier::loop_isolation(false)]
pub fn chars_of(s: &str) -> (v: Vec<char>)
    ensures
        v@ == s@,
{
    broadcast use vstd::string::axiom_spec_iter;

    let mut v: Vec<char> = Vec::new();
    let chars = s.chars();
    for c in it: chars
        invariant
            it.seq() == s@,
            v@ == s@.take(it.index()),
    {
        v.push(c);
    }
    v
}

/// The string made of the characters of `v`, in order.
pub fn string_of(v: &Vec<char>) -> (s: String)
    ensures
        s@ == v@,
{
    let mut s = String::new();
    let mut i: usize = 0;
    while i < v.len()
        invariant
            i <= v.len(),
            s@ == v@.take(i as int),
        decreases v.len() - i,
    {
        push_char(&mut s, v[i]);
        i += 1;
    }
    s
}

/// Appends the characters of `more` to `out`.
pub fn append_chars(out: &mut Vec<char>, more: &Vec<char>)
    ensures
        final(out)@ == old(out)@ + more@,
{
    let mut i: usize = 0;
    while i < more.len()
        invariant
            i <= more.len(),
            out@ == old(out)@ + more@.take(i as int),
        decreases more.len() - i,
    {
        out.push(more[i]);
        i += 1;
    }
}

/// Appends the characters of `more` to `out`.
pub fn append_str(out: &mut Vec<char>, more: &str)
    ensures
        final(out)@ == old(out)@ + more@,
{
    let chars = chars_of(more);
    append_chars(out, &chars);
}

/// Whether `a` and `b` hold the same characters.
pub fn same_chars(a: &Vec<char>, b: &Vec<char>) -> (same: bool)
    ensures
        same == (a@ == b@),
{
    if a.len() != b.len() {
        return false;
    }
    let mut i: usize = 0;
    while i < a.len()
        invariant
            i <= a.len(),
            a.len() == b.len(),
            a@.take(i as int) == b@.take(i as int),
        decreases a.len() - i,
    {
        if a[i] != b[i] {
            return false;
        }
        i += 1;
    }
    assert(a@ == a@.take(a.len() as int));
    assert(b@ == b@.take(b.len() as int));
    true
}

/// Whether `pattern` occurs in `text` at `at`.
pub fn matches_at(text: &Vec<char>, at: usize, pattern: &Vec<char>) -> (found: bool)
    ensures
        found == occurs_at(text@, at as int, pattern@),
{
    if at > text.len() || pattern.len() > text.len() - at {
        return false;
    }
    let ghost window = text@.subrange(at as int, at + pattern.len());
    let mut k: usize = 0;
    while k < pattern.len()
        invariant
            k <= pattern.len(),
            at + pattern.len() <= text.len(),
            window == text@.subrange(at as int, at + pattern.len()),
            window.take(k as int) == pattern@.take(k as int),
        decreases pattern.len() - k,
    {
        if text[at + k] != pattern[k] {
            return false;
        }
        k += 1;
    }
    assert(window == window.take(pattern.len() as int));
    assert(pattern@ == pattern@.take(pattern.len() as int));
    true
}

/// Replaces every occurrence of `pattern` in `text` by `replacement`.
pub fn replace_all(text: &Vec<char>, pattern: &Vec<char>, replacement: &Vec<char>) -> (out: Vec<
    char,
>)
    ensures
        out@ == replaced(text@, pattern@, replacement@),
{
    let mut out: Vec<char> = Vec::new();
    let mut i: usize = 0;
    assert(text@.skip(0) == text@);
    while i < text.len()
        invariant
            i <= text.len(),
            replaced(text@, pattern@, replacement@) == out@ + replaced(
                text@.skip(i as int),
                pattern@,
                replacement@,
            ),
        decreases text.len() - i,
    {
        let ghost rest = text@.skip(i as int);
        assert(occurs_at(text@, i as int, pattern@) == occurs_at(rest, 0, pattern@)) by {
            if i + pattern.len() <= text.len() {
                assert(rest.subrange(0, pattern@.len() as int) == text@.subrange(
                    i as int,
                    i + pattern@.len(),
                ));
            }
        }
        if pattern.len() > 0 && matches_at(text, i, pattern) {
            assert(rest.skip(pattern@.len() as int) == text@.skip(i + pattern@.len()));
            append_chars(&mut out, replacement);
            i += pattern.len();
        } else {
            assert(rest.skip(1) == text@.skip(i + 1));
            out.push(text[i]);
            i += 1;
        }
    }
    out
}

/// Replacing a pattern that does not occur in the text leaves the text as
/// it is.
pub proof fn lemma_replaced_without_occurrence(
    text: Seq<char>,
    pattern: Seq<char>,
    replacement: Seq<char>,
)
    requires
        !occurs_in(text, pattern),
    ensures
        replaced(text, pattern, replacement) == text,
    decreases text.len(),
{
    if text.len() > 0 && pattern.len() > 0 {
        let rest = text.skip(1);
        assert forall|at: int| !occurs_at(rest, at, pattern) by {
            if occurs_at(rest, at, pattern) {
                assert(rest.subrange(at, at + pattern.len()) == text.subrange(
                    at + 1,
                    at + 1 + pattern.len(),
                ));
                assert(occurs_at(text, at + 1, pattern));
            }
        }
        lemma_replaced_without_occurrence(rest, pattern, replacement);
    }
}

} // verus!
