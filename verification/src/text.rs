//! Substitution in texts.

use vstd::prelude::*;

verus! {

broadcast use vstd::string::group_string_axioms;

/// The text `s` with every occurrence of the pattern `from` replaced by `to`.
/// Occurrences are found from the left, and the search resumes after each
/// one, so that they never overlap. An empty pattern occurs nowhere.
pub open spec fn replaced(s: Seq<char>, from: Seq<char>, to: Seq<char>) -> Seq<char>
    decreases s.len(),
{
    if s.len() == 0 {
        s
    } else if from.len() > 0 && from.is_prefix_of(s) {
        to + replaced(s.skip(from.len() as int), from, to)
    } else {
        s.take(1) + replaced(s.skip(1), from, to)
    }
}

/// `String::push`: appends one character to the end of the string.
#[verifier::external_body]
fn push_char(s: &mut String, c: char)
    ensures
        final(s)@ == old(s)@.push(c),
{
    s.push(c)
}

/// The characters of `s`, in order.
pub fn chars_of(s: &str) -> (v: Vec<char>)
    ensures
        v@ == s@,
{
    let mut v: Vec<char> = Vec::new();
    for c in it: s.chars()
        invariant
            it.seq() == s@,
            v@ == it.seq().take(it.index() as int),
    {
        v.push(c);
        assert(it.seq().take(it.index() + 1) =~= it.seq().take(it.index() as int).push(c));
    }
    assert(s@.take(s@.len() as int) =~= s@);
    v
}

/// Whether `pattern` stands in `text` at position `at`.
fn occurs_at(text: &Vec<char>, at: usize, pattern: &Vec<char>) -> (b: bool)
    requires
        at <= text.len(),
    ensures
        b == pattern@.is_prefix_of(text@.skip(at as int)),
{
    if pattern.len() > text.len() - at {
        return false;
    }
    let mut k: usize = 0;
    while k < pattern.len()
        invariant
            at + pattern.len() <= text.len(),
            k <= pattern.len(),
            forall|j: int| 0 <= j < k ==> pattern@[j] == text@[at + j],
        decreases pattern.len() - k,
    {
        if pattern[k] != text[at + k] {
            assert(text@.skip(at as int).subrange(0, pattern@.len() as int)[k as int]
                != pattern@[k as int]);
            return false;
        }
        k += 1;
    }
    assert(pattern@ =~= text@.skip(at as int).subrange(0, pattern@.len() as int));
    true
}

/// The text with every occurrence of `from` replaced by `to`.
pub fn substitute(text: &str, from: &str, to: &str) -> (out: String)
    ensures
        out@ == replaced(text@, from@, to@),
{
    let t = chars_of(text);
    let f = chars_of(from);
    let mut out = String::new();
    let mut i: usize = 0;
    assert(t@.skip(0) =~= t@);
    while i < t.len()
        invariant
            i <= t.len(),
            t@ == text@,
            f@ == from@,
            out@ + replaced(t@.skip(i as int), from@, to@) == replaced(text@, from@, to@),
        decreases t.len() - i,
    {
        let ghost rest = t@.skip(i as int);
        if f.len() > 0 && occurs_at(&t, i, &f) {
            out.append(to);
            assert(rest.skip(f@.len() as int) =~= t@.skip(i + f@.len()));
            i += f.len();
        } else {
            push_char(&mut out, t[i]);
            assert(rest.take(1) =~= seq![t@[i as int]]);
            assert(rest.skip(1) =~= t@.skip(i + 1));
            i += 1;
        }
        assert(out@ + replaced(t@.skip(i as int), from@, to@) =~= replaced(
            text@,
            from@,
            to@,
        ));
    }
    assert(out@ + Seq::<char>::empty() =~= out@);
    out
}

} // verus!
