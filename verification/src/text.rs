//! Text as sequences of characters: the searches and the order that the rest
//! of the library states its rules with.

use vstd::prelude::*;

verus! {

/// `pattern` stands in `text` at position `at`.
pub open spec fn occurs_at(text: Seq<char>, pattern: Seq<char>, at: int) -> bool {
    &&& 0 <= at
    &&& at + pattern.len() <= text.len()
    &&& text.subrange(at, at + pattern.len()) == pattern
}

/// `pattern` stands somewhere in `text`.
pub open spec fn contains_text(text: Seq<char>, pattern: Seq<char>) -> bool {
    exists|at: int| occurs_at(text, pattern, at)
}

/// The characters of a text that may be absent.
pub open spec fn text_of(text: Option<&str>) -> Option<Seq<char>> {
    match text {
        Some(text) => Some(text@),
        None => None,
    }
}

/// The characters of a string slice, in order.
pub fn chars_of(s: &str) -> (chars: Vec<char>)
    ensures
        chars@ == s@,
{
    let mut chars: Vec<char> = Vec::new();
    for c in it: s.chars()
        invariant
            chars@ == it.seq().take(it.index() as int),
            it.seq() == s@,
    {
        chars.push(c);
    }
    chars
}

/// Whether `pattern` stands in `text` at position `at`.
pub fn matches_at(text: &[char], pattern: &[char], at: usize) -> (found: bool)
    ensures
        found == occurs_at(text@, pattern@, at as int),
{
    if pattern.len() > text.len() || at > text.len() - pattern.len() {
        return false;
    }
    let mut k: usize = 0;
    while k < pattern.len()
        invariant
            k <= pattern.len(),
            at + pattern.len() <= text.len(),
            forall|j: int| 0 <= j < k ==> text@[at + j] == pattern@[j],
        decreases pattern.len() - k,
    {
        if text[at + k] != pattern[k] {
            return false;
        }
        k = k + 1;
    }
    assert(text@.subrange(at as int, at + pattern.len()) =~= pattern@);
    true
}

/// Whether `text` begins with `prefix`.
pub fn starts_with(text: &[char], prefix: &[char]) -> (found: bool)
    ensures
        found == prefix@.is_prefix_of(text@),
{
    matches_at(text, prefix, 0)
}

/// Whether `text` ends with `suffix`.
pub fn ends_with(text: &[char], suffix: &[char]) -> (found: bool)
    ensures
        found == suffix@.is_suffix_of(text@),
{
    if suffix.len() > text.len() {
        return false;
    }
    matches_at(text, suffix, text.len() - suffix.len())
}

/// Whether `pattern` stands somewhere in `text`.
pub fn contains(text: &[char], pattern: &[char]) -> (found: bool)
    ensures
        found == contains_text(text@, pattern@),
{
    if pattern.len() > text.len() {
        return false;
    }
    let last: usize = text.len() - pattern.len();
    let mut at: usize = 0;
    loop
        invariant
            at <= last,
            last == text.len() - pattern.len(),
            forall|j: int| 0 <= j < at ==> !occurs_at(text@, pattern@, j),
        decreases last - at,
    {
        if matches_at(text, pattern, at) {
            return true;
        }
        if at == last {
            return false;
        }
        at = at + 1;
    }
}

/// Whether two texts hold the same characters.
pub fn same_text(a: &[char], b: &[char]) -> (same: bool)
    ensures
        same == (a@ == b@),
{
    if a.len() != b.len() {
        return false;
    }
    assert(a@.subrange(0, a@.len() as int) =~= a@);
    matches_at(a, b, 0)
}

/// The lexical order of texts: at the first position where two texts differ
/// the one with the smaller character is less, and a text is less than each of
/// its proper extensions.
pub open spec fn text_less(a: Seq<char>, b: Seq<char>) -> bool
    decreases a.len(),
{
    if b.len() == 0 {
        false
    } else if a.len() == 0 {
        true
    } else if a[0] == b[0] {
        text_less(a.skip(1), b.skip(1))
    } else {
        a[0] < b[0]
    }
}

/// No text is less than itself.
pub proof fn lemma_text_less_irreflexive(a: Seq<char>)
    ensures
        !text_less(a, a),
    decreases a.len(),
{
    if a.len() > 0 {
        lemma_text_less_irreflexive(a.skip(1));
    }
}

/// Of two different texts exactly one is less than the other.
pub proof fn lemma_text_less_total(a: Seq<char>, b: Seq<char>)
    ensures
        a != b ==> (text_less(a, b) <==> !text_less(b, a)),
        a == b ==> !text_less(a, b),
    decreases a.len(),
{
    if a == b {
        lemma_text_less_irreflexive(a);
    } else if a.len() == 0 || b.len() == 0 {
        if a.len() == 0 && b.len() == 0 {
            assert(a =~= b);
        }
    } else if a[0] == b[0] {
        if a.skip(1) == b.skip(1) {
            assert(a =~= seq![a[0]] + a.skip(1));
            assert(b =~= seq![b[0]] + b.skip(1));
        }
        lemma_text_less_total(a.skip(1), b.skip(1));
    }
}

/// The lexical order is transitive.
pub proof fn lemma_text_less_transitive(a: Seq<char>, b: Seq<char>, c: Seq<char>)
    requires
        text_less(a, b),
        text_less(b, c),
    ensures
        text_less(a, c),
    decreases a.len(),
{
    if a.len() > 0 && a[0] == b[0] && b[0] == c[0] {
        lemma_text_less_transitive(a.skip(1), b.skip(1), c.skip(1));
    }
}

/// A text that is less than one of two texts, the second of which is not less
/// than the first, is less than the other as well.
pub proof fn lemma_text_less_below(a: Seq<char>, b: Seq<char>, c: Seq<char>)
    requires
        text_less(c, a),
        !text_less(b, a),
    ensures
        text_less(c, b),
{
    lemma_text_less_total(a, b);
    if a != b {
        lemma_text_less_transitive(c, a, b);
    }
}

/// Whether `a` is less than `b` in the lexical order.
pub fn is_text_less(a: &[char], b: &[char]) -> (less: bool)
    ensures
        less == text_less(a@, b@),
{
    let mut k: usize = 0;
    assert(a@.skip(0) =~= a@ && b@.skip(0) =~= b@);
    while k < a.len() && k < b.len()
        invariant
            k <= a.len(),
            k <= b.len(),
            text_less(a@, b@) == text_less(a@.skip(k as int), b@.skip(k as int)),
        decreases a.len() - k,
    {
        let ghost rest_a = a@.skip(k as int);
        let ghost rest_b = b@.skip(k as int);
        assert(rest_a.skip(1) =~= a@.skip(k + 1));
        assert(rest_b.skip(1) =~= b@.skip(k + 1));
        if a[k] != b[k] {
            return a[k] < b[k];
        }
        k = k + 1;
    }
    k < b.len()
}

/// Whether two string slices hold the same text.
pub fn same_str(a: &str, b: &str) -> (same: bool)
    ensures
        same == (a@ == b@),
{
    let first = chars_of(a);
    let second = chars_of(b);
    same_text(first.as_slice(), second.as_slice())
}

} // verus!
