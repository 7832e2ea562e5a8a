//! Character sequences: the model that every contract of this crate speaks of,
//! and the executable searches on it.

use vstd::prelude::*;

verus! {

/// `pattern` stands in `text` at position `at`.
pub open spec fn occurs_at(text: Seq<char>, pattern: Seq<char>, at: int) -> bool {
    &&& 0 <= at
    &&& at + pattern.len() <= text.len()
    &&& text.subrange(at, at + pattern.len()) == pattern
}

/// `pattern` stands somewhere in `text`. The empty pattern stands in every text.
pub open spec fn occurs_in(text: Seq<char>, pattern: Seq<char>) -> bool {
    exists|at: int| occurs_at(text, pattern, at)
}

/// `symbol` stands at position `at` of `text`, and nowhere before it.
pub open spec fn first_at(text: Seq<char>, symbol: char, at: int) -> bool {
    &&& 0 <= at < text.len()
    &&& text[at] == symbol
    &&& forall|before: int| 0 <= before < at ==> text[before] != symbol
}

/// The position of the first `symbol` in `text`. It means something only where
/// `text` contains `symbol`.
pub open spec fn first_position(text: Seq<char>, symbol: char) -> int {
    choose|at: int| first_at(text, symbol, at)
}

/// No text holds two first positions of a symbol.
pub proof fn lemma_first_at_unique(text: Seq<char>, symbol: char, a: int, b: int)
    requires
        first_at(text, symbol, a),
        first_at(text, symbol, b),
    ensures
        a == b,
{
    if a < b {
        assert(text[a] != symbol);
    } else if b < a {
        assert(text[b] != symbol);
    }
}

/// Where `symbol` is first seen at `at`, `first_position` is `at`.
pub proof fn lemma_first_position_is(text: Seq<char>, symbol: char, at: int)
    requires
        first_at(text, symbol, at),
    ensures
        text.contains(symbol),
        first_position(text, symbol) == at,
{
    lemma_first_at_unique(text, symbol, at, first_position(text, symbol));
}

/// A text that contains `symbol` has a first position of it.
pub proof fn lemma_first_position_exists(text: Seq<char>, symbol: char)
    requires
        text.contains(symbol),
    ensures
        first_at(text, symbol, first_position(text, symbol)),
{
    text.index_of_first_ensures(symbol);
    let at = text.index_of_first(symbol).unwrap();
    assert(first_at(text, symbol, at));
}

/// The characters of `s`, in order.
pub fn chars_of(s: &str) -> (chars: Vec<char>)
    ensures
        chars@ == s@,
{
    let mut chars: Vec<char> = Vec::new();
    for c in it: s.chars()
        invariant
            chars@ == it.seq().take(it.index() as int),
            it.seq() == s@,
    {
        chars.push(c);
    }
    chars
}

/// Whether `pattern` stands in `text` at `at`.
fn matches_at(text: &[char], pattern: &[char], at: usize) -> (b: bool)
    requires
        at + pattern@.len() <= text@.len(),
    ensures
        b == occurs_at(text@, pattern@, at as int),
{
    proof {
        vstd::slice::axiom_spec_len(text);
    }
    let mut k: usize = 0;
    while k < pattern.len()
        invariant
            k <= pattern@.len(),
            at + pattern@.len() <= text@.len() <= usize::MAX,
            forall|m: int| 0 <= m < k ==> text@[at + m] == pattern@[m],
        decreases pattern@.len() - k,
    {
        if text[at + k] != pattern[k] {
            assert(text@.subrange(at as int, at + pattern@.len())[k as int] != pattern@[k as int]);
            return false;
        }
        k += 1;
    }
    assert(text@.subrange(at as int, at + pattern@.len()) =~= pattern@);
    true
}

/// Whether `pattern` stands somewhere in `text`.
pub fn has_occurrence(text: &[char], pattern: &[char]) -> (b: bool)
    ensures
        b == occurs_in(text@, pattern@),
{
    if pattern.len() > text.len() {
        return false;
    }
    let last: usize = text.len() - pattern.len();
    let mut at: usize = 0;
    while at < last
        invariant
            at <= last,
            last + pattern@.len() == text@.len(),
            forall|p: int| 0 <= p < at ==> !occurs_at(text@, pattern@, p),
        decreases last - at,
    {
        if matches_at(text, pattern, at) {
            return true;
        }
        at += 1;
    }
    matches_at(text, pattern, last)
}

/// The position of the first `symbol` in `text`, if there is one.
pub fn find_first(text: &[char], symbol: char) -> (found: Option<usize>)
    ensures
        found is Some <==> text@.contains(symbol),
        found is Some ==> first_at(text@, symbol, found->Some_0 as int),
        found is Some ==> found->Some_0 == first_position(text@, symbol),
{
    let mut at: usize = 0;
    while at < text.len()
        invariant
            at <= text@.len(),
            forall|before: int| 0 <= before < at ==> text@[before] != symbol,
        decreases text@.len() - at,
    {
        if text[at] == symbol {
            proof {
                lemma_first_position_is(text@, symbol, at as int);
            }
            return Some(at);
        }
        at += 1;
    }
    None
}

} // verus!
