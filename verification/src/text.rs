//! Facts about text: the shape of a hex color and the order of names.
//!
//! Text is modelled as a sequence of characters. Names are ordered lexicographically by code
//! point, which is the order of the strings that hold them.

use vstd::prelude::*;

verus! {

/// Whether `c` is one of `0`-`9`, `a`-`f` or `A`-`F`.
pub open spec fn is_hex_digit(c: char) -> bool {
    ('0' <= c && c <= '9') || ('a' <= c && c <= 'f') || ('A' <= c && c <= 'F')
}

/// Whether `s` is a color in hex format: `#` followed by exactly six hexadecimal digits.
pub open spec fn is_hex_color(s: Seq<char>) -> bool {
    &&& s.len() == 7
    &&& s[0] == '#'
    &&& forall|i: int| 1 <= i < 7 ==> is_hex_digit(#[trigger] s[i])
}

/// The lower-case form of `c`, where `c` is one of the letters `A`-`Z`; otherwise `c` itself.
pub open spec fn lower(c: char) -> char {
    if 'A' <= c && c <= 'Z' {
        ((c as u8) + 32) as char
    } else {
        c
    }
}

/// The text `s` with the letters `A`-`Z` in lower case.
pub open spec fn lowered(s: Seq<char>) -> Seq<char> {
    s.map_values(|c: char| lower(c))
}

/// Whether `a` comes strictly before `b` in lexicographic order: at the first position where
/// the two differ `a` has the smaller character, or `a` ends there and `b` goes on.
pub open spec fn precedes(a: Seq<char>, b: Seq<char>) -> bool
    decreases a.len(),
{
    if b.len() == 0 {
        false
    } else if a.len() == 0 {
        true
    } else if a[0] == b[0] {
        precedes(a.drop_first(), b.drop_first())
    } else {
        a[0] < b[0]
    }
}

/// No text comes before itself.
pub proof fn lemma_precedes_irreflexive(a: Seq<char>)
    ensures
        !precedes(a, a),
    decreases a.len(),
{
    if a.len() > 0 {
        lemma_precedes_irreflexive(a.drop_first());
    }
}

/// If `a` comes before `b` and `b` before `c`, then `a` comes before `c`.
pub proof fn lemma_precedes_transitive(a: Seq<char>, b: Seq<char>, c: Seq<char>)
    requires
        precedes(a, b),
        precedes(b, c),
    ensures
        precedes(a, c),
    decreases a.len(),
{
    if a.len() > 0 && a[0] == b[0] && b[0] == c[0] {
        lemma_precedes_transitive(a.drop_first(), b.drop_first(), c.drop_first());
    }
}

/// Of two different texts one comes before the other.
pub proof fn lemma_precedes_total(a: Seq<char>, b: Seq<char>)
    ensures
        a == b || precedes(a, b) || precedes(b, a),
    decreases a.len(),
{
    if a.len() > 0 && b.len() > 0 && a[0] == b[0] {
        lemma_precedes_total(a.drop_first(), b.drop_first());
        if a.drop_first() == b.drop_first() {
            assert(a =~= seq![a[0]] + a.drop_first());
            assert(b =~= seq![b[0]] + b.drop_first());
        }
    } else if a.len() == 0 && b.len() == 0 {
        assert(a =~= b);
    }
}

/// Two texts never come before each other.
pub proof fn lemma_precedes_asymmetric(a: Seq<char>, b: Seq<char>)
    requires
        precedes(a, b),
    ensures
        !precedes(b, a),
{
    if precedes(b, a) {
        lemma_precedes_transitive(a, b, a);
        lemma_precedes_irreflexive(a);
    }
}

/// A common prefix does not change the order of two texts.
pub proof fn lemma_precedes_with_prefix(prefix: Seq<char>, a: Seq<char>, b: Seq<char>)
    ensures
        precedes(prefix + a, prefix + b) == precedes(a, b),
    decreases prefix.len(),
{
    if prefix.len() == 0 {
        assert(prefix + a =~= a);
        assert(prefix + b =~= b);
    } else {
        let rest = prefix.drop_first();
        assert((prefix + a).drop_first() =~= rest + a);
        assert((prefix + b).drop_first() =~= rest + b);
        lemma_precedes_with_prefix(rest, a, b);
    }
}

/// Reads the characters of `s` into a vector.
pub fn chars_of(s: &str) -> (chars: Vec<char>)
    ensures
        chars@ == s@,
{
    let mut chars: Vec<char> = Vec::new();
    for c in it: s.chars()
        invariant
            chars@ == it.seq().take(it.index() as int),
    {
        chars.push(c);
    }
    chars
}

/// Reads the characters of `s` into a vector, with the letters `A`-`Z` in lower case.
pub fn to_lower(s: &str) -> (chars: Vec<char>)
    ensures
        chars@ == lowered(s@),
{
    let given = chars_of(s);
    let mut chars: Vec<char> = Vec::new();
    for i in 0..given.len()
        invariant
            given@ == s@,
            chars@.len() == i,
            forall|k: int| 0 <= k < i ==> chars@[k] == lower(s@[k]),
    {
        let c = given[i];
        if 'A' <= c && c <= 'Z' {
            chars.push(((c as u8) + 32) as char);
        } else {
            chars.push(c);
        }
    }
    assert(chars@ =~= lowered(s@));
    chars
}

/// Decides whether `a` and `b` hold the same text.
pub fn same_chars(a: &Vec<char>, b: &Vec<char>) -> (same: bool)
    ensures
        same == (a@ == b@),
{
    if a.len() != b.len() {
        return false;
    }
    for i in 0..a.len()
        invariant
            a@.len() == b@.len(),
            forall|k: int| 0 <= k < i ==> a@[k] == b@[k],
    {
        if a[i] != b[i] {
            return false;
        }
    }
    assert(a@ =~= b@);
    true
}

/// Decides whether `c` is a hexadecimal digit.
pub fn hex_digit(c: char) -> (b: bool)
    ensures
        b == is_hex_digit(c),
{
    ('0' <= c && c <= '9') || ('a' <= c && c <= 'f') || ('A' <= c && c <= 'F')
}

/// Decides whether `s` is a color in hex format.
pub fn hex_color(s: &str) -> (b: bool)
    ensures
        b == is_hex_color(s@),
{
    let chars = chars_of(s);
    if chars.len() != 7 || chars[0] != '#' {
        return false;
    }
    let mut i: usize = 1;
    while i < 7
        invariant
            1 <= i <= 7,
            chars@ == s@,
            chars@.len() == 7,
            forall|j: int| 1 <= j < i ==> is_hex_digit(#[trigger] s@[j]),
        decreases 7 - i,
    {
        if !hex_digit(chars[i]) {
            return false;
        }
        i += 1;
    }
    true
}

/// Decides whether `a` comes strictly before `b` in lexicographic order.
pub fn comes_first(a: &Vec<char>, b: &Vec<char>) -> (r: bool)
    ensures
        r == precedes(a@, b@),
{
    let mut i: usize = 0;
    assert(a@.skip(0) =~= a@);
    assert(b@.skip(0) =~= b@);
    while i < a.len() && i < b.len() && a[i] == b[i]
        invariant
            i <= a@.len(),
            i <= b@.len(),
            precedes(a@, b@) == precedes(a@.skip(i as int), b@.skip(i as int)),
        decreases a@.len() - i,
    {
        assert(a@.skip(i as int).drop_first() =~= a@.skip(i + 1));
        assert(b@.skip(i as int).drop_first() =~= b@.skip(i + 1));
        i += 1;
    }
    if i >= b.len() {
        false
    } else if i >= a.len() {
        true
    } else {
        a[i] < b[i]
    }
}

} // verus!
