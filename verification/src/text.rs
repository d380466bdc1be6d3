//! Scanning native capability strings for whitespace-delimited words.

use vstd::prelude::*;

verus! {

/// ASCII whitespace, the separators between words of a native extension or
/// client-API string.
pub open spec fn is_space(c: char) -> bool {
    c == ' ' || c == '\t' || c == '\n' || c == '\r' || c == '\u{b}' || c == '\u{c}'
}

/// The word `tok` stands at position `i` of `s`, delimited on both sides by
/// whitespace or by an end of `s`.
pub open spec fn token_at(s: Seq<char>, tok: Seq<char>, i: int) -> bool {
    &&& 0 <= i
    &&& i + tok.len() <= s.len()
    &&& (forall|k: int| 0 <= k < tok.len() ==> s[i + k] == tok[k])
    &&& (i == 0 || is_space(s[i - 1]))
    &&& (i + tok.len() == s.len() || is_space(s[i + tok.len()]))
}

/// Some whitespace-delimited word of `s` equals `tok`.
pub open spec fn has_token(s: Seq<char>, tok: Seq<char>) -> bool {
    exists|i: int| token_at(s, tok, i)
}

fn is_space_char(c: char) -> (r: bool)
    ensures
        r == is_space(c),
{
    c == ' ' || c == '\t' || c == '\n' || c == '\r' || c == '\u{b}' || c == '\u{c}'
}

fn matches_at(s: &str, tok: &str, i: usize, m: usize) -> (r: bool)
    requires
        m == tok@.len(),
        i + m <= s@.len(),
        s@.len() <= usize::MAX,
    ensures
        r == (forall|k: int| 0 <= k < tok@.len() ==> s@[i + k] == tok@[k]),
{
    let mut k: usize = 0;
    while k < m
        invariant
            m == tok@.len(),
            i + m <= s@.len(),
            s@.len() <= usize::MAX,
            k <= m,
            forall|q: int| 0 <= q < k ==> s@[i + q] == tok@[q],
        decreases m - k,
    {
        if s.get_char(i + k) != tok.get_char(k) {
            assert(s@[i + k as int] != tok@[k as int]);
            return false;
        }
        k = k + 1;
    }
    true
}

/// Whether some whitespace-delimited word of `s` equals `tok`.
pub fn contains_token(s: &str, tok: &str) -> (r: bool)
    requires
        tok@.len() > 0,
    ensures
        r == has_token(s@, tok@),
{
    let n: usize = s.unicode_len();
    let m: usize = tok.unicode_len();
    if m > n {
        assert(forall|i: int| !token_at(s@, tok@, i));
        return false;
    }
    let mut i: usize = 0;
    while i <= n - m
        invariant
            n == s@.len(),
            m == tok@.len(),
            0 < m <= n,
            i <= n - m + 1,
            forall|j: int| 0 <= j < i ==> !token_at(s@, tok@, j),
        decreases n - m + 1 - i,
    {
        let left_ok: bool = i == 0 || is_space_char(s.get_char(i - 1));
        let right_ok: bool = i + m == n || is_space_char(s.get_char(i + m));
        if left_ok && right_ok {
            if matches_at(s, tok, i, m) {
                assert(token_at(s@, tok@, i as int));
                return true;
            }
        }
        assert(!token_at(s@, tok@, i as int));
        i = i + 1;
    }
    assert forall|j: int| !token_at(s@, tok@, j) by {
        if token_at(s@, tok@, j) {
            assert(0 <= j <= n - m);
        }
    }
    false
}

} // verus!
