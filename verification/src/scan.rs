//! Primitive grammar elements shared by the format parsers: literal
//! matching, character search, blank-line search, and the fixed-length
//! hexadecimal content hash.

use vstd::prelude::*;
use vstd::string::*;

verus! {

/// Number of hexadecimal characters in a content hash.
pub const HASH_LEN: usize = 40;

/// The literal `lit` occurs in `s` starting at position `i`.
pub open spec fn matches_at(s: Seq<char>, i: int, lit: Seq<char>) -> bool {
    &&& 0 <= i
    &&& i + lit.len() <= s.len()
    &&& s.subrange(i, i + lit.len()) == lit
}

/// Position of the first occurrence of `c` in `s` at or after `i`.
pub open spec fn find_char(s: Seq<char>, i: int, c: char) -> Option<int>
    decreases s.len() - i,
{
    if i < 0 || i >= s.len() {
        None
    } else if s[i] == c {
        Some(i)
    } else {
        find_char(s, i + 1, c)
    }
}

/// Position of the first blank-line boundary (two consecutive newlines)
/// in `s` at or after `i`.
pub open spec fn find_blank(s: Seq<char>, i: int) -> Option<int>
    decreases s.len() - i,
{
    if i < 0 || i + 1 >= s.len() {
        None
    } else if s[i] == '\n' && s[i + 1] == '\n' {
        Some(i)
    } else {
        find_blank(s, i + 1)
    }
}

/// A hexadecimal character: a decimal digit or a letter `a`-`f` in either
/// case.
pub open spec fn is_hex_digit(c: char) -> bool {
    let u = c as u32;
    ||| ('0' as u32) <= u && u <= ('9' as u32)
    ||| ('a' as u32) <= u && u <= ('f' as u32)
    ||| ('A' as u32) <= u && u <= ('F' as u32)
}

/// The content hash starting at position `i`: exactly `HASH_LEN`
/// hexadecimal characters, or nothing if the input does not hold them.
pub open spec fn spec_parse_hash(s: Seq<char>, i: int) -> Option<Seq<char>> {
    if 0 <= i && i + HASH_LEN <= s.len() && (forall|t: int|
        i <= t < i + HASH_LEN ==> is_hex_digit(s[t])) {
        Some(s.subrange(i, i + HASH_LEN))
    } else {
        None
    }
}

/// What `find_char` returns is the leftmost occurrence, inside the bounds
/// of `s`.
pub proof fn lemma_find_char(s: Seq<char>, i: int, c: char)
    requires
        0 <= i <= s.len(),
    ensures
        match find_char(s, i, c) {
            Some(j) => i <= j < s.len() && s[j] == c && (forall|t: int| i <= t < j ==> s[t] != c),
            None => forall|t: int| i <= t < s.len() ==> s[t] != c,
        },
    decreases s.len() - i,
{
    if i < s.len() && s[i] != c {
        lemma_find_char(s, i + 1, c);
    }
}

/// What `find_blank` returns is the leftmost blank-line boundary, inside
/// the bounds of `s`.
pub proof fn lemma_find_blank(s: Seq<char>, i: int)
    requires
        0 <= i <= s.len(),
    ensures
        match find_blank(s, i) {
            Some(j) => i <= j && j + 1 < s.len() && s[j] == '\n' && s[j + 1] == '\n' && (forall|
                t: int,
            |
                i <= t < j ==> !(#[trigger] s[t] == '\n' && s[t + 1] == '\n')),
            None => forall|t: int|
                i <= t && t + 1 < s.len() ==> !(#[trigger] s[t] == '\n' && s[t + 1] == '\n'),
        },
    decreases s.len() - i,
{
    if i + 1 < s.len() && !(s[i] == '\n' && s[i + 1] == '\n') {
        lemma_find_blank(s, i + 1);
    }
}

/// Whether the literal `lit` occurs in `s` at position `i`.
pub fn match_lit(s: &str, n: usize, i: usize, lit: &str) -> (b: bool)
    requires
        n == s@.len(),
        i <= n,
    ensures
        b == matches_at(s@, i as int, lit@),
{
    let m = lit.unicode_len();
    if m > n - i {
        return false;
    }
    let mut k: usize = 0;
    while k < m
        invariant
            k <= m,
            i + m <= n,
            n == s@.len(),
            m == lit@.len(),
            forall|t: int| 0 <= t < k ==> s@[i + t] == lit@[t],
        decreases m - k,
    {
        if s.get_char(i + k) != lit.get_char(k) {
            proof {
                if matches_at(s@, i as int, lit@) {
                    assert(s@.subrange(i as int, i + lit@.len())[k as int] == lit@[k as int]);
                }
            }
            return false;
        }
        k += 1;
    }
    proof {
        assert(s@.subrange(i as int, i + lit@.len()) =~= lit@);
    }
    true
}

/// First occurrence of `c` in `s` at or after `i`, as `find_char` gives it.
pub fn find_char_from(s: &str, n: usize, i: usize, c: char) -> (r: Option<usize>)
    requires
        n == s@.len(),
        i <= n,
    ensures
        match r {
            Some(j) => find_char(s@, i as int, c) == Some(j as int) && i <= j < n,
            None => find_char(s@, i as int, c) is None,
        },
{
    let mut k = i;
    while k < n
        invariant
            i <= k <= n,
            n == s@.len(),
            find_char(s@, i as int, c) == find_char(s@, k as int, c),
        decreases n - k,
    {
        if s.get_char(k) == c {
            return Some(k);
        }
        k += 1;
    }
    None
}

/// First blank-line boundary in `s` at or after `i`, as `find_blank` gives
/// it.
pub fn find_blank_from(s: &str, n: usize, i: usize) -> (r: Option<usize>)
    requires
        n == s@.len(),
        i <= n,
    ensures
        match r {
            Some(j) => find_blank(s@, i as int) == Some(j as int) && i <= j && j + 1 < n,
            None => find_blank(s@, i as int) is None,
        },
{
    if n == 0 {
        return None;
    }
    let mut k = i;
    while k < n - 1
        invariant
            i <= k <= n,
            0 < n == s@.len(),
            find_blank(s@, i as int) == find_blank(s@, k as int),
        decreases n - k,
    {
        if s.get_char(k) == '\n' && s.get_char(k + 1) == '\n' {
            return Some(k);
        }
        k += 1;
    }
    None
}

/// Recognizes a fixed-length hexadecimal content hash at position `i` of
/// the input; yields the matched hash and the position just past it, or
/// nothing (allowing the caller to fail the enclosing parse) when the
/// input there is not a hash.
pub fn parse_hash(s: &str, n: usize, i: usize) -> (r: Option<(String, usize)>)
    requires
        n == s@.len(),
        i <= n,
    ensures
        match r {
            Some((h, j)) => spec_parse_hash(s@, i as int) == Some(h@) && j == i + HASH_LEN,
            None => spec_parse_hash(s@, i as int) is None,
        },
{
    if n - i < HASH_LEN {
        return None;
    }
    let mut k: usize = 0;
    while k < HASH_LEN
        invariant
            k <= HASH_LEN,
            i + HASH_LEN <= n,
            n == s@.len(),
            forall|t: int| i <= t < i + k ==> is_hex_digit(s@[t]),
        decreases HASH_LEN - k,
    {
        let c = s.get_char(i + k);
        let u = c as u32;
        if !((('0' as u32) <= u && u <= ('9' as u32)) || (('a' as u32) <= u && u <= ('f' as u32))
            || (('A' as u32) <= u && u <= ('F' as u32))) {
            return None;
        }
        k += 1;
    }
    let h = s.substring_char(i, i + HASH_LEN).to_owned();
    Some((h, i + HASH_LEN))
}

} // verus!
