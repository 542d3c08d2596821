//! Substring matching over character sequences.
//!
//! The search engine matches case-insensitively (ASCII letters compare equal
//! to their other-case form); the filter engine matches case-sensitively.
//! Both policies are specified here, each with a proved executable matcher.

use vstd::prelude::*;

verus! {

/// Code point of `c` with an ASCII upper-case letter folded to lower case.
pub open spec fn lower_code(c: char) -> int {
    if 'A' as int <= c as int && c as int <= 'Z' as int {
        c as int + 32
    } else {
        c as int
    }
}

/// `a` and `b` are equal up to ASCII case.
pub open spec fn chars_eq_ci(a: char, b: char) -> bool {
    lower_code(a) == lower_code(b)
}

/// `a` and `b` are equal character sequences up to ASCII case.
pub open spec fn seq_eq_ci(a: Seq<char>, b: Seq<char>) -> bool {
    a.len() == b.len() && forall|j: int| 0 <= j < a.len() ==> chars_eq_ci(a[j], b[j])
}

/// `t` occurs in `s` starting at position `i`.
pub open spec fn matches_at(s: Seq<char>, t: Seq<char>, i: int) -> bool {
    0 <= i && i + t.len() <= s.len() && forall|j: int| 0 <= j < t.len() ==> s[i + j] == t[j]
}

/// `t` is a substring of `s`.
pub open spec fn seq_contains(s: Seq<char>, t: Seq<char>) -> bool {
    exists|i: int| matches_at(s, t, i)
}

/// `t` occurs in `s` starting at position `i`, up to ASCII case.
pub open spec fn matches_at_ci(s: Seq<char>, t: Seq<char>, i: int) -> bool {
    0 <= i && i + t.len() <= s.len() && forall|j: int|
        0 <= j < t.len() ==> chars_eq_ci(s[i + j], t[j])
}

/// `t` is a substring of `s`, up to ASCII case.
pub open spec fn seq_contains_ci(s: Seq<char>, t: Seq<char>) -> bool {
    exists|i: int| matches_at_ci(s, t, i)
}

/// Code point of `c` folded to lower case, executably.
fn char_lower(c: char) -> (r: u32)
    ensures
        r == lower_code(c),
{
    let x: u32 = c as u32;
    if 65 <= x && x <= 90 {
        x + 32
    } else {
        x
    }
}

/// Case-insensitive character equality, executably.
fn chars_match_ci(a: char, b: char) -> (r: bool)
    ensures
        r == chars_eq_ci(a, b),
{
    char_lower(a) == char_lower(b)
}

/// String equality, character for character.
pub fn str_eq(a: &str, b: &str) -> (r: bool)
    ensures
        r == (a@ == b@),
{
    let n: usize = a.unicode_len();
    if n != b.unicode_len() {
        return false;
    }
    let mut j: usize = 0;
    while j < n
        invariant
            n == a@.len(),
            n == b@.len(),
            j <= n,
            forall|k: int| 0 <= k < j ==> a@[k] == b@[k],
        decreases n - j,
    {
        if a.get_char(j) != b.get_char(j) {
            return false;
        }
        j += 1;
    }
    proof {
        assert(a@ =~= b@);
    }
    true
}

/// Case-insensitive string equality.
pub fn str_eq_ci(a: &str, b: &str) -> (r: bool)
    ensures
        r == seq_eq_ci(a@, b@),
{
    let n: usize = a.unicode_len();
    if n != b.unicode_len() {
        return false;
    }
    let mut j: usize = 0;
    while j < n
        invariant
            n == a@.len(),
            n == b@.len(),
            j <= n,
            forall|k: int| 0 <= k < j ==> chars_eq_ci(a@[k], b@[k]),
        decreases n - j,
    {
        if !chars_match_ci(a.get_char(j), b.get_char(j)) {
            return false;
        }
        j += 1;
    }
    true
}

/// Whether `t` occurs in `s` at position `i`, case-sensitively.
fn check_match_at(s: &str, t: &str, i: usize) -> (r: bool)
    requires
        i + t@.len() <= s@.len(),
    ensures
        r == matches_at(s@, t@, i as int),
{
    let n: usize = s.unicode_len();
    let m: usize = t.unicode_len();
    let mut j: usize = 0;
    while j < m
        invariant
            n == s@.len(),
            m == t@.len(),
            i + m <= n,
            j <= m,
            forall|k: int| 0 <= k < j ==> s@[i + k] == t@[k],
        decreases m - j,
    {
        if s.get_char(i + j) != t.get_char(j) {
            return false;
        }
        j += 1;
    }
    true
}

/// Whether `t` occurs in `s` at position `i`, up to ASCII case.
fn check_match_at_ci(s: &str, t: &str, i: usize) -> (r: bool)
    requires
        i + t@.len() <= s@.len(),
    ensures
        r == matches_at_ci(s@, t@, i as int),
{
    let n: usize = s.unicode_len();
    let m: usize = t.unicode_len();
    let mut j: usize = 0;
    while j < m
        invariant
            n == s@.len(),
            m == t@.len(),
            i + m <= n,
            j <= m,
            forall|k: int| 0 <= k < j ==> chars_eq_ci(s@[i + k], t@[k]),
        decreases m - j,
    {
        if !chars_match_ci(s.get_char(i + j), t.get_char(j)) {
            return false;
        }
        j += 1;
    }
    true
}

/// Case-sensitive substring test: the filter engine's match policy.
pub fn str_contains(s: &str, t: &str) -> (r: bool)
    ensures
        r == seq_contains(s@, t@),
{
    let n: usize = s.unicode_len();
    let m: usize = t.unicode_len();
    if m > n {
        return false;
    }
    let mut i: usize = 0;
    loop
        invariant
            n == s@.len(),
            m == t@.len(),
            m <= n,
            i <= n - m + 1,
            forall|k: int| 0 <= k < i ==> !matches_at(s@, t@, k),
        decreases n - m + 1 - i,
    {
        if i > n - m {
            return false;
        }
        if check_match_at(s, t, i) {
            return true;
        }
        i += 1;
    }
}

/// Case-insensitive substring test: the search engine's match policy.
pub fn str_contains_ci(s: &str, t: &str) -> (r: bool)
    ensures
        r == seq_contains_ci(s@, t@),
{
    let n: usize = s.unicode_len();
    let m: usize = t.unicode_len();
    if m > n {
        return false;
    }
    let mut i: usize = 0;
    loop
        invariant
            n == s@.len(),
            m == t@.len(),
            m <= n,
            i <= n - m + 1,
            forall|k: int| 0 <= k < i ==> !matches_at_ci(s@, t@, k),
        decreases n - m + 1 - i,
    {
        if i > n - m {
            return false;
        }
        if check_match_at_ci(s, t, i) {
            return true;
        }
        i += 1;
    }
}

} // verus!
