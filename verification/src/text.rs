//! Character-level text matching: suffix tests and locating the last
//! wildcard marker in a pattern, plus lowercasing.

use vstd::prelude::*;
use vstd::string::StrSliceExecFns;

verus! {

/// `suffix` is a contiguous suffix of `s`.
pub open spec fn ends_with(s: Seq<char>, suffix: Seq<char>) -> bool {
    &&& suffix.len() <= s.len()
    &&& forall|k: int|
        0 <= k < suffix.len() ==> s[s.len() - suffix.len() + k] == suffix[k]
}

/// Index of the last `'*'` in `s`, or `-1` when `s` has none.
pub open spec fn last_star_index(s: Seq<char>) -> int
    decreases s.len(),
{
    if s.len() == 0 {
        -1
    } else if s[s.len() - 1] == '*' {
        s.len() - 1
    } else {
        last_star_index(s.drop_last())
    }
}

pub proof fn lemma_last_star_index_at(s: Seq<char>, k: int)
    requires
        0 <= k < s.len(),
        s[k] == '*',
        forall|j: int| k < j < s.len() ==> s[j] != '*',
    ensures
        last_star_index(s) == k,
    decreases s.len(),
{
    if k == s.len() - 1 {
    } else {
        assert(s[s.len() - 1] != '*');
        lemma_last_star_index_at(s.drop_last(), k);
    }
}

pub proof fn lemma_last_star_index_none(s: Seq<char>)
    requires
        forall|j: int| 0 <= j < s.len() ==> s[j] != '*',
    ensures
        last_star_index(s) == -1,
    decreases s.len(),
{
    if s.len() > 0 {
        lemma_last_star_index_none(s.drop_last());
    }
}

pub proof fn lemma_last_star_index_bounds(s: Seq<char>)
    ensures
        -1 <= last_star_index(s) < s.len(),
        last_star_index(s) >= 0 ==> s[last_star_index(s)] == '*',
    decreases s.len(),
{
    if s.len() > 0 && s[s.len() - 1] != '*' {
        lemma_last_star_index_bounds(s.drop_last());
    }
}

/// Lowercase form of a character sequence, as `str::to_lowercase` produces it.
pub uninterp spec fn lower_of(s: Seq<char>) -> Seq<char>;

/// Relies on `str::to_lowercase`: the lowercase form of a string, a function
/// of its characters alone.
#[verifier::external_body]
pub(crate) fn lowercase(s: &str) -> (r: String)
    ensures
        r@ == lower_of(s@),
{
    s.to_lowercase()
}

/// Whether `s` holds the character `c`.
pub(crate) fn contains_char(s: &str, c: char) -> (r: bool)
    ensures
        r == s@.contains(c),
{
    let n: usize = s.unicode_len();
    let mut i: usize = 0;
    while i < n
        invariant
            n == s@.len(),
            0 <= i <= n,
            forall|j: int| 0 <= j < i ==> s@[j] != c,
        decreases n - i,
    {
        if s.get_char(i) == c {
            assert(s@.contains(c)) by {
                assert(s@[i as int] == c);
            }
            return true;
        }
        i = i + 1;
    }
    false
}

/// Whether `s` ends with `suffix`.
pub(crate) fn str_ends_with(s: &str, suffix: &str) -> (r: bool)
    ensures
        r == ends_with(s@, suffix@),
{
    let n: usize = s.unicode_len();
    let m: usize = suffix.unicode_len();
    if m > n {
        return false;
    }
    let mut k: usize = 0;
    while k < m
        invariant
            n == s@.len(),
            m == suffix@.len(),
            m <= n,
            0 <= k <= m,
            forall|j: int| 0 <= j < k ==> s@[n - m + j] == suffix@[j],
        decreases m - k,
    {
        if s.get_char(n - m + k) != suffix.get_char(k) {
            return false;
        }
        k = k + 1;
    }
    true
}

/// Index of the last `'*'` in `s`, if any.
pub(crate) fn rfind_star(s: &str) -> (r: Option<usize>)
    ensures
        match r {
            Some(i) => i == last_star_index(s@),
            None => last_star_index(s@) == -1,
        },
{
    let n: usize = s.unicode_len();
    let mut i: usize = n;
    while i > 0
        invariant
            n == s@.len(),
            0 <= i <= n,
            forall|j: int| i <= j < n ==> s@[j] != '*',
        decreases i,
    {
        i = i - 1;
        if s.get_char(i) == '*' {
            proof {
                lemma_last_star_index_at(s@, i as int);
            }
            return Some(i);
        }
    }
    proof {
        lemma_last_star_index_none(s@);
    }
    None
}

} // verus!
