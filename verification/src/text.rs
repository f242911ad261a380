//! Character-level comparisons used by labels, CVar names and asset paths.

use vstd::prelude::*;
use vstd::string::StrSliceExecFns;

verus! {

/// ASCII case folding of one character; other characters are unchanged.
pub open spec fn fold_ascii(c: char) -> char {
    if 'A' <= c && c <= 'Z' {
        ((c as u32) + 32) as char
    } else {
        c
    }
}

/// `eq_ignore_ascii_case`: equal lengths and equal characters after folding
/// ASCII letters.
pub open spec fn eq_ignore_ascii_case(a: Seq<char>, b: Seq<char>) -> bool {
    &&& a.len() == b.len()
    &&& forall|i: int| 0 <= i < a.len() ==> fold_ascii(#[trigger] a[i]) == fold_ascii(b[i])
}

/// `ends_with`: `suffix` is the tail of `s`.
pub open spec fn ends_with(s: Seq<char>, suffix: Seq<char>) -> bool {
    suffix.len() <= s.len() && s.subrange(s.len() - suffix.len(), s.len() as int) == suffix
}

pub fn fold_ascii_char(c: char) -> (folded: char)
    ensures
        folded == fold_ascii(c),
{
    if 'A' <= c && c <= 'Z' {
        let code: u8 = (c as u32 + 32) as u8;
        code as char
    } else {
        c
    }
}

/// The first index at or after `i` where `a` and `b` differ, or the length
/// of the shorter one.
pub open spec fn first_difference(a: Seq<char>, b: Seq<char>, i: int) -> int
    decreases a.len() - i,
{
    if i < 0 || i >= a.len() || i >= b.len() || a[i] != b[i] {
        i
    } else {
        first_difference(a, b, i + 1)
    }
}

/// The order of `str`: lexicographic by code point (the order of its UTF-8
/// bytes), a proper prefix first.
pub open spec fn str_less(a: Seq<char>, b: Seq<char>) -> bool {
    let k = first_difference(a, b, 0);
    if k < a.len() && k < b.len() {
        a[k] < b[k]
    } else {
        a.len() < b.len()
    }
}

pub proof fn lemma_first_difference(a: Seq<char>, b: Seq<char>, i: int)
    requires
        0 <= i <= a.len(),
        i <= b.len(),
    ensures
        i <= first_difference(a, b, i) <= a.len(),
        first_difference(a, b, i) <= b.len(),
        forall|j: int| i <= j < first_difference(a, b, i) ==> a[j] == b[j],
        first_difference(a, b, i) < a.len() && first_difference(a, b, i) < b.len() ==> a[first_difference(a, b, i)]
            != b[first_difference(a, b, i)],
    decreases a.len() - i,
{
    if i < a.len() && i < b.len() && a[i] == b[i] {
        lemma_first_difference(a, b, i + 1);
    }
}

/// Any index up to which `a` and `b` agree and at which they differ (or one
/// ends) is their first difference.
pub proof fn lemma_first_difference_unique(a: Seq<char>, b: Seq<char>, r: int)
    requires
        0 <= r <= a.len(),
        r <= b.len(),
        forall|j: int| 0 <= j < r ==> a[j] == b[j],
        r < a.len() && r < b.len() ==> a[r] != b[r],
    ensures
        first_difference(a, b, 0) == r,
{
    lemma_first_difference(a, b, 0);
}

/// Distinct strings are ordered one way, never both.
pub proof fn lemma_str_less_total(a: Seq<char>, b: Seq<char>)
    ensures
        a != b ==> str_less(a, b) || str_less(b, a),
        !(str_less(a, b) && str_less(b, a)),
{
    lemma_first_difference(a, b, 0);
    let r = first_difference(a, b, 0);
    lemma_first_difference_unique(b, a, r);
    if r == a.len() && r == b.len() {
        assert(a =~= b);
    }
}

pub proof fn lemma_str_less_transitive(a: Seq<char>, b: Seq<char>, c: Seq<char>)
    requires
        str_less(a, b),
        str_less(b, c),
    ensures
        str_less(a, c),
{
    lemma_first_difference(a, b, 0);
    lemma_first_difference(b, c, 0);
    let p = first_difference(a, b, 0);
    let q = first_difference(b, c, 0);
    let r = if p <= q {
        p
    } else {
        q
    };
    assert(forall|j: int| 0 <= j < r ==> a[j] == b[j] && b[j] == c[j]);
    lemma_first_difference_unique(a, c, r);
}

/// Whether `a` orders before `b` as a `str`.
pub fn str_lt(a: &str, b: &str) -> (less: bool)
    ensures
        less == str_less(a@, b@),
{
    let n = a.unicode_len();
    let m = b.unicode_len();
    let mut i: usize = 0;
    while i < n && i < m && a.get_char(i) == b.get_char(i)
        invariant
            n == a@.len(),
            m == b@.len(),
            0 <= i <= n,
            i <= m,
            forall|j: int| 0 <= j < i ==> a@[j] == b@[j],
        decreases n - i,
    {
        i += 1;
    }
    proof {
        lemma_first_difference_unique(a@, b@, i as int);
    }
    if i < n && i < m {
        a.get_char(i) < b.get_char(i)
    } else {
        n < m
    }
}

/// Exact string equality.
pub fn str_equal(a: &str, b: &str) -> (equal: bool)
    ensures
        equal == (a@ == b@),
{
    let n = a.unicode_len();
    if n != b.unicode_len() {
        return false;
    }
    let mut i: usize = 0;
    while i < n
        invariant
            n == a@.len(),
            n == b@.len(),
            0 <= i <= n,
            forall|j: int| 0 <= j < i ==> a@[j] == b@[j],
        decreases n - i,
    {
        if a.get_char(i) != b.get_char(i) {
            return false;
        }
        i += 1;
    }
    assert(a@ =~= b@);
    true
}

/// `str::eq_ignore_ascii_case`.
pub fn str_eq_ignore_ascii_case(a: &str, b: &str) -> (equal: bool)
    ensures
        equal == eq_ignore_ascii_case(a@, b@),
{
    let n = a.unicode_len();
    if n != b.unicode_len() {
        return false;
    }
    let mut i: usize = 0;
    while i < n
        invariant
            n == a@.len(),
            n == b@.len(),
            0 <= i <= n,
            forall|j: int| 0 <= j < i ==> fold_ascii(#[trigger] a@[j]) == fold_ascii(b@[j]),
        decreases n - i,
    {
        if fold_ascii_char(a.get_char(i)) != fold_ascii_char(b.get_char(i)) {
            return false;
        }
        i += 1;
    }
    true
}

/// `str::ends_with` for a string suffix.
pub fn str_ends_with(s: &str, suffix: &str) -> (ends: bool)
    ensures
        ends == ends_with(s@, suffix@),
{
    let n = s.unicode_len();
    let m = suffix.unicode_len();
    if m > n {
        return false;
    }
    let offset = n - m;
    let mut i: usize = 0;
    while i < m
        invariant
            n == s@.len(),
            m == suffix@.len(),
            offset == n - m,
            0 <= i <= m,
            forall|j: int| 0 <= j < i ==> s@[offset + j] == suffix@[j],
        decreases m - i,
    {
        if s.get_char(offset + i) != suffix.get_char(i) {
            assert(s@.subrange(offset as int, n as int)[i as int] != suffix@[i as int]);
            return false;
        }
        i += 1;
    }
    assert(s@.subrange(offset as int, n as int) =~= suffix@);
    true
}

} // verus!
