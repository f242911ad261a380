//! Ordered searches over sequences, shared by the lookups of the runtime.

use vstd::prelude::*;

verus! {

/// The first index at or after `from` whose element satisfies `p`, or the
/// sequence length when no such element exists.
pub open spec fn first_from<T>(s: Seq<T>, from: int, p: spec_fn(T) -> bool) -> int
    decreases s.len() - from,
{
    if from < 0 || from >= s.len() {
        s.len() as int
    } else if p(s[from]) {
        from
    } else {
        first_from(s, from + 1, p)
    }
}

/// `first_from` lies in `[from, len]`, satisfies `p` when it is not the
/// length, and nothing before it (from `from` on) satisfies `p`.
pub proof fn lemma_first_from<T>(s: Seq<T>, from: int, p: spec_fn(T) -> bool)
    requires
        0 <= from <= s.len(),
    ensures
        from <= first_from(s, from, p) <= s.len(),
        first_from(s, from, p) < s.len() ==> p(s[first_from(s, from, p)]),
        forall|i: int| from <= i < first_from(s, from, p) ==> !p(#[trigger] s[i]),
    decreases s.len() - from,
{
    if from < s.len() && !p(s[from]) {
        lemma_first_from(s, from + 1, p);
    }
}

/// Any index in `[from, len]` before which nothing satisfies `p`, and which is
/// either the length or satisfies `p` itself, is `first_from`.
pub proof fn lemma_first_from_unique<T>(s: Seq<T>, from: int, k: int, p: spec_fn(T) -> bool)
    requires
        0 <= from <= k <= s.len(),
        k < s.len() ==> p(s[k]),
        forall|i: int| from <= i < k ==> !p(#[trigger] s[i]),
    ensures
        first_from(s, from, p) == k,
    decreases s.len() - from,
{
    if from < k {
        assert(!p(s[from]));
        lemma_first_from_unique(s, from + 1, k, p);
    }
}

} // verus!
