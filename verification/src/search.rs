//! Finding the first or the last element of a sequence of which a condition
//! holds.

use vstd::prelude::*;

verus! {

/// The index of the first element of `s`, from `from` on, of which `p`
/// holds.
pub open spec fn first_index<T>(s: Seq<T>, p: spec_fn(T) -> bool, from: int) -> Option<int>
    decreases s.len() - from,
{
    if from < 0 || from >= s.len() {
        None
    } else if p(s[from]) {
        Some(from)
    } else {
        first_index(s, p, from + 1)
    }
}

/// [`first_index`] finds an element of which `p` holds and before which,
/// from `from` on, it holds of none; it finds nothing only where `p` holds of
/// none.
pub proof fn lemma_first_index<T>(s: Seq<T>, p: spec_fn(T) -> bool, from: int)
    requires
        0 <= from <= s.len(),
    ensures
        match first_index(s, p, from) {
            Some(j) => from <= j < s.len() && p(s[j]) && forall|k: int|
                from <= k < j ==> !p(#[trigger] s[k]),
            None => forall|k: int| from <= k < s.len() ==> !p(#[trigger] s[k]),
        },
    decreases s.len() - from,
{
    if from < s.len() && !p(s[from]) {
        lemma_first_index(s, p, from + 1);
    }
}

/// The index of the last of the first `n` elements of `s` of which `p`
/// holds.
pub open spec fn last_index<T>(s: Seq<T>, p: spec_fn(T) -> bool, n: int) -> Option<int>
    decreases n,
{
    if n <= 0 {
        None
    } else if p(s[n - 1]) {
        Some(n - 1)
    } else {
        last_index(s, p, n - 1)
    }
}

/// [`last_index`] finds an element of which `p` holds and after which,
/// among the first `n`, it holds of none; it finds nothing only where `p`
/// holds of none of them.
pub proof fn lemma_last_index<T>(s: Seq<T>, p: spec_fn(T) -> bool, n: int)
    requires
        0 <= n <= s.len(),
    ensures
        match last_index(s, p, n) {
            Some(j) => 0 <= j < n && p(s[j]) && forall|k: int| j < k < n ==> !p(#[trigger] s[k]),
            None => forall|k: int| 0 <= k < n ==> !p(#[trigger] s[k]),
        },
    decreases n,
{
    if n > 0 && !p(s[n - 1]) {
        lemma_last_index(s, p, n - 1);
    }
}

} // verus!
