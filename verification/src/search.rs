//! First and last positions at which a predicate holds.
//!
//! Lookups in this crate are stated with these two functions, so that "the
//! first offending node" and "the entry that was added last" mean one thing
//! everywhere.

use vstd::prelude::*;

verus! {

/// The least `k` with `lo <= k < hi` and `p(k)`, if there is one.
pub open spec fn first_index(lo: int, hi: int, p: spec_fn(int) -> bool) -> Option<int>
    decreases hi - lo,
{
    if lo >= hi {
        None
    } else if p(lo) {
        Some(lo)
    } else {
        first_index(lo + 1, hi, p)
    }
}

/// The greatest `k` with `0 <= k < hi` and `p(k)`, if there is one.
pub open spec fn last_index(hi: int, p: spec_fn(int) -> bool) -> Option<int>
    decreases hi,
{
    if hi <= 0 {
        None
    } else if p(hi - 1) {
        Some(hi - 1)
    } else {
        last_index(hi - 1, p)
    }
}

/// `first_index` returns a position where `p` holds and before which it does
/// not, or nothing when `p` holds nowhere in the range.
pub proof fn lemma_first_index(lo: int, hi: int, p: spec_fn(int) -> bool)
    ensures
        match first_index(lo, hi, p) {
            Some(k) => lo <= k < hi && p(k) && forall|j: int| lo <= j < k ==> !#[trigger] p(j),
            None => forall|j: int| lo <= j < hi ==> !#[trigger] p(j),
        },
    decreases hi - lo,
{
    if lo < hi && !p(lo) {
        lemma_first_index(lo + 1, hi, p);
    }
}

/// A position where `p` holds and before which it does not is what
/// `first_index` returns.
pub proof fn lemma_first_index_is(lo: int, hi: int, p: spec_fn(int) -> bool, k: int)
    requires
        lo <= k < hi,
        p(k),
        forall|j: int| lo <= j < k ==> !#[trigger] p(j),
    ensures
        first_index(lo, hi, p) == Some(k),
    decreases hi - lo,
{
    if lo < k {
        lemma_first_index_is(lo + 1, hi, p, k);
    }
}

/// Where `p` holds nowhere in the range, `first_index` returns nothing.
pub proof fn lemma_first_index_none(lo: int, hi: int, p: spec_fn(int) -> bool)
    requires
        forall|j: int| lo <= j < hi ==> !#[trigger] p(j),
    ensures
        first_index(lo, hi, p) is None,
    decreases hi - lo,
{
    if lo < hi {
        lemma_first_index_none(lo + 1, hi, p);
    }
}

/// `last_index` returns a position where `p` holds and after which it does
/// not, or nothing when `p` holds nowhere below `hi`.
pub proof fn lemma_last_index(hi: int, p: spec_fn(int) -> bool)
    ensures
        match last_index(hi, p) {
            Some(k) => 0 <= k < hi && p(k) && forall|j: int| k < j < hi ==> !#[trigger] p(j),
            None => forall|j: int| 0 <= j < hi ==> !#[trigger] p(j),
        },
    decreases hi,
{
    if hi > 0 && !p(hi - 1) {
        lemma_last_index(hi - 1, p);
    }
}

/// A position where `p` holds and after which it does not is what
/// `last_index` returns.
pub proof fn lemma_last_index_is(hi: int, p: spec_fn(int) -> bool, k: int)
    requires
        0 <= k < hi,
        p(k),
        forall|j: int| k < j < hi ==> !#[trigger] p(j),
    ensures
        last_index(hi, p) == Some(k),
    decreases hi,
{
    if k < hi - 1 {
        lemma_last_index_is(hi - 1, p, k);
    }
}

/// Where `p` holds nowhere below `hi`, `last_index` returns nothing.
pub proof fn lemma_last_index_none(hi: int, p: spec_fn(int) -> bool)
    requires
        forall|j: int| 0 <= j < hi ==> !#[trigger] p(j),
    ensures
        last_index(hi, p) is None,
    decreases hi,
{
    if hi > 0 {
        lemma_last_index_none(hi - 1, p);
    }
}

} // verus!
