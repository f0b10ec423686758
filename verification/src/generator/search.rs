//! Searching a sequence for the first or the last element with a property,
//! and the facts about these searches that the merge rules rest on.

use vstd::prelude::*;

verus! {

/// An index found by a search, as a mathematical integer.
pub open spec fn position(found: Option<usize>) -> Option<int> {
    match found {
        Some(i) => Some(i as int),
        None => None,
    }
}

/// The index of the first element of `s` that satisfies `p`, if there is one.
pub open spec fn first_index<T>(s: Seq<T>, p: spec_fn(T) -> bool) -> Option<int>
    decreases s.len(),
{
    if s.len() == 0 {
        None
    } else {
        match first_index(s.drop_last(), p) {
            Some(i) => Some(i),
            None => if p(s.last()) {
                Some(s.len() - 1)
            } else {
                None
            },
        }
    }
}

/// The index of the last element of `s` that satisfies `p`, if there is one.
pub open spec fn last_index<T>(s: Seq<T>, p: spec_fn(T) -> bool) -> Option<int>
    decreases s.len(),
{
    if s.len() == 0 {
        None
    } else if p(s.last()) {
        Some(s.len() - 1)
    } else {
        last_index(s.drop_last(), p)
    }
}

/// `first_index` names an element that satisfies `p` and has none before it
/// that does; it is `None` only when no element satisfies `p`.
pub proof fn lemma_first_index<T>(s: Seq<T>, p: spec_fn(T) -> bool)
    ensures
        match first_index(s, p) {
            Some(i) => 0 <= i < s.len() && p(s[i]) && forall|j: int| 0 <= j < i ==> !p(#[trigger] s[j]),
            None => forall|j: int| 0 <= j < s.len() ==> !p(#[trigger] s[j]),
        },
    decreases s.len(),
{
    if s.len() > 0 {
        let front = s.drop_last();
        lemma_first_index(front, p);
        assert(forall|j: int| 0 <= j < front.len() ==> front[j] == s[j]);
        match first_index(front, p) {
            Some(i) => {
                assert(forall|j: int| 0 <= j < i ==> !p(#[trigger] s[j])) by {
                    assert(forall|j: int| 0 <= j < i ==> front[j] == s[j]);
                }
            },
            None => {
                assert(forall|j: int| 0 <= j < front.len() ==> !p(#[trigger] s[j])) by {
                    assert(forall|j: int| 0 <= j < front.len() ==> front[j] == s[j]);
                }
            },
        }
    }
}

/// `last_index` names an element that satisfies `p` and has none after it
/// that does; it is `None` only when no element satisfies `p`.
pub proof fn lemma_last_index<T>(s: Seq<T>, p: spec_fn(T) -> bool)
    ensures
        match last_index(s, p) {
            Some(i) => 0 <= i < s.len() && p(s[i]) && forall|j: int|
                i < j < s.len() ==> !p(#[trigger] s[j]),
            None => forall|j: int| 0 <= j < s.len() ==> !p(#[trigger] s[j]),
        },
    decreases s.len(),
{
    if s.len() > 0 {
        let front = s.drop_last();
        lemma_last_index(front, p);
        assert(forall|j: int| 0 <= j < front.len() ==> front[j] == s[j]);
        if !p(s.last()) {
            match last_index(front, p) {
                Some(i) => {
                    assert forall|j: int| i < j < s.len() implies !p(#[trigger] s[j]) by {
                        if j < front.len() {
                            assert(front[j] == s[j]);
                        }
                    }
                },
                None => {
                    assert forall|j: int| 0 <= j < s.len() implies !p(#[trigger] s[j]) by {
                        if j < front.len() {
                            assert(front[j] == s[j]);
                        }
                    }
                },
            }
        }
    }
}

/// An index that satisfies `p` with none before it that does is the first index.
pub proof fn lemma_first_index_is<T>(s: Seq<T>, p: spec_fn(T) -> bool, i: int)
    requires
        0 <= i < s.len(),
        p(s[i]),
        forall|j: int| 0 <= j < i ==> !p(#[trigger] s[j]),
    ensures
        first_index(s, p) == Some(i),
{
    lemma_first_index(s, p);
}

/// Where no element satisfies `p`, there is no first index.
pub proof fn lemma_first_index_none<T>(s: Seq<T>, p: spec_fn(T) -> bool)
    requires
        forall|j: int| 0 <= j < s.len() ==> !p(#[trigger] s[j]),
    ensures
        first_index(s, p) is None,
{
    lemma_first_index(s, p);
}

/// An index that satisfies `p` with none after it that does is the last index.
pub proof fn lemma_last_index_is<T>(s: Seq<T>, p: spec_fn(T) -> bool, i: int)
    requires
        0 <= i < s.len(),
        p(s[i]),
        forall|j: int| i < j < s.len() ==> !p(#[trigger] s[j]),
    ensures
        last_index(s, p) == Some(i),
{
    lemma_last_index(s, p);
}

/// Where no element satisfies `p`, there is no last index.
pub proof fn lemma_last_index_none<T>(s: Seq<T>, p: spec_fn(T) -> bool)
    requires
        forall|j: int| 0 <= j < s.len() ==> !p(#[trigger] s[j]),
    ensures
        last_index(s, p) is None,
{
    lemma_last_index(s, p);
}

/// The indices of all elements of `s` that satisfy `p`, in increasing order.
pub open spec fn positions<T>(s: Seq<T>, p: spec_fn(T) -> bool) -> Seq<int>
    decreases s.len(),
{
    if s.len() == 0 {
        Seq::empty()
    } else if p(s.last()) {
        positions(s.drop_last(), p).push(s.len() - 1)
    } else {
        positions(s.drop_last(), p)
    }
}

/// The elements of `s` that satisfy `p`, in their order.
pub open spec fn kept<T>(s: Seq<T>, p: spec_fn(T) -> bool) -> Seq<T>
    decreases s.len(),
{
    if s.len() == 0 {
        Seq::empty()
    } else if p(s.last()) {
        kept(s.drop_last(), p).push(s.last())
    } else {
        kept(s.drop_last(), p)
    }
}

} // verus!
