//! Mathematical descriptions of the three annotated forms of a sequence, and
//! the laws the adapters are proved against.

use vstd::prelude::*;

verus! {

/// The sequence `s` with each element paired with its is-first flag: true
/// exactly at index 0.
pub open spec fn mark_first<T>(s: Seq<T>) -> Seq<(T, bool)> {
    Seq::new(s.len(), |i: int| (s[i], i == 0))
}

/// The sequence `s` with each element paired with its is-last flag: true
/// exactly at the final index.
pub open spec fn mark_last<T>(s: Seq<T>) -> Seq<(T, bool)> {
    Seq::new(s.len(), |i: int| (s[i], i == s.len() - 1))
}

/// The sequence `s` with each element extended to a triple of the element,
/// its is-first flag and its is-last flag.
pub open spec fn mark_first_last<T>(s: Seq<T>) -> Seq<(T, bool, bool)> {
    Seq::new(s.len(), |i: int| (s[i], i == 0, i == s.len() - 1))
}

/// Is-first flags relative to the state of a first-marking adapter: when
/// `pending` is false the first element has already been emitted, so none of
/// the remaining elements is flagged.
pub open spec fn flag_first<T>(s: Seq<T>, pending: bool) -> Seq<(T, bool)> {
    Seq::new(s.len(), |i: int| (s[i], pending && i == 0))
}

/// The elements still to come out of a look-ahead adapter: the buffered
/// element, if any, followed by the source's remaining elements.
pub open spec fn buffered<T>(slot: Option<T>, rest: Seq<T>) -> Seq<T> {
    match slot {
        Some(x) => seq![x] + rest,
        None => rest,
    }
}

/// Nested pairs `((element, is_last), is_first)`, as produced by a
/// first-marking adapter over a last-marking one, re-paired into flat
/// `(element, is_first, is_last)` triples.
pub open spec fn repaired<T>(s: Seq<((T, bool), bool)>) -> Seq<(T, bool, bool)> {
    Seq::new(s.len(), |i: int| (s[i].0.0, s[i].1, s[i].0.1))
}

/// None of the annotated forms adds or removes elements: each has exactly
/// the length of the sequence it annotates.
pub proof fn lemma_mark_lengths<T>(s: Seq<T>)
    ensures
        mark_first(s).len() == s.len(),
        mark_last(s).len() == s.len(),
        mark_first_last(s).len() == s.len(),
{
}

/// Marking first elements preserves length and elements, and flags exactly
/// the element at index 0.
pub proof fn lemma_mark_first_flags<T>(s: Seq<T>)
    requires
        s.len() >= 1,
    ensures
        mark_first(s).len() == s.len(),
        forall|i: int| 0 <= i < s.len() ==> #[trigger] mark_first(s)[i].0 == s[i],
        forall|i: int| 0 <= i < s.len() ==> #[trigger] mark_first(s)[i].1 == (i == 0),
{
}

/// Marking last elements preserves length and elements, and flags exactly
/// the element at the final index.
pub proof fn lemma_mark_last_flags<T>(s: Seq<T>)
    requires
        s.len() >= 1,
    ensures
        mark_last(s).len() == s.len(),
        forall|i: int| 0 <= i < s.len() ==> #[trigger] mark_last(s)[i].0 == s[i],
        forall|i: int| 0 <= i < s.len() ==> #[trigger] mark_last(s)[i].1 == (i == s.len() - 1),
{
}

/// Marking both ends preserves length and elements and combines the two
/// flags of `mark_first` and `mark_last` per index; a single element is
/// flagged as both first and last.
pub proof fn lemma_mark_first_last_flags<T>(s: Seq<T>)
    requires
        s.len() >= 1,
    ensures
        mark_first_last(s).len() == s.len(),
        forall|i: int| 0 <= i < s.len() ==> #[trigger] mark_first_last(s)[i].0 == s[i],
        forall|i: int| 0 <= i < s.len() ==> #[trigger] mark_first_last(s)[i].1 == mark_first(
            s,
        )[i].1,
        forall|i: int| 0 <= i < s.len() ==> #[trigger] mark_first_last(s)[i].2 == mark_last(
            s,
        )[i].1,
        s.len() == 1 ==> mark_first_last(s)[0] == (s[0], true, true),
{
}

} // verus!
