//! Stable sorting by an integer key, as insertion sort defines it: each item
//! goes after every earlier item whose key is at most its own.
use vstd::prelude::*;

verus! {

/// `sorted` with `x` placed after every item whose key is at most `x`'s.
pub open spec fn insert_by_key<T>(sorted: Seq<T>, x: T, key: spec_fn(T) -> int) -> Seq<T>
    decreases sorted.len(),
{
    if sorted.len() == 0 {
        seq![x]
    } else if key(sorted.last()) <= key(x) {
        sorted.push(x)
    } else {
        insert_by_key(sorted.drop_last(), x, key).push(sorted.last())
    }
}

/// `s` ordered by `key`; items with the same key keep their order.
pub open spec fn sort_by_key<T>(s: Seq<T>, key: spec_fn(T) -> int) -> Seq<T>
    decreases s.len(),
{
    if s.len() == 0 {
        s
    } else {
        insert_by_key(sort_by_key(s.drop_last(), key), s.last(), key)
    }
}

/// Whether the keys of `s` never decrease.
pub open spec fn is_sorted_by_key<T>(s: Seq<T>, key: spec_fn(T) -> int) -> bool {
    forall|i: int, j: int| 0 <= i < j < s.len() ==> key(s[i]) <= key(s[j])
}

/// Inserting at position `p` (after the items whose key is at most `x`'s,
/// before the others) is [`insert_by_key`].
pub proof fn lemma_insert_at<T>(sorted: Seq<T>, x: T, key: spec_fn(T) -> int, p: int)
    requires
        0 <= p <= sorted.len(),
        p > 0 ==> key(sorted[p - 1]) <= key(x),
        forall|j: int| p <= j < sorted.len() ==> key(#[trigger] sorted[j]) > key(x),
    ensures
        insert_by_key(sorted, x, key) == sorted.take(p).push(x) + sorted.skip(p),
    decreases sorted.len(),
{
    if sorted.len() == 0 {
        assert(sorted.take(p).push(x) + sorted.skip(p) =~= seq![x]);
    } else if p == sorted.len() {
        assert(sorted.take(p) =~= sorted);
        assert(sorted.take(p).push(x) + sorted.skip(p) =~= sorted.push(x));
    } else {
        let t = sorted.drop_last();
        assert(key(sorted[sorted.len() - 1]) > key(x));
        lemma_insert_at(t, x, key, p);
        assert((t.take(p).push(x) + t.skip(p)).push(sorted.last()) =~= sorted.take(p).push(x)
            + sorted.skip(p));
    }
}

/// Inserting keeps the keys in order and adds `x` to the items.
proof fn lemma_insert_sorted<T>(sorted: Seq<T>, x: T, key: spec_fn(T) -> int)
    requires
        is_sorted_by_key(sorted, key),
    ensures
        is_sorted_by_key(insert_by_key(sorted, x, key), key),
        insert_by_key(sorted, x, key).to_multiset() == sorted.to_multiset().insert(x),
    decreases sorted.len(),
{
    broadcast use vstd::seq_lib::group_to_multiset_ensures;
    if sorted.len() == 0 {
        assert(seq![x] =~= Seq::<T>::empty().push(x));
    } else if key(sorted.last()) <= key(x) {
    } else {
        let t = sorted.drop_last();
        assert(sorted =~= t.push(sorted.last()));
        lemma_insert_sorted(t, x, key);
        let r = insert_by_key(t, x, key);
        assert forall|i: int, j: int| 0 <= i < j < r.push(sorted.last()).len() implies key(
            r.push(sorted.last())[i],
        ) <= key(r.push(sorted.last())[j]) by {
            if j == r.len() {
                assert(r.to_multiset().count(r[i]) > 0);
                if r[i] != x {
                    assert(t.to_multiset().count(r[i]) > 0);
                    assert(t.contains(r[i]));
                    let k = choose|k: int| 0 <= k < t.len() && t[k] == r[i];
                    assert(sorted[k] == t[k]);
                }
            }
        }
    }
}

/// Sorting puts the keys in order and keeps the same items.
pub proof fn law_sort_by_key<T>(s: Seq<T>, key: spec_fn(T) -> int)
    ensures
        is_sorted_by_key(sort_by_key(s, key), key),
        sort_by_key(s, key).to_multiset() == s.to_multiset(),
        sort_by_key(s, key).len() == s.len(),
    decreases s.len(),
{
    broadcast use vstd::seq_lib::group_to_multiset_ensures;
    if s.len() > 0 {
        law_sort_by_key(s.drop_last(), key);
        lemma_insert_sorted(sort_by_key(s.drop_last(), key), s.last(), key);
        assert(s =~= s.drop_last().push(s.last()));
        vstd::seq_lib::to_multiset_len(sort_by_key(s, key));
        vstd::seq_lib::to_multiset_len(s);
    }
}

} // verus!
