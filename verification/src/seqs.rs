//! Facts about filtered sequences that the stores of the library rest on.

use vstd::prelude::*;

verus! {

/// Whether no two entries of `s` have the same key.
pub open spec fn distinct_keys<T, K>(s: Seq<T>, key: spec_fn(T) -> K) -> bool {
    forall|i: int, j: int| 0 <= i < j < s.len() ==> key(s[i]) != key(s[j])
}

/// The test that holds of every entry but those with the key `k`.
pub open spec fn other_key<T, K>(key: spec_fn(T) -> K, k: K) -> spec_fn(T) -> bool {
    |x: T| key(x) != k
}

/// The entries of `s` without those that have the key `k`.
pub open spec fn without_key<T, K>(s: Seq<T>, key: spec_fn(T) -> K, k: K) -> Seq<T> {
    s.filter(other_key(key, k))
}

/// The first entry of `s` that has the key `k`.
pub open spec fn first_with_key<T, K>(s: Seq<T>, key: spec_fn(T) -> K, k: K) -> Option<T>
    decreases s.len(),
{
    if s.len() == 0 {
        None
    } else if key(s[0]) == k {
        Some(s[0])
    } else {
        first_with_key(s.drop_first(), key, k)
    }
}

/// Filtering the first `k + 1` entries is filtering the first `k` and then looking at
/// the next one.
pub proof fn lemma_filter_step<T>(s: Seq<T>, k: int, pred: spec_fn(T) -> bool)
    requires
        0 <= k < s.len(),
    ensures
        s.take(k + 1).filter(pred) == if pred(s[k]) {
            s.take(k).filter(pred).push(s[k])
        } else {
            s.take(k).filter(pred)
        },
{
    assert(s.take(k + 1) =~= s.take(k).push(s[k]));
    s.take(k).lemma_filter_push(s[k], pred);
}

/// Every entry that a filter keeps passes the test and comes from the filtered
/// sequence.
pub proof fn lemma_filter_members<T>(s: Seq<T>, pred: spec_fn(T) -> bool)
    ensures
        forall|i: int|
            0 <= i < s.filter(pred).len() ==> pred(#[trigger] s.filter(pred)[i]) && s.contains(
                s.filter(pred)[i],
            ),
    decreases s.len(),
{
    reveal(Seq::filter);
    if s.len() > 0 {
        let front = s.drop_last();
        let kept = front.filter(pred);
        lemma_filter_members(front, pred);
        assert forall|i: int| 0 <= i < s.filter(pred).len() implies pred(
            #[trigger] s.filter(pred)[i],
        ) && s.contains(s.filter(pred)[i]) by {
            if i < kept.len() {
                assert(s.filter(pred)[i] == kept[i]);
                assert(front.contains(kept[i]));
                let w = choose|w: int| 0 <= w < front.len() && front[w] == kept[i];
                assert(s[w] == kept[i]);
            } else {
                assert(s.filter(pred)[i] == s[s.len() - 1]);
            }
        }
    }
}

/// A filter keeps keys distinct.
pub proof fn lemma_filter_distinct<T, K>(s: Seq<T>, key: spec_fn(T) -> K, pred: spec_fn(T) -> bool)
    requires
        distinct_keys(s, key),
    ensures
        distinct_keys(s.filter(pred), key),
    decreases s.len(),
{
    reveal(Seq::filter);
    if s.len() > 0 {
        let front = s.drop_last();
        assert forall|i: int, j: int| 0 <= i < j < front.len() implies key(front[i]) != key(
            front[j],
        ) by {
            assert(front[i] == s[i] && front[j] == s[j]);
        }
        lemma_filter_distinct(front, key, pred);
        lemma_filter_members(front, pred);
        let kept = front.filter(pred);
        if pred(s.last()) {
            assert forall|i: int, j: int| 0 <= i < j < s.filter(pred).len() implies key(
                s.filter(pred)[i],
            ) != key(s.filter(pred)[j]) by {
                if j == kept.len() {
                    assert(front.contains(kept[i]));
                    let w = choose|w: int| 0 <= w < front.len() && front[w] == kept[i];
                    assert(s[w] == kept[i]);
                } else {
                    assert(s.filter(pred)[i] == kept[i]);
                    assert(s.filter(pred)[j] == kept[j]);
                }
            }
        }
    }
}

/// Taking out a key and then adding one entry under it keeps keys distinct.
pub proof fn lemma_replace_distinct<T, K>(s: Seq<T>, key: spec_fn(T) -> K, x: T)
    requires
        distinct_keys(s, key),
    ensures
        distinct_keys(without_key(s, key, key(x)).push(x), key),
        distinct_keys(without_key(s, key, key(x)), key),
{
    let pred = other_key(key, key(x));
    lemma_filter_distinct(s, key, pred);
    lemma_filter_members(s, pred);
    let kept = s.filter(pred);
    let out = kept.push(x);
    assert forall|i: int, j: int| 0 <= i < j < out.len() implies key(out[i]) != key(out[j]) by {
        if j == kept.len() {
            assert(pred(kept[i]));
        } else {
            assert(out[i] == kept[i] && out[j] == kept[j]);
        }
    }
}

/// After a key is taken out, no entry has it.
pub proof fn lemma_without_key_absent<T, K>(s: Seq<T>, key: spec_fn(T) -> K, k: K)
    ensures
        forall|i: int|
            0 <= i < without_key(s, key, k).len() ==> key(#[trigger] without_key(s, key, k)[i])
                != k,
{
    lemma_filter_members(s, other_key(key, k));
}

/// Adding an entry at the end does not change which entry is the first under another
/// key, and makes it the first under its own key where there was none.
pub proof fn lemma_first_after_push<T, K>(s: Seq<T>, key: spec_fn(T) -> K, x: T, k: K)
    ensures
        first_with_key(s.push(x), key, k) == if first_with_key(s, key, k) is Some {
            first_with_key(s, key, k)
        } else if key(x) == k {
            Some(x)
        } else {
            None
        },
    decreases s.len(),
{
    if s.len() == 0 {
        assert(s.push(x).drop_first() =~= s);
    } else {
        assert(s.push(x).drop_first() =~= s.drop_first().push(x));
        lemma_first_after_push(s.drop_first(), key, x, k);
    }
}

/// Taking out the key `gone` leaves no entry under it, and does not change which entry
/// is the first under any other key.
pub proof fn lemma_first_after_without<T, K>(s: Seq<T>, key: spec_fn(T) -> K, gone: K, k: K)
    ensures
        first_with_key(without_key(s, key, gone), key, k) == if k == gone {
            None
        } else {
            first_with_key(s, key, k)
        },
    decreases s.len(),
{
    let pred = other_key(key, gone);
    if s.len() == 0 {
        reveal(Seq::filter);
    } else {
        let head = seq![s[0]];
        let rest = s.drop_first();
        assert(s =~= head + rest);
        Seq::filter_distributes_over_add(head, rest, pred);
        assert(head.filter(pred) =~= if pred(s[0]) {
            head
        } else {
            Seq::empty()
        }) by {
            reveal(Seq::filter);
            assert(head.drop_last() =~= Seq::<T>::empty());
            assert(head.drop_last().filter(pred) =~= Seq::<T>::empty());
        }
        lemma_first_after_without(rest, key, gone, k);
        if pred(s[0]) {
            assert((head + rest.filter(pred)).drop_first() =~= rest.filter(pred));
        } else {
            assert(Seq::<T>::empty() + rest.filter(pred) =~= rest.filter(pred));
        }
    }
}

/// After the entries under the key of `x` are replaced by `x`, `x` is what is found
/// under its key, and every other key finds what it found before.
pub proof fn lemma_first_after_replace<T, K>(s: Seq<T>, key: spec_fn(T) -> K, x: T, k: K)
    ensures
        first_with_key(without_key(s, key, key(x)).push(x), key, k) == if k == key(x) {
            Some(x)
        } else {
            first_with_key(s, key, k)
        },
{
    lemma_first_after_without(s, key, key(x), k);
    lemma_first_after_push(without_key(s, key, key(x)), key, x, k);
}

} // verus!
