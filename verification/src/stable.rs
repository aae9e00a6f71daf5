//! What it means to sort a sequence by a key without reordering equal keys.

use vstd::prelude::*;

verus! {

/// Whether the keys of `s` never descend.
pub open spec fn ordered<T>(s: Seq<T>, key: spec_fn(T) -> int) -> bool {
    forall|i: int, j: int| 0 <= i <= j < s.len() ==> key(#[trigger] s[i]) <= key(#[trigger] s[j])
}

/// The elements of `s` whose key is `k`, in the order in which `s` holds them.
pub open spec fn with_key<T>(s: Seq<T>, key: spec_fn(T) -> int, k: int) -> Seq<T>
    decreases s.len(),
{
    if s.len() == 0 {
        Seq::empty()
    } else if key(s.last()) == k {
        with_key(s.drop_last(), key, k).push(s.last())
    } else {
        with_key(s.drop_last(), key, k)
    }
}

/// Whether `sorted` is `s` sorted by `key` with equal keys left in their
/// order: the keys never descend, and for every key the elements that have it
/// are the same and stand in the same order as in `s`. There is exactly one
/// such sequence for each `s`.
pub open spec fn stably_sorted<T>(sorted: Seq<T>, s: Seq<T>, key: spec_fn(T) -> int) -> bool {
    &&& ordered(sorted, key)
    &&& forall|k: int| #[trigger] with_key(sorted, key, k) == with_key(s, key, k)
}

/// The elements with a key in two sequences put together are those in the
/// first followed by those in the second.
pub proof fn lemma_with_key_concat<T>(a: Seq<T>, b: Seq<T>, key: spec_fn(T) -> int, k: int)
    ensures
        with_key(a + b, key, k) == with_key(a, key, k) + with_key(b, key, k),
    decreases b.len(),
{
    if b.len() == 0 {
        assert(a + b =~= a);
        assert(with_key(a, key, k) + with_key(b, key, k) =~= with_key(a, key, k));
    } else {
        assert((a + b).drop_last() =~= a + b.drop_last());
        assert((a + b).last() == b.last());
        lemma_with_key_concat(a, b.drop_last(), key, k);
        if key(b.last()) == k {
            assert(with_key(a, key, k) + with_key(b.drop_last(), key, k).push(b.last()) =~= (
            with_key(a, key, k) + with_key(b.drop_last(), key, k)).push(b.last()));
        }
    }
}

/// Where no element has the key, none is found.
pub proof fn lemma_with_key_absent<T>(s: Seq<T>, key: spec_fn(T) -> int, k: int)
    requires
        forall|i: int| 0 <= i < s.len() ==> key(#[trigger] s[i]) != k,
    ensures
        with_key(s, key, k) == Seq::<T>::empty(),
    decreases s.len(),
{
    if s.len() > 0 {
        assert(key(s[s.len() - 1]) != k);
        assert forall|i: int| 0 <= i < s.drop_last().len() implies key(
            #[trigger] s.drop_last()[i],
        ) != k by {
            assert(s.drop_last()[i] == s[i]);
        }
        lemma_with_key_absent(s.drop_last(), key, k);
    }
}

/// Every element found by its key has that key and comes from the sequence.
pub proof fn lemma_with_key_members<T>(s: Seq<T>, key: spec_fn(T) -> int, k: int, i: int)
    requires
        0 <= i < with_key(s, key, k).len(),
    ensures
        key(with_key(s, key, k)[i]) == k,
        s.contains(with_key(s, key, k)[i]),
    decreases s.len(),
{
    if s.len() > 0 {
        let found = with_key(s, key, k);
        if key(s.last()) == k && i == found.len() - 1 {
            assert(s[s.len() - 1] == found[i]);
        } else {
            lemma_with_key_members(s.drop_last(), key, k, i);
            let x = with_key(s.drop_last(), key, k)[i];
            let j = choose|j: int| 0 <= j < s.drop_last().len() && s.drop_last()[j] == x;
            assert(s[j] == x);
        }
    }
}

/// The number of elements found over all keys is the length of the sequence:
/// sorting stably keeps the length.
pub proof fn lemma_stably_sorted_len<T>(sorted: Seq<T>, s: Seq<T>, key: spec_fn(T) -> int)
    requires
        stably_sorted(sorted, s, key),
    ensures
        sorted.len() == s.len(),
{
    lemma_count(sorted, s, key);
}

/// Two sequences that hold the same elements for every key have the same
/// length.
proof fn lemma_count<T>(a: Seq<T>, b: Seq<T>, key: spec_fn(T) -> int)
    requires
        forall|k: int| #[trigger] with_key(a, key, k) == with_key(b, key, k),
    ensures
        a.len() == b.len(),
    decreases a.len(),
{
    if a.len() == 0 {
        if b.len() > 0 {
            let k = key(b.last());
            assert(with_key(b, key, k).len() > 0);
            assert(with_key(a, key, k).len() == 0);
        }
    } else {
        let x = a.last();
        let k = key(x);
        assert(with_key(a, key, k) == with_key(a.drop_last(), key, k).push(x));
        assert(with_key(a, key, k).last() == x);
        assert(with_key(b, key, k) == with_key(a, key, k));
        lemma_last_with_key(b, key, k);
        let j = last_index_with_key(b, key, k);
        assert(b[j] == x);
        let b2 = b.remove(j);
        assert forall|q: int| #[trigger]
            with_key(a.drop_last(), key, q) == with_key(b2, key, q) by {
            lemma_remove_last_with_key(b, key, k, q);
            assert(with_key(a, key, q) == with_key(b, key, q));
            if q == k {
                assert(with_key(a, key, q) == with_key(a.drop_last(), key, q).push(x));
                assert(with_key(a.drop_last(), key, q).push(x).drop_last() =~= with_key(
                    a.drop_last(),
                    key,
                    q,
                ));
            } else {
                assert(with_key(a, key, q) == with_key(a.drop_last(), key, q));
            }
        }
        lemma_count(a.drop_last(), b2, key);
    }
}

/// The index of the last element of `s` that has the key `k`.
spec fn last_index_with_key<T>(s: Seq<T>, key: spec_fn(T) -> int, k: int) -> int
    decreases s.len(),
{
    if s.len() == 0 {
        -1
    } else if key(s.last()) == k {
        s.len() - 1
    } else {
        last_index_with_key(s.drop_last(), key, k)
    }
}

proof fn lemma_last_with_key<T>(s: Seq<T>, key: spec_fn(T) -> int, k: int)
    requires
        with_key(s, key, k).len() > 0,
    ensures
        0 <= last_index_with_key(s, key, k) < s.len(),
        s[last_index_with_key(s, key, k)] == with_key(s, key, k).last(),
        key(s[last_index_with_key(s, key, k)]) == k,
        forall|i: int| last_index_with_key(s, key, k) < i < s.len() ==> key(#[trigger] s[i]) != k,
    decreases s.len(),
{
    if s.len() > 0 && key(s.last()) != k {
        lemma_last_with_key(s.drop_last(), key, k);
        let j = last_index_with_key(s.drop_last(), key, k);
        assert(s.drop_last()[j] == s[j]);
        assert forall|i: int| j < i < s.len() implies key(#[trigger] s[i]) != k by {
            if i < s.len() - 1 {
                assert(s.drop_last()[i] == s[i]);
            }
        }
    }
}

/// Removing the last element that has the key `k` drops the last element
/// found for `k` and leaves what is found for every other key.
proof fn lemma_remove_last_with_key<T>(s: Seq<T>, key: spec_fn(T) -> int, k: int, q: int)
    requires
        with_key(s, key, k).len() > 0,
    ensures
        with_key(s.remove(last_index_with_key(s, key, k)), key, q) == if q == k {
            with_key(s, key, k).drop_last()
        } else {
            with_key(s, key, q)
        },
{
    lemma_last_with_key(s, key, k);
    let j = last_index_with_key(s, key, k);
    let head = s.take(j);
    let tail = s.skip(j + 1);
    assert(s.remove(j) =~= head + tail);
    assert(s =~= head.push(s[j]) + tail);
    lemma_with_key_concat(head, tail, key, q);
    lemma_with_key_concat(head.push(s[j]), tail, key, q);
    assert(head.push(s[j]).drop_last() =~= head);
    if q == k {
        assert forall|i: int| 0 <= i < tail.len() implies key(#[trigger] tail[i]) != k by {
            assert(tail[i] == s[j + 1 + i]);
        }
        lemma_with_key_absent(tail, key, k);
        assert(with_key(head, key, k) + Seq::<T>::empty() =~= with_key(head, key, k));
        assert(with_key(head, key, k).push(s[j]) + Seq::<T>::empty() =~= with_key(
            head,
            key,
            k,
        ).push(s[j]));
        assert(with_key(head, key, k).push(s[j]).drop_last() =~= with_key(head, key, k));
    }
}

/// Two ordered sequences that hold the same elements for every key, in the
/// same order, are the same sequence.
pub proof fn lemma_ordered_unique<T>(a: Seq<T>, b: Seq<T>, key: spec_fn(T) -> int)
    requires
        ordered(a, key),
        ordered(b, key),
        forall|k: int| #[trigger] with_key(a, key, k) == with_key(b, key, k),
    ensures
        a == b,
    decreases a.len(),
{
    lemma_count(a, b, key);
    if a.len() == 0 {
        assert(a =~= b);
    } else {
        let x = a.last();
        let k = key(x);
        assert(with_key(a, key, k) == with_key(a.drop_last(), key, k).push(x));
        assert(with_key(a, key, k).last() == x);
        assert(with_key(b, key, k) == with_key(a, key, k));
        lemma_last_with_key(b, key, k);
        let j = last_index_with_key(b, key, k);
        assert(b[j] == x);
        if j < b.len() - 1 {
            let y = b.last();
            let ky = key(y);
            assert(key(b[j]) <= key(b[b.len() - 1]));
            assert(ky != k);
            assert(with_key(b, key, ky) == with_key(b.drop_last(), key, ky).push(y));
            assert(with_key(a, key, ky) == with_key(b, key, ky));
            lemma_with_key_members(a, key, ky, 0);
            let z = with_key(a, key, ky)[0];
            let i = choose|i: int| 0 <= i < a.len() && a[i] == z;
            assert(key(a[i]) <= key(a[a.len() - 1]));
            assert(false);
        }
        assert(b.remove(j) =~= b.drop_last());
        assert forall|q: int| #[trigger]
            with_key(a.drop_last(), key, q) == with_key(b.drop_last(), key, q) by {
            lemma_remove_last_with_key(b, key, k, q);
            assert(with_key(a, key, q) == with_key(b, key, q));
            if q == k {
                assert(with_key(a.drop_last(), key, q).push(x).drop_last() =~= with_key(
                    a.drop_last(),
                    key,
                    q,
                ));
            } else {
                assert(with_key(a, key, q) == with_key(a.drop_last(), key, q));
            }
        }
        assert forall|m: int, n: int| 0 <= m <= n < a.drop_last().len() implies key(
            #[trigger] a.drop_last()[m],
        ) <= key(#[trigger] a.drop_last()[n]) by {
            assert(key(a[m]) <= key(a[n]));
        }
        assert forall|m: int, n: int| 0 <= m <= n < b.drop_last().len() implies key(
            #[trigger] b.drop_last()[m],
        ) <= key(#[trigger] b.drop_last()[n]) by {
            assert(key(b[m]) <= key(b[n]));
        }
        lemma_ordered_unique(a.drop_last(), b.drop_last(), key);
        assert(a =~= a.drop_last().push(x));
        assert(b =~= b.drop_last().push(x));
    }
}

/// A sequence has exactly one stable sort: two sequences that both are `s`
/// sorted stably by `key` are the same.
pub proof fn lemma_stably_sorted_unique<T>(a: Seq<T>, b: Seq<T>, s: Seq<T>, key: spec_fn(T) -> int)
    requires
        stably_sorted(a, s, key),
        stably_sorted(b, s, key),
    ensures
        a == b,
{
    assert forall|k: int| #[trigger] with_key(a, key, k) == with_key(b, key, k) by {
        assert(with_key(a, key, k) == with_key(s, key, k));
        assert(with_key(b, key, k) == with_key(s, key, k));
    }
    lemma_ordered_unique(a, b, key);
}

} // verus!
