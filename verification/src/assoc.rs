//! Association lists: sequences of entries, each with a key and a value, in
//! which no key occurs twice, seen as the finite map from keys to values.
use vstd::prelude::*;

verus! {

/// No two entries of `s` share a key.
pub open spec fn keys_unique<E, K>(s: Seq<E>, key: spec_fn(E) -> K) -> bool {
    forall|i: int, j: int|
        0 <= i < s.len() && 0 <= j < s.len() && i != j ==> key(s[i]) != key(s[j])
}

/// Some entry of `s` has key `k`.
pub open spec fn has_key<E, K>(s: Seq<E>, key: spec_fn(E) -> K, k: K) -> bool {
    exists|i: int| 0 <= i < s.len() && key(s[i]) == k
}

/// The map that the entries of `s` describe (a later entry wins over an earlier one).
pub open spec fn assoc_view<E, K, V>(s: Seq<E>, key: spec_fn(E) -> K, val: spec_fn(E) -> V) -> Map<
    K,
    V,
>
    decreases s.len(),
{
    if s.len() == 0 {
        Map::empty()
    } else {
        assoc_view(s.drop_last(), key, val).insert(key(s.last()), val(s.last()))
    }
}

pub proof fn lemma_assoc_view_dom<E, K, V>(
    s: Seq<E>,
    key: spec_fn(E) -> K,
    val: spec_fn(E) -> V,
    k: K,
)
    ensures
        assoc_view(s, key, val).dom().contains(k) <==> has_key(s, key, k),
    decreases s.len(),
{
    if s.len() > 0 {
        lemma_assoc_view_dom(s.drop_last(), key, val, k);
        if has_key(s, key, k) && key(s.last()) != k {
            let i = choose|i: int| 0 <= i < s.len() && key(s[i]) == k;
            assert(s.drop_last()[i] == s[i]);
        }
        if has_key(s.drop_last(), key, k) {
            let i = choose|i: int| 0 <= i < s.drop_last().len() && key(s.drop_last()[i]) == k;
            assert(s[i] == s.drop_last()[i]);
        }
    }
}

pub proof fn lemma_assoc_view_value<E, K, V>(
    s: Seq<E>,
    key: spec_fn(E) -> K,
    val: spec_fn(E) -> V,
    i: int,
)
    requires
        keys_unique(s, key),
        0 <= i < s.len(),
    ensures
        assoc_view(s, key, val).dom().contains(key(s[i])),
        assoc_view(s, key, val)[key(s[i])] == val(s[i]),
    decreases s.len(),
{
    if i < s.len() - 1 {
        assert(s.drop_last()[i] == s[i]);
        lemma_assoc_view_value(s.drop_last(), key, val, i);
    }
}

pub proof fn lemma_assoc_view_push<E, K, V>(
    s: Seq<E>,
    key: spec_fn(E) -> K,
    val: spec_fn(E) -> V,
    e: E,
)
    ensures
        assoc_view(s.push(e), key, val) == assoc_view(s, key, val).insert(key(e), val(e)),
        keys_unique(s, key) && !has_key(s, key, key(e)) ==> keys_unique(s.push(e), key),
{
    assert(s.push(e).drop_last() =~= s);
    if keys_unique(s, key) && !has_key(s, key, key(e)) {
        assert forall|i: int, j: int|
            0 <= i < s.push(e).len() && 0 <= j < s.push(e).len() && i != j implies key(
            s.push(e)[i],
        ) != key(s.push(e)[j]) by {
            if i == s.len() {
                assert(s.push(e)[j] == s[j]);
            } else if j == s.len() {
                assert(s.push(e)[i] == s[i]);
            }
        }
    }
}

pub proof fn lemma_assoc_view_remove<E, K, V>(
    s: Seq<E>,
    key: spec_fn(E) -> K,
    val: spec_fn(E) -> V,
    i: int,
)
    requires
        keys_unique(s, key),
        0 <= i < s.len(),
    ensures
        assoc_view(s.remove(i), key, val) == assoc_view(s, key, val).remove(key(s[i])),
        keys_unique(s.remove(i), key),
    decreases s.len(),
{
    let r = s.remove(i);
    assert forall|a: int, b: int|
        0 <= a < r.len() && 0 <= b < r.len() && a != b implies key(r[a]) != key(r[b]) by {
        let a0 = if a < i { a } else { a + 1 };
        let b0 = if b < i { b } else { b + 1 };
        assert(r[a] == s[a0]);
        assert(r[b] == s[b0]);
    }
    if i == s.len() - 1 {
        assert(r =~= s.drop_last());
        lemma_assoc_view_dom(s.drop_last(), key, val, key(s.last()));
        if has_key(s.drop_last(), key, key(s.last())) {
            let j = choose|j: int|
                0 <= j < s.drop_last().len() && key(s.drop_last()[j]) == key(s.last());
            assert(s[j] == s.drop_last()[j]);
        }
        assert(assoc_view(r, key, val) =~= assoc_view(s, key, val).remove(key(s[i])));
    } else {
        let d = s.drop_last();
        assert forall|a: int, b: int|
            0 <= a < d.len() && 0 <= b < d.len() && a != b implies key(d[a]) != key(d[b]) by {
            assert(d[a] == s[a]);
            assert(d[b] == s[b]);
        }
        assert(d[i] == s[i]);
        lemma_assoc_view_remove(d, key, val, i);
        assert(r.drop_last() =~= d.remove(i));
        assert(r.last() == s.last());
        assert(key(s.last()) != key(s[i]));
        assert(assoc_view(r, key, val) =~= assoc_view(s, key, val).remove(key(s[i])));
    }
}

pub proof fn lemma_assoc_view_len<E, K, V>(s: Seq<E>, key: spec_fn(E) -> K, val: spec_fn(E) -> V)
    requires
        keys_unique(s, key),
    ensures
        assoc_view(s, key, val).dom().finite(),
        assoc_view(s, key, val).dom().len() == s.len(),
    decreases s.len(),
{
    if s.len() > 0 {
        let d = s.drop_last();
        assert forall|a: int, b: int|
            0 <= a < d.len() && 0 <= b < d.len() && a != b implies key(d[a]) != key(d[b]) by {
            assert(d[a] == s[a]);
            assert(d[b] == s[b]);
        }
        lemma_assoc_view_len(d, key, val);
        lemma_assoc_view_dom(d, key, val, key(s.last()));
        if has_key(d, key, key(s.last())) {
            let j = choose|j: int| 0 <= j < d.len() && key(d[j]) == key(s.last());
            assert(d[j] == s[j]);
        }
    }
}

} // verus!
