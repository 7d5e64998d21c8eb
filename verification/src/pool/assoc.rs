//! Sequences of keyed entries, the shape in which the pool's maps are
//! described: at most one entry for a key, in an order that means something.

use vstd::prelude::*;

verus! {

/// Whether some entry of `s` is keyed by `key`.
pub open spec fn has_key<V>(s: Seq<(Seq<char>, V)>, key: Seq<char>) -> bool {
    exists|i: int| 0 <= i < s.len() && (#[trigger] s[i]).0 == key
}

/// The place of an entry keyed by `key`, where there is one.
pub open spec fn index_of<V>(s: Seq<(Seq<char>, V)>, key: Seq<char>) -> int {
    choose|i: int| 0 <= i < s.len() && (#[trigger] s[i]).0 == key
}

/// What `key` is bound to, where it is bound.
pub open spec fn value_of<V>(s: Seq<(Seq<char>, V)>, key: Seq<char>) -> V {
    s[index_of(s, key)].1
}

/// No key occurs twice.
pub open spec fn distinct_keys<V>(s: Seq<(Seq<char>, V)>) -> bool {
    forall|i: int, j: int|
        0 <= i < s.len() && 0 <= j < s.len() && (#[trigger] s[i]).0 == (#[trigger] s[j]).0 ==> i
            == j
}

/// `s` without the entry for `key`; `s` itself where there is none.
pub open spec fn without<V>(s: Seq<(Seq<char>, V)>, key: Seq<char>) -> Seq<(Seq<char>, V)> {
    if has_key(s, key) {
        s.remove(index_of(s, key))
    } else {
        s
    }
}

/// With distinct keys, the place of a key is the one place that holds it.
pub proof fn lemma_index_of<V>(s: Seq<(Seq<char>, V)>, key: Seq<char>, i: int)
    requires
        distinct_keys(s),
        0 <= i < s.len(),
        s[i].0 == key,
    ensures
        has_key(s, key),
        index_of(s, key) == i,
        value_of(s, key) == s[i].1,
{
    let j = index_of(s, key);
    assert(0 <= j < s.len() && s[j].0 == key);
}

/// Where a key is bound, its place is a place of the sequence and holds it.
pub proof fn lemma_has_key<V>(s: Seq<(Seq<char>, V)>, key: Seq<char>)
    requires
        has_key(s, key),
    ensures
        0 <= index_of(s, key) < s.len(),
        s[index_of(s, key)].0 == key,
{
}

/// Taking an entry out leaves the keys distinct and unbinds its key only.
pub proof fn lemma_remove<V>(s: Seq<(Seq<char>, V)>, i: int)
    requires
        distinct_keys(s),
        0 <= i < s.len(),
    ensures
        distinct_keys(s.remove(i)),
        !has_key(s.remove(i), s[i].0),
        forall|k: Seq<char>| k != s[i].0 ==> has_key(s.remove(i), k) == has_key(s, k),
        forall|k: Seq<char>|
            k != s[i].0 && has_key(s, k) ==> value_of(s.remove(i), k) == value_of(s, k),
{
    let r = s.remove(i);
    assert forall|a: int, b: int|
        0 <= a < r.len() && 0 <= b < r.len() && (#[trigger] r[a]).0 == (#[trigger] r[b]).0
    implies a == b by {
        let a2 = if a < i { a } else { a + 1 };
        let b2 = if b < i { b } else { b + 1 };
        assert(r[a] == s[a2] && r[b] == s[b2]);
    }
    if has_key(r, s[i].0) {
        let a = index_of(r, s[i].0);
        let a2 = if a < i { a } else { a + 1 };
        assert(r[a] == s[a2]);
        assert(false);
    }
    assert forall|k: Seq<char>| k != s[i].0 implies has_key(r, k) == has_key(s, k) by {
        if has_key(s, k) {
            let a = index_of(s, k);
            let a2 = if a < i { a } else { a - 1 };
            assert(r[a2] == s[a]);
        }
        if has_key(r, k) {
            let a = index_of(r, k);
            let a2 = if a < i { a } else { a + 1 };
            assert(r[a] == s[a2]);
        }
    }
    assert forall|k: Seq<char>| k != s[i].0 && has_key(s, k) implies value_of(r, k) == value_of(
        s,
        k,
    ) by {
        let a = index_of(s, k);
        let a2 = if a < i { a } else { a - 1 };
        assert(r[a2] == s[a]);
        lemma_index_of(r, k, a2);
    }
}

/// Putting a fresh key in front leaves the keys distinct and binds it.
pub proof fn lemma_push_front<V>(s: Seq<(Seq<char>, V)>, key: Seq<char>, v: V)
    requires
        distinct_keys(s),
        !has_key(s, key),
    ensures
        distinct_keys(seq![(key, v)] + s),
        has_key(seq![(key, v)] + s, key),
        value_of(seq![(key, v)] + s, key) == v,
        forall|k: Seq<char>| k != key ==> has_key(seq![(key, v)] + s, k) == has_key(s, k),
        forall|k: Seq<char>|
            k != key && has_key(s, k) ==> value_of(seq![(key, v)] + s, k) == value_of(s, k),
{
    let r = seq![(key, v)] + s;
    assert forall|a: int, b: int|
        0 <= a < r.len() && 0 <= b < r.len() && (#[trigger] r[a]).0 == (#[trigger] r[b]).0
    implies a == b by {
        if a > 0 {
            assert(r[a] == s[a - 1]);
        }
        if b > 0 {
            assert(r[b] == s[b - 1]);
        }
    }
    assert(r[0].0 == key);
    lemma_index_of(r, key, 0);
    assert forall|k: Seq<char>| k != key implies has_key(r, k) == has_key(s, k) by {
        if has_key(s, k) {
            let a = index_of(s, k);
            assert(r[a + 1] == s[a]);
        }
        if has_key(r, k) {
            let a = index_of(r, k);
            assert(r[a] == s[a - 1]);
        }
    }
    assert forall|k: Seq<char>| k != key && has_key(s, k) implies value_of(r, k) == value_of(
        s,
        k,
    ) by {
        let a = index_of(s, k);
        assert(r[a + 1] == s[a]);
        lemma_index_of(r, k, a + 1);
    }
}

/// A front part of a sequence with distinct keys has distinct keys, and
/// binds no key that the whole does not bind.
pub proof fn lemma_take<V>(s: Seq<(Seq<char>, V)>, n: int)
    requires
        distinct_keys(s),
        0 <= n <= s.len(),
    ensures
        distinct_keys(s.take(n)),
        forall|k: Seq<char>| has_key(s.take(n), k) ==> has_key(s, k),
        forall|k: Seq<char>| has_key(s.take(n), k) ==> value_of(s.take(n), k) == value_of(s, k),
{
    let r = s.take(n);
    assert forall|a: int, b: int|
        0 <= a < r.len() && 0 <= b < r.len() && (#[trigger] r[a]).0 == (#[trigger] r[b]).0
    implies a == b by {
        assert(r[a] == s[a] && r[b] == s[b]);
    }
    assert forall|k: Seq<char>| has_key(r, k) implies has_key(s, k) && value_of(r, k) == value_of(
        s,
        k,
    ) by {
        let a = index_of(r, k);
        assert(r[a] == s[a]);
        lemma_index_of(s, k, a);
    }
}

/// Rebinding the key at one place changes nothing else.
pub proof fn lemma_update<V>(s: Seq<(Seq<char>, V)>, i: int, v: V)
    requires
        distinct_keys(s),
        0 <= i < s.len(),
    ensures
        distinct_keys(s.update(i, (s[i].0, v))),
        forall|k: Seq<char>| has_key(s.update(i, (s[i].0, v)), k) == has_key(s, k),
        value_of(s.update(i, (s[i].0, v)), s[i].0) == v,
        forall|k: Seq<char>|
            k != s[i].0 && has_key(s, k) ==> value_of(s.update(i, (s[i].0, v)), k) == value_of(
                s,
                k,
            ),
{
    let r = s.update(i, (s[i].0, v));
    assert forall|a: int, b: int|
        0 <= a < r.len() && 0 <= b < r.len() && (#[trigger] r[a]).0 == (#[trigger] r[b]).0
    implies a == b by {
        assert(r[a].0 == s[a].0 && r[b].0 == s[b].0);
    }
    assert forall|k: Seq<char>| has_key(r, k) == has_key(s, k) by {
        if has_key(s, k) {
            let a = index_of(s, k);
            assert(r[a].0 == s[a].0);
        }
        if has_key(r, k) {
            let a = index_of(r, k);
            assert(r[a].0 == s[a].0);
        }
    }
    lemma_index_of(r, s[i].0, i);
    assert forall|k: Seq<char>| k != s[i].0 && has_key(s, k) implies value_of(r, k) == value_of(
        s,
        k,
    ) by {
        let a = index_of(s, k);
        assert(r[a] == s[a]);
        lemma_index_of(r, k, a);
    }
}

} // verus!
