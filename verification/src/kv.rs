//! Specification-level model of an insertion-ordered key/value store.
//!
//! Every registry in this crate (resource loaders, the subject registry, the
//! pipeline cache, the texture binding cache) keeps its entries as a sequence
//! of key/value pairs in first-insertion order.  These spec functions define
//! lookup, insertion (replace in place, never reorder) and order-preserving
//! removal over such sequences, together with the lemmas the executable
//! implementations need.

use vstd::prelude::*;

verus! {

/// Index of the first entry with key `k`, or -1 if there is none.
pub open spec fn kv_index_of<K, V>(s: Seq<(K, V)>, k: K) -> int
    decreases s.len(),
{
    if s.len() == 0 {
        -1
    } else if s[0].0 == k {
        0
    } else {
        let r = kv_index_of(s.drop_first(), k);
        if r == -1 {
            -1
        } else {
            r + 1
        }
    }
}

pub open spec fn kv_contains<K, V>(s: Seq<(K, V)>, k: K) -> bool {
    kv_index_of(s, k) >= 0
}

/// Value of the first entry with key `k`.
pub open spec fn kv_get<K, V>(s: Seq<(K, V)>, k: K) -> Option<V> {
    if kv_contains(s, k) {
        Some(s[kv_index_of(s, k)].1)
    } else {
        None
    }
}

/// The keys, in entry order.
pub open spec fn kv_keys<K, V>(s: Seq<(K, V)>) -> Seq<K> {
    s.map_values(|p: (K, V)| p.0)
}

/// Ordered-map insertion: an existing key is overwritten in place, a new key
/// is appended at the end.
pub open spec fn kv_insert<K, V>(s: Seq<(K, V)>, k: K, v: V) -> Seq<(K, V)> {
    if kv_contains(s, k) {
        s.update(kv_index_of(s, k), (k, v))
    } else {
        s.push((k, v))
    }
}

/// Order-preserving removal of the first entry with key `k`.
pub open spec fn kv_remove<K, V>(s: Seq<(K, V)>, k: K) -> Seq<(K, V)> {
    if kv_contains(s, k) {
        s.remove(kv_index_of(s, k))
    } else {
        s
    }
}

/// The basic facts about `kv_index_of`: when it is nonnegative it is a valid
/// index whose entry carries the key, and every earlier entry does not.
pub proof fn lemma_kv_index_of<K, V>(s: Seq<(K, V)>, k: K)
    ensures
        kv_index_of(s, k) >= 0 ==> kv_index_of(s, k) < s.len() && s[kv_index_of(s, k)].0 == k,
        kv_index_of(s, k) >= 0 ==> forall|j: int|
            0 <= j < kv_index_of(s, k) ==> s[j].0 != k,
        kv_index_of(s, k) == -1 ==> forall|j: int| 0 <= j < s.len() ==> s[j].0 != k,
        kv_index_of(s, k) >= -1,
    decreases s.len(),
{
    if s.len() > 0 && s[0].0 != k {
        let t = s.drop_first();
        lemma_kv_index_of(t, k);
        let r = kv_index_of(t, k);
        if r == -1 {
            assert forall|j: int| 0 <= j < s.len() implies s[j].0 != k by {
                if j >= 1 {
                    assert(s[j] == t[j - 1]);
                }
            }
        } else {
            assert(s[r + 1] == t[r]);
            assert forall|j: int| 0 <= j < r + 1 implies s[j].0 != k by {
                if j >= 1 {
                    assert(s[j] == t[j - 1]);
                }
            }
        }
    }
}

/// A scan that saw keys different from `k` on all of `s[0..i]` and then found
/// `k` at `i` has found the first occurrence.
pub proof fn lemma_kv_index_of_found<K, V>(s: Seq<(K, V)>, k: K, i: int)
    requires
        0 <= i < s.len(),
        s[i].0 == k,
        forall|j: int| 0 <= j < i ==> s[j].0 != k,
    ensures
        kv_index_of(s, k) == i,
        kv_get(s, k) == Some(s[i].1),
    decreases i,
{
    if i == 0 {
    } else {
        lemma_kv_index_of_found(s.drop_first(), k, i - 1);
    }
}

/// A scan that saw keys different from `k` everywhere proves absence.
pub proof fn lemma_kv_index_of_absent<K, V>(s: Seq<(K, V)>, k: K)
    requires
        forall|j: int| 0 <= j < s.len() ==> s[j].0 != k,
    ensures
        kv_index_of(s, k) == -1,
        kv_get(s, k) is None,
    decreases s.len(),
{
    if s.len() > 0 {
        lemma_kv_index_of_absent(s.drop_first(), k);
    }
}

/// Insertion leaves every other key's binding alone and keeps the key order,
/// except that a genuinely new key is appended.
pub proof fn lemma_kv_insert<K, V>(s: Seq<(K, V)>, k: K, v: V)
    ensures
        kv_get(kv_insert(s, k, v), k) == Some(v),
        forall|k2: K| k2 != k ==> kv_get(kv_insert(s, k, v), k2) == kv_get(s, k2),
        kv_contains(s, k) ==> kv_keys(kv_insert(s, k, v)) == kv_keys(s),
        !kv_contains(s, k) ==> kv_keys(kv_insert(s, k, v)) == kv_keys(s).push(k),
{
    lemma_kv_index_of(s, k);
    let s2 = kv_insert(s, k, v);
    if kv_contains(s, k) {
        let i = kv_index_of(s, k);
        assert(kv_keys(s2) =~= kv_keys(s));
        lemma_kv_index_of_found(s2, k, i);
        assert forall|k2: K| k2 != k implies kv_get(s2, k2) == kv_get(s, k2) by {
            lemma_kv_unchanged_entries(s, s2, k2);
        }
    } else {
        assert(kv_keys(s2) =~= kv_keys(s).push(k));
        lemma_kv_index_of(s2, k);
        lemma_kv_index_of_found(s2, k, s.len() as int);
        assert forall|k2: K| k2 != k implies kv_get(s2, k2) == kv_get(s, k2) by {
            lemma_kv_unchanged_entries(s, s2, k2);
        }
    }
}

/// If two sequences agree on every entry that carries key `k2` (same first
/// occurrence at the same index, no other occurrences disturbed), the lookup
/// agrees.  Used with `s2` equal to `s` except at one index whose key is not
/// `k2`, or with one appended pair whose key is not `k2`.
proof fn lemma_kv_unchanged_entries<K, V>(s: Seq<(K, V)>, s2: Seq<(K, V)>, k2: K)
    requires
        s2.len() >= s.len(),
        forall|j: int| 0 <= j < s.len() && s[j].0 == k2 ==> s2[j] == s[j],
        forall|j: int| 0 <= j < s.len() && s2[j].0 == k2 ==> s2[j] == s[j],
        forall|j: int| s.len() <= j < s2.len() ==> s2[j].0 != k2,
    ensures
        kv_get(s2, k2) == kv_get(s, k2),
    decreases s.len(),
{
    lemma_kv_index_of(s, k2);
    lemma_kv_index_of(s2, k2);
    if kv_contains(s, k2) {
        let i = kv_index_of(s, k2);
        lemma_kv_index_of_found(s2, k2, i);
    } else {
        lemma_kv_index_of_absent(s2, k2);
    }
}

/// Removal keeps the other keys' bindings and drops exactly the removed key
/// from the key order.
pub proof fn lemma_kv_remove<K, V>(s: Seq<(K, V)>, k: K)
    requires
        kv_distinct_keys(s),
    ensures
        kv_get(kv_remove(s, k), k) is None,
        forall|k2: K| k2 != k ==> kv_get(kv_remove(s, k), k2) == kv_get(s, k2),
        kv_keys(kv_remove(s, k)) == kv_keys(s).filter(|x: K| x != k),
        kv_distinct_keys(kv_remove(s, k)),
{
    lemma_kv_index_of(s, k);
    let s2 = kv_remove(s, k);
    if kv_contains(s, k) {
        let i = kv_index_of(s, k);
        assert forall|j: int| 0 <= j < s2.len() implies s2[j].0 != k by {
            if j >= i {
                assert(s2[j] == s[j + 1]);
            }
        }
        lemma_kv_index_of_absent(s2, k);
        assert forall|k2: K| k2 != k implies kv_get(s2, k2) == kv_get(s, k2) by {
            lemma_kv_index_of(s, k2);
            lemma_kv_index_of(s2, k2);
            if kv_contains(s, k2) {
                let i2 = kv_index_of(s, k2);
                if i2 < i {
                    lemma_kv_index_of_found(s2, k2, i2);
                } else {
                    assert(i2 != i);
                    assert(s2[i2 - 1] == s[i2]);
                    assert forall|j: int| 0 <= j < i2 - 1 implies s2[j].0 != k2 by {
                        if j >= i {
                            assert(s2[j] == s[j + 1]);
                        }
                    }
                    lemma_kv_index_of_found(s2, k2, i2 - 1);
                }
            } else {
                assert forall|j: int| 0 <= j < s2.len() implies s2[j].0 != k2 by {
                    if j >= i {
                        assert(s2[j] == s[j + 1]);
                    }
                }
                lemma_kv_index_of_absent(s2, k2);
            }
        }
        lemma_kv_remove_keys_filter(s, k, i);
    } else {
        lemma_kv_index_of_absent(s, k);
        assert(kv_keys(s2) =~= kv_keys(s).filter(|x: K| x != k)) by {
            lemma_filter_all_kept(kv_keys(s), k);
        }
    }
}

/// Keys are pairwise distinct.
pub open spec fn kv_distinct_keys<K, V>(s: Seq<(K, V)>) -> bool {
    forall|i: int, j: int| 0 <= i < j < s.len() ==> s[i].0 != s[j].0
}

/// Filtering a sequence that nowhere carries `k` keeps it unchanged.
proof fn lemma_filter_all_kept<K>(s: Seq<K>, k: K)
    requires
        forall|j: int| 0 <= j < s.len() ==> s[j] != k,
    ensures
        s.filter(|x: K| x != k) == s,
    decreases s.len(),
{
    reveal(Seq::filter);
    if s.len() > 0 {
        lemma_filter_all_kept(s.drop_last(), k);
        assert(s.drop_last().push(s.last()) =~= s);
    }
}

/// Removing the only entry with key `k` filters exactly that key out of the
/// key order.
proof fn lemma_kv_remove_keys_filter<K, V>(s: Seq<(K, V)>, k: K, i: int)
    requires
        kv_distinct_keys(s),
        0 <= i < s.len(),
        s[i].0 == k,
    ensures
        kv_keys(s.remove(i)) == kv_keys(s).filter(|x: K| x != k),
    decreases s.len(),
{
    reveal(Seq::filter);
    let keys = kv_keys(s);
    assert(keys.last() == s.last().0);
    assert(keys.drop_last() =~= kv_keys(s.drop_last()));
    if i == s.len() - 1 {
        assert(keys.last() == k);
        assert forall|j: int| 0 <= j < keys.drop_last().len() implies keys.drop_last()[j] != k by {
            assert(keys.drop_last()[j] == s[j].0);
        }
        lemma_filter_all_kept(keys.drop_last(), k);
        assert(kv_keys(s.remove(i)) =~= keys.drop_last());
    } else {
        assert(s.last().0 != k);
        lemma_kv_remove_keys_filter(s.drop_last(), k, i);
        assert(kv_keys(s.remove(i)) =~= kv_keys(s.drop_last().remove(i)).push(s.last().0));
    }
}


/// Where an entry stands depends only on the key order, not on the
/// values.
pub proof fn lemma_kv_index_of_same_keys<K, V, W>(a: Seq<(K, V)>, b: Seq<(K, W)>, k: K)
    requires
        kv_keys(a) == kv_keys(b),
    ensures
        kv_index_of(a, k) == kv_index_of(b, k),
    decreases a.len(),
{
    assert(a.len() == kv_keys(a).len());
    assert(b.len() == kv_keys(b).len());
    if a.len() > 0 {
        assert(a[0].0 == kv_keys(a)[0]);
        assert(b[0].0 == kv_keys(b)[0]);
        if a[0].0 != k {
            assert(kv_keys(a.drop_first()) =~= kv_keys(a).drop_first());
            assert(kv_keys(b.drop_first()) =~= kv_keys(b).drop_first());
            lemma_kv_index_of_same_keys(a.drop_first(), b.drop_first(), k);
        }
    }
}

/// Where a surviving entry stands after a removal: entries before the
/// removed one keep their index, entries after it move up by one.
pub proof fn lemma_kv_remove_index<K, V>(s: Seq<(K, V)>, k: K, k1: K)
    requires
        kv_distinct_keys(s),
        kv_contains(s, k),
        kv_contains(s, k1),
        k1 != k,
    ensures
        kv_index_of(kv_remove(s, k), k1) == (if kv_index_of(s, k1) < kv_index_of(s, k) {
            kv_index_of(s, k1)
        } else {
            kv_index_of(s, k1) - 1
        }),
{
    lemma_kv_index_of(s, k);
    lemma_kv_index_of(s, k1);
    let i = kv_index_of(s, k);
    let i1 = kv_index_of(s, k1);
    let s2 = kv_remove(s, k);
    assert(i1 != i);
    if i1 < i {
        assert(s2[i1] == s[i1]);
        assert forall|j: int| 0 <= j < i1 implies s2[j].0 != k1 by {
            assert(s2[j] == s[j]);
        }
        lemma_kv_index_of_found(s2, k1, i1);
    } else {
        assert(s2[i1 - 1] == s[i1]);
        assert forall|j: int| 0 <= j < i1 - 1 implies s2[j].0 != k1 by {
            if j < i {
                assert(s2[j] == s[j]);
            } else {
                assert(s2[j] == s[j + 1]);
            }
        }
        lemma_kv_index_of_found(s2, k1, i1 - 1);
    }
}

/// Removal never reorders: any two surviving entries compare the same
/// way, by position, before and after.
pub proof fn lemma_kv_remove_order<K, V>(s: Seq<(K, V)>, k: K)
    requires
        kv_distinct_keys(s),
    ensures
        forall|k2: K|
            #[trigger] kv_contains(kv_remove(s, k), k2) == (kv_contains(s, k2) && k2 != k),
        forall|k1: K, k2: K|
            kv_contains(kv_remove(s, k), k1) && #[trigger] kv_contains(kv_remove(s, k), k2)
                ==> ((#[trigger] kv_index_of(kv_remove(s, k), k1) < kv_index_of(
                kv_remove(s, k),
                k2,
            )) <==> (kv_index_of(s, k1) < kv_index_of(s, k2))),
{
    lemma_kv_remove(s, k);
    lemma_kv_index_of(s, k);
    assert forall|k2: K|
        #[trigger] kv_contains(kv_remove(s, k), k2) == (kv_contains(s, k2) && k2 != k) by {
        lemma_kv_index_of(kv_remove(s, k), k2);
        lemma_kv_index_of(s, k2);
        if k2 == k {
        } else {
            assert(kv_get(kv_remove(s, k), k2) == kv_get(s, k2));
        }
    }
    if kv_contains(s, k) {
        assert forall|k1: K, k2: K|
            kv_contains(kv_remove(s, k), k1) && #[trigger] kv_contains(kv_remove(s, k), k2)
                implies ((#[trigger] kv_index_of(kv_remove(s, k), k1) < kv_index_of(
            kv_remove(s, k),
            k2,
        )) <==> (kv_index_of(s, k1) < kv_index_of(s, k2))) by {
            lemma_kv_remove_index(s, k, k1);
            lemma_kv_remove_index(s, k, k2);
            lemma_kv_index_of(s, k1);
            lemma_kv_index_of(s, k2);
            if k1 != k2 {
                assert(kv_index_of(s, k1) != kv_index_of(s, k2));
            }
        }
    }
}


} // verus!
