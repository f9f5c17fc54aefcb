use vstd::prelude::*;

verus! {

/// The value paired with the first occurrence of key `k` in an
/// association list, if any.
pub open spec fn assoc_get<K, V>(s: Seq<(K, V)>, k: K) -> Option<V>
    decreases s.len(),
{
    if s.len() == 0 {
        None
    } else if s[0].0 == k {
        Some(s[0].1)
    } else {
        assoc_get(s.drop_first(), k)
    }
}

/// No key occurs twice.
pub open spec fn keys_distinct<K, V>(s: Seq<(K, V)>) -> bool {
    forall|i: int, j: int| 0 <= i < j < s.len() ==> (#[trigger] s[i]).0 != (#[trigger] s[j]).0
}

/// The list holds key `k`.
pub open spec fn has_key<K, V>(s: Seq<(K, V)>, k: K) -> bool {
    exists|i: int| 0 <= i < s.len() && (#[trigger] s[i]).0 == k
}

pub proof fn lemma_get_index<K, V>(s: Seq<(K, V)>, i: int)
    requires
        keys_distinct(s),
        0 <= i < s.len(),
    ensures
        assoc_get(s, s[i].0) == Some(s[i].1),
    decreases i,
{
    if i > 0 {
        assert(s[0].0 != s[i].0);
        let d = s.drop_first();
        assert(keys_distinct(d)) by {
            assert forall|a: int, b: int| 0 <= a < b < d.len() implies (#[trigger] d[a]).0
                != (#[trigger] d[b]).0 by {
                assert(d[a] == s[a + 1] && d[b] == s[b + 1]);
            }
        }
        assert(d[i - 1] == s[i]);
        lemma_get_index(d, i - 1);
    }
}

pub proof fn lemma_get_absent<K, V>(s: Seq<(K, V)>, k: K)
    ensures
        !has_key(s, k) <==> assoc_get(s, k) is None,
    decreases s.len(),
{
    if s.len() > 0 {
        let d = s.drop_first();
        lemma_get_absent(d, k);
        if has_key(s, k) && s[0].0 != k {
            let i = choose|i: int| 0 <= i < s.len() && (#[trigger] s[i]).0 == k;
            assert(d[i - 1] == s[i]);
        }
        if has_key(d, k) {
            let i = choose|i: int| 0 <= i < d.len() && (#[trigger] d[i]).0 == k;
            assert(s[i + 1] == d[i]);
        }
        if s[0].0 == k {
            assert(has_key(s, k) == true) by {
                assert(s[0].0 == k);
            }
        }
    }
}

/// Replacing the value at position `i` changes only that key's value.
pub proof fn lemma_get_update<K, V>(s: Seq<(K, V)>, i: int, v: V, k: K)
    requires
        keys_distinct(s),
        0 <= i < s.len(),
    ensures
        keys_distinct(s.update(i, (s[i].0, v))),
        assoc_get(s.update(i, (s[i].0, v)), k) == if k == s[i].0 {
            Some(v)
        } else {
            assoc_get(s, k)
        },
{
    let u = s.update(i, (s[i].0, v));
    assert forall|a: int, b: int| 0 <= a < b < u.len() implies (#[trigger] u[a]).0
        != (#[trigger] u[b]).0 by {
        assert(u[a].0 == s[a].0 && u[b].0 == s[b].0);
    }
    if k == s[i].0 {
        lemma_get_index(u, i);
    } else {
        lemma_get_absent(s, k);
        lemma_get_absent(u, k);
        if has_key(s, k) {
            let j = choose|j: int| 0 <= j < s.len() && (#[trigger] s[j]).0 == k;
            lemma_get_index(s, j);
            assert(u[j] == s[j]);
            lemma_get_index(u, j);
        } else {
            if has_key(u, k) {
                let j = choose|j: int| 0 <= j < u.len() && (#[trigger] u[j]).0 == k;
                assert(s[j].0 == u[j].0);
            }
        }
    }
}

/// Appending a new key adds just that key.
pub proof fn lemma_get_push<K, V>(s: Seq<(K, V)>, k2: K, v: V, k: K)
    requires
        keys_distinct(s),
        !has_key(s, k2),
    ensures
        keys_distinct(s.push((k2, v))),
        assoc_get(s.push((k2, v)), k) == if k == k2 {
            Some(v)
        } else {
            assoc_get(s, k)
        },
{
    let u = s.push((k2, v));
    assert forall|a: int, b: int| 0 <= a < b < u.len() implies (#[trigger] u[a]).0
        != (#[trigger] u[b]).0 by {
        if b == s.len() {
            assert(u[a] == s[a]);
        } else {
            assert(u[a] == s[a] && u[b] == s[b]);
        }
    }
    if k == k2 {
        lemma_get_index(u, s.len() as int);
    } else {
        lemma_get_absent(s, k);
        lemma_get_absent(u, k);
        if has_key(s, k) {
            let j = choose|j: int| 0 <= j < s.len() && (#[trigger] s[j]).0 == k;
            lemma_get_index(s, j);
            assert(u[j] == s[j]);
            lemma_get_index(u, j);
        } else {
            if has_key(u, k) {
                let j = choose|j: int| 0 <= j < u.len() && (#[trigger] u[j]).0 == k;
                assert(j < s.len());
                assert(s[j].0 == u[j].0);
            }
        }
    }
}

/// Removing the entry at position `i` removes just its key.
pub proof fn lemma_get_remove<K, V>(s: Seq<(K, V)>, i: int, k: K)
    requires
        keys_distinct(s),
        0 <= i < s.len(),
    ensures
        keys_distinct(s.remove(i)),
        assoc_get(s.remove(i), k) == if k == s[i].0 {
            None
        } else {
            assoc_get(s, k)
        },
{
    let u = s.remove(i);
    assert forall|a: int, b: int| 0 <= a < b < u.len() implies (#[trigger] u[a]).0
        != (#[trigger] u[b]).0 by {
        let sa = if a < i { a } else { a + 1 };
        let sb = if b < i { b } else { b + 1 };
        assert(u[a] == s[sa] && u[b] == s[sb]);
    }
    lemma_get_absent(u, k);
    lemma_get_absent(s, k);
    if k == s[i].0 {
        if has_key(u, k) {
            let j = choose|j: int| 0 <= j < u.len() && (#[trigger] u[j]).0 == k;
            let sj = if j < i { j } else { j + 1 };
            assert(u[j] == s[sj]);
        }
    } else {
        if has_key(s, k) {
            let j = choose|j: int| 0 <= j < s.len() && (#[trigger] s[j]).0 == k;
            lemma_get_index(s, j);
            let uj = if j < i { j } else { j - 1 };
            assert(u[uj] == s[j]);
            lemma_get_index(u, uj);
        } else if has_key(u, k) {
            let j = choose|j: int| 0 <= j < u.len() && (#[trigger] u[j]).0 == k;
            let sj = if j < i { j } else { j + 1 };
            assert(u[j] == s[sj]);
        }
    }
}

/// Sum of the values of an association list with counts.
pub open spec fn sum_values<K>(s: Seq<(K, usize)>) -> nat
    decreases s.len(),
{
    if s.len() == 0 {
        0
    } else {
        sum_values(s.drop_last()) + s.last().1 as nat
    }
}

pub proof fn lemma_sum_values_update<K>(s: Seq<(K, usize)>, i: int, r: (K, usize))
    requires
        0 <= i < s.len(),
    ensures
        sum_values(s.update(i, r)) + s[i].1 == sum_values(s) + r.1,
    decreases s.len(),
{
    let u = s.update(i, r);
    if i == s.len() - 1 {
        assert(u.drop_last() =~= s.drop_last());
    } else {
        lemma_sum_values_update(s.drop_last(), i, r);
        assert(u.drop_last() =~= s.drop_last().update(i, r));
    }
}

pub proof fn lemma_sum_values_remove<K>(s: Seq<(K, usize)>, i: int)
    requires
        0 <= i < s.len(),
    ensures
        sum_values(s.remove(i)) + s[i].1 == sum_values(s),
    decreases s.len(),
{
    let u = s.remove(i);
    if i == s.len() - 1 {
        assert(u =~= s.drop_last());
    } else {
        lemma_sum_values_remove(s.drop_last(), i);
        assert(u.drop_last() =~= s.drop_last().remove(i));
        assert(u.last() == s.last());
    }
}

pub proof fn lemma_sum_values_prefix<K>(s: Seq<(K, usize)>, k: int)
    requires
        0 <= k <= s.len(),
    ensures
        sum_values(s.take(k)) <= sum_values(s),
    decreases s.len() - k,
{
    if k < s.len() {
        lemma_sum_values_prefix(s, k + 1);
        assert(s.take(k + 1).drop_last() =~= s.take(k));
    } else {
        assert(s.take(k) =~= s);
    }
}

} // verus!
