use vstd::prelude::*;
use crate::entity::Entity;

verus! {

/// A copy of `v`, element for element.
pub fn copy_entities(v: &Vec<Entity>) -> (r: Vec<Entity>)
    ensures
        r@ == v@,
{
    let mut r: Vec<Entity> = Vec::new();
    let mut i: usize = 0;
    while i < v.len()
        invariant
            i <= v.len(),
            r@ == v@.take(i as int),
        decreases v.len() - i,
    {
        r.push(v[i]);
        assert(v@.take(i + 1) =~= v@.take(i as int).push(v@[i as int]));
        i += 1;
    }
    assert(v@.take(i as int) =~= v@);
    r
}

/// The elements of `a` followed by those of `b`.
pub fn concat_entities(a: &Vec<Entity>, b: &Vec<Entity>) -> (r: Vec<Entity>)
    ensures
        r@ == a@ + b@,
{
    let mut r = copy_entities(a);
    let mut i: usize = 0;
    while i < b.len()
        invariant
            i <= b.len(),
            r@ == a@ + b@.take(i as int),
        decreases b.len() - i,
    {
        r.push(b[i]);
        assert(b@.take(i + 1) =~= b@.take(i as int).push(b@[i as int]));
        assert(a@ + b@.take(i + 1) =~= (a@ + b@.take(i as int)).push(b@[i as int]));
        i += 1;
    }
    assert(b@.take(i as int) =~= b@);
    r
}

/// Whether `e` occurs in `v`.
pub fn contains_entity(v: &Vec<Entity>, e: Entity) -> (b: bool)
    ensures
        b == v@.contains(e),
{
    let mut i: usize = 0;
    while i < v.len()
        invariant
            i <= v.len(),
            forall|j: int| 0 <= j < i ==> v@[j] != e,
        decreases v.len() - i,
    {
        if v[i] == e {
            assert(v@[i as int] == e);
            return true;
        }
        i += 1;
    }
    false
}

/// The position of the first occurrence of `x` in `s` (meaningful when `s`
/// contains `x`).
pub open spec fn first_index(s: Seq<Entity>, x: Entity) -> int
    decreases s.len(),
{
    if s.len() == 0 {
        0
    } else if s[0] == x {
        0
    } else {
        1 + first_index(s.drop_first(), x)
    }
}

/// The first occurrence of `x` is at `k` when `s[k]` is `x` and no earlier
/// element is.
pub proof fn lemma_first_index(s: Seq<Entity>, x: Entity, k: int)
    requires
        0 <= k < s.len(),
        s[k] == x,
        forall|j: int| 0 <= j < k ==> s[j] != x,
    ensures
        first_index(s, x) == k,
    decreases k,
{
    if k > 0 {
        assert(s[0] != x);
        let d = s.drop_first();
        assert forall|j: int| 0 <= j < k - 1 implies d[j] != x by {
            assert(d[j] == s[j + 1]);
        }
        lemma_first_index(d, x, k - 1);
    }
}

/// Where `x` first occurs in a sequence that contains it.
pub proof fn lemma_first_index_in_range(s: Seq<Entity>, x: Entity)
    requires
        s.contains(x),
    ensures
        0 <= first_index(s, x) < s.len(),
        s[first_index(s, x)] == x,
{
    let k = choose|k: int| 0 <= k < s.len() && s[k] == x;
    let m = choose_first(s, x, k);
    lemma_first_index(s, x, m);
}

proof fn choose_first(s: Seq<Entity>, x: Entity, k: int) -> (m: int)
    requires
        0 <= k < s.len(),
        s[k] == x,
    ensures
        0 <= m <= k,
        s[m] == x,
        forall|j: int| 0 <= j < m ==> s[j] != x,
    decreases k,
{
    if exists|j: int| 0 <= j < k && s[j] == x {
        let j = choose|j: int| 0 <= j < k && s[j] == x;
        choose_first(s, x, j)
    } else {
        k
    }
}

/// `s` with `x` toggled: its first occurrence removed when present, else
/// `x` appended when fewer than `cap` elements are held, else unchanged.
pub open spec fn toggled(s: Seq<Entity>, x: Entity, cap: nat) -> Seq<Entity> {
    if s.contains(x) {
        s.remove(first_index(s, x))
    } else if s.len() < cap {
        s.push(x)
    } else {
        s
    }
}

/// Toggles `x` in `v`, holding at most `cap` elements when adding.
pub fn toggle_entity(v: &mut Vec<Entity>, x: Entity, cap: usize)
    ensures
        final(v)@ == toggled(old(v)@, x, cap as nat),
{
    match position_of(v, x) {
        Some(k) => {
            proof {
                lemma_first_index(v@, x, k as int);
            }
            v.remove(k);
        },
        None => {
            if v.len() < cap {
                v.push(x);
            }
        },
    }
}

/// Law: toggling an absent element into a selection with room, and then
/// toggling it again, restores the selection.
pub proof fn lemma_toggle_twice(s: Seq<Entity>, x: Entity, cap: nat)
    requires
        !s.contains(x),
        s.len() < cap,
    ensures
        toggled(toggled(s, x, cap), x, cap) == s,
{
    let t = s.push(x);
    assert(t[s.len() as int] == x);
    assert forall|j: int| 0 <= j < s.len() implies t[j] != x by {
        assert(t[j] == s[j]);
    }
    lemma_first_index(t, x, s.len() as int);
    assert(t.remove(s.len() as int) =~= s);
}

/// The cursor position after stepping forward through `len` entries.
pub open spec fn next_index(i: nat, len: nat) -> nat {
    if len == 0 { i } else { (i + 1) % len }
}

/// The cursor position after stepping back through `len` entries.
pub open spec fn prev_index(i: nat, len: nat) -> nat {
    if len == 0 { i } else if i == 0 { (len - 1) as nat } else { (i - 1) as nat }
}

/// Law: stepping back undoes stepping forward, for a cursor on an entry.
pub proof fn lemma_prev_undoes_next(i: nat, len: nat)
    requires
        i < len,
    ensures
        prev_index(next_index(i, len), len) == i,
{
    if i + 1 == len {
        assert((i + 1) % len == 0) by (nonlinear_arith)
            requires
                i + 1 == len,
                len > 0,
        ;
    } else {
        assert((i + 1) % len == i + 1) by (nonlinear_arith)
            requires
                i + 1 < len,
        ;
    }
}

/// Law: stepping forward undoes stepping back, for a cursor on an entry.
pub proof fn lemma_next_undoes_prev(i: nat, len: nat)
    requires
        i < len,
    ensures
        next_index(prev_index(i, len), len) == i,
{
    if i == 0 {
        assert(((len - 1) + 1) % (len as int) == 0) by (nonlinear_arith)
            requires
                len > 0,
        ;
    } else {
        assert(((i - 1) + 1) % (len as int) == i) by (nonlinear_arith)
            requires
                0 < i < len,
        ;
    }
}

/// The cursor stepped forward over `len` entries.
pub fn step_next(i: usize, len: usize) -> (r: usize)
    requires
        len > 0 ==> i < usize::MAX,
    ensures
        r == next_index(i as nat, len as nat),
{
    if len == 0 {
        i
    } else {
        (i + 1) % len
    }
}

/// The cursor stepped back over `len` entries.
pub fn step_prev(i: usize, len: usize) -> (r: usize)
    ensures
        r == prev_index(i as nat, len as nat),
{
    if len == 0 {
        i
    } else if i == 0 {
        len - 1
    } else {
        i - 1
    }
}

/// The position of the first occurrence of `e` in `v`, if any.
pub fn position_of(v: &Vec<Entity>, e: Entity) -> (r: Option<usize>)
    ensures
        r is None <==> !v@.contains(e),
        r matches Some(k) ==> k < v@.len() && v@[k as int] == e && forall|j: int|
            0 <= j < k ==> v@[j] != e,
{
    let mut i: usize = 0;
    while i < v.len()
        invariant
            i <= v.len(),
            forall|j: int| 0 <= j < i ==> v@[j] != e,
        decreases v.len() - i,
    {
        if v[i] == e {
            return Some(i);
        }
        i += 1;
    }
    None
}

/// The elements of `s` that do not occur in `excluded`, in order.
pub open spec fn without(s: Seq<Entity>, excluded: Seq<Entity>) -> Seq<Entity>
    decreases s.len(),
{
    if s.len() == 0 {
        Seq::empty()
    } else {
        let rest = without(s.drop_last(), excluded);
        if excluded.contains(s.last()) {
            rest
        } else {
            rest.push(s.last())
        }
    }
}

/// Membership in [`without`]: exactly the elements of `s` not in `excluded`.
pub proof fn lemma_without_contains(s: Seq<Entity>, excluded: Seq<Entity>, x: Entity)
    ensures
        without(s, excluded).contains(x) <==> (s.contains(x) && !excluded.contains(x)),
    decreases s.len(),
{
    if s.len() > 0 {
        let d = s.drop_last();
        let y = s.last();
        lemma_without_contains(d, excluded, x);
        let rest = without(d, excluded);
        assert(s =~= d.push(y));
        assert(s.contains(x) <==> (d.contains(x) || x == y)) by {
            if s.contains(x) {
                let k = choose|k: int| 0 <= k < s.len() && s[k] == x;
                if k < s.len() - 1 {
                    assert(d[k] == x);
                }
            }
            if d.contains(x) {
                let k = choose|k: int| 0 <= k < d.len() && d[k] == x;
                assert(s[k] == x);
            }
            if x == y {
                assert(s[s.len() - 1] == x);
            }
        }
        if !excluded.contains(y) {
            let r2 = rest.push(y);
            assert(r2.contains(x) <==> (rest.contains(x) || x == y)) by {
                if r2.contains(x) {
                    let k = choose|k: int| 0 <= k < r2.len() && r2[k] == x;
                    if k < rest.len() {
                        assert(rest[k] == x);
                    }
                }
                if rest.contains(x) {
                    let k = choose|k: int| 0 <= k < rest.len() && rest[k] == x;
                    assert(r2[k] == x);
                }
                if x == y {
                    assert(r2[rest.len() as int] == x);
                }
            }
        }
    }
}

/// The elements of `v` that do not occur in `excluded`, in order.
pub fn entities_without(v: Vec<Entity>, excluded: &Vec<Entity>) -> (r: Vec<Entity>)
    ensures
        r@ == without(v@, excluded@),
{
    let mut r: Vec<Entity> = Vec::new();
    let mut i: usize = 0;
    while i < v.len()
        invariant
            i <= v.len(),
            r@ == without(v@.take(i as int), excluded@),
        decreases v.len() - i,
    {
        assert(v@.take(i + 1).drop_last() =~= v@.take(i as int));
        assert(v@.take(i + 1).last() == v@[i as int]);
        if !contains_entity(excluded, v[i]) {
            r.push(v[i]);
        }
        i += 1;
    }
    assert(v@.take(i as int) =~= v@);
    r
}

} // verus!
