use vstd::prelude::*;
use crate::entity::Entity;

verus! {

/// Sum of the allocations (third components) of a list of
/// (victim, available, allocated) rows.
pub open spec fn sum_allocated(s: Seq<(Entity, usize, usize)>) -> nat
    decreases s.len(),
{
    if s.len() == 0 {
        0
    } else {
        sum_allocated(s.drop_last()) + s.last().2 as nat
    }
}

/// Sum of the availabilities (second components) of a list of rows.
pub open spec fn sum_available(s: Seq<(Entity, usize, usize)>) -> nat
    decreases s.len(),
{
    if s.len() == 0 {
        0
    } else {
        sum_available(s.drop_last()) + s.last().1 as nat
    }
}

/// Every row allocates no more than it has available.
pub open spec fn rows_within_available(s: Seq<(Entity, usize, usize)>) -> bool {
    forall|i: int| 0 <= i < s.len() ==> #[trigger] s[i].2 <= s[i].1
}

/// The rows built from (victim, available) pairs, nothing allocated yet.
pub open spec fn fresh_rows(v: Seq<(Entity, usize)>) -> Seq<(Entity, usize, usize)> {
    Seq::new(v.len(), |i: int| (v[i].0, v[i].1, 0usize))
}

/// The (victim, allocated) pairs of a list of rows.
pub open spec fn row_results(s: Seq<(Entity, usize, usize)>) -> Seq<(Entity, usize)> {
    Seq::new(s.len(), |i: int| (s[i].0, s[i].2))
}

/// The rows with one more point allocated in row `i`.
pub open spec fn raised(s: Seq<(Entity, usize, usize)>, i: int) -> Seq<(Entity, usize, usize)> {
    s.update(i, (s[i].0, s[i].1, (s[i].2 + 1) as usize))
}

/// The rows with one point fewer allocated in row `i`.
pub open spec fn lowered(s: Seq<(Entity, usize, usize)>, i: int) -> Seq<(Entity, usize, usize)> {
    s.update(i, (s[i].0, s[i].1, (s[i].2 - 1) as usize))
}

/// Law: taking back a point just allocated restores the allocation, and
/// allocating again a point just taken back restores it too; so a
/// decrement undoes an increment that changed something, and the other
/// way round.
pub proof fn lemma_lowered_undoes_raised(s: Seq<(Entity, usize, usize)>, i: int)
    requires
        0 <= i < s.len(),
        s[i].2 < s[i].1,
    ensures
        lowered(raised(s, i), i) == s,
        s[i].2 > 0 ==> raised(lowered(s, i), i) == s,
{
    assert(lowered(raised(s, i), i) =~= s);
    if s[i].2 > 0 {
        assert(raised(lowered(s, i), i) =~= s);
    }
}

pub proof fn lemma_sum_allocated_prefix(s: Seq<(Entity, usize, usize)>, k: int)
    requires
        0 <= k <= s.len(),
    ensures
        sum_allocated(s.take(k)) <= sum_allocated(s),
    decreases s.len() - k,
{
    if k < s.len() {
        lemma_sum_allocated_prefix(s, k + 1);
        assert(s.take(k + 1).drop_last() =~= s.take(k));
    } else {
        assert(s.take(k) =~= s);
    }
}

pub proof fn lemma_sum_available_prefix(s: Seq<(Entity, usize, usize)>, k: int)
    requires
        0 <= k <= s.len(),
    ensures
        sum_available(s.take(k)) <= sum_available(s),
    decreases s.len() - k,
{
    if k < s.len() {
        lemma_sum_available_prefix(s, k + 1);
        assert(s.take(k + 1).drop_last() =~= s.take(k));
    } else {
        assert(s.take(k) =~= s);
    }
}

/// Changing one row's allocation changes the sum by the same amount.
pub proof fn lemma_sum_allocated_update(s: Seq<(Entity, usize, usize)>, i: int, r: (Entity, usize, usize))
    requires
        0 <= i < s.len(),
    ensures
        sum_allocated(s.update(i, r)) + s[i].2 == sum_allocated(s) + r.2,
        sum_available(s.update(i, r)) + s[i].1 == sum_available(s) + r.1,
    decreases s.len(),
{
    let u = s.update(i, r);
    if i == s.len() - 1 {
        assert(u.drop_last() =~= s.drop_last());
    } else {
        lemma_sum_allocated_update(s.drop_last(), i, r);
        assert(u.drop_last() =~= s.drop_last().update(i, r));
    }
}

pub proof fn lemma_fresh_rows_sum(v: Seq<(Entity, usize)>)
    ensures
        sum_allocated(fresh_rows(v)) == 0,
        rows_within_available(fresh_rows(v)),
    decreases v.len(),
{
    if v.len() > 0 {
        lemma_fresh_rows_sum(v.drop_last());
        assert(fresh_rows(v).drop_last() =~= fresh_rows(v.drop_last()));
    }
}

/// The sum of the allocations of `rows`.
pub fn allocated_sum(rows: &Vec<(Entity, usize, usize)>) -> (t: usize)
    requires
        sum_allocated(rows@) <= usize::MAX,
    ensures
        t == sum_allocated(rows@),
{
    let mut t: usize = 0;
    let mut i: usize = 0;
    while i < rows.len()
        invariant
            i <= rows@.len(),
            sum_allocated(rows@) <= usize::MAX,
            t == sum_allocated(rows@.take(i as int)),
        decreases rows@.len() - i,
    {
        proof {
            assert(rows@.take(i + 1).drop_last() =~= rows@.take(i as int));
            lemma_sum_allocated_prefix(rows@, i + 1);
        }
        t = t + rows[i].2;
        i += 1;
    }
    assert(rows@.take(i as int) =~= rows@);
    t
}

/// The sum of the availabilities of `rows`.
pub fn available_sum(rows: &Vec<(Entity, usize, usize)>) -> (t: usize)
    requires
        sum_available(rows@) <= usize::MAX,
    ensures
        t == sum_available(rows@),
{
    let mut t: usize = 0;
    let mut i: usize = 0;
    while i < rows.len()
        invariant
            i <= rows@.len(),
            sum_available(rows@) <= usize::MAX,
            t == sum_available(rows@.take(i as int)),
        decreases rows@.len() - i,
    {
        proof {
            assert(rows@.take(i + 1).drop_last() =~= rows@.take(i as int));
            lemma_sum_available_prefix(rows@, i + 1);
        }
        t = t + rows[i].1;
        i += 1;
    }
    assert(rows@.take(i as int) =~= rows@);
    t
}

/// Rows for (victim, available) pairs, nothing allocated yet.
pub fn make_fresh_rows(v: Vec<(Entity, usize)>) -> (rows: Vec<(Entity, usize, usize)>)
    ensures
        rows@ == fresh_rows(v@),
{
    let mut rows: Vec<(Entity, usize, usize)> = Vec::new();
    let mut i: usize = 0;
    while i < v.len()
        invariant
            i <= v@.len(),
            rows@ == fresh_rows(v@.take(i as int)),
        decreases v@.len() - i,
    {
        let (e, a) = v[i];
        rows.push((e, a, 0));
        assert(rows@ =~= fresh_rows(v@.take(i + 1)));
        i += 1;
    }
    assert(v@.take(i as int) =~= v@);
    rows
}

/// The (victim, allocated) pairs of `rows`.
pub fn results_of(rows: &Vec<(Entity, usize, usize)>) -> (r: Vec<(Entity, usize)>)
    ensures
        r@ == row_results(rows@),
{
    let mut r: Vec<(Entity, usize)> = Vec::new();
    let mut i: usize = 0;
    while i < rows.len()
        invariant
            i <= rows@.len(),
            r@ == row_results(rows@.take(i as int)),
        decreases rows@.len() - i,
    {
        let (e, _, al) = rows[i];
        r.push((e, al));
        assert(r@ =~= row_results(rows@.take(i + 1)));
        i += 1;
    }
    assert(rows@.take(i as int) =~= rows@);
    r
}

} // verus!
