//! What a change of hands does on the board: the tokens that replace a
//! Civil War faction (rule 30.415), and the cities handed to a new owner.
use vstd::prelude::*;
use crate::assoc::assoc_get;
use crate::entity::Entity;
use crate::resolution::losses::removal_in_order;
use crate::resolution::unit_loss::{counts_of, paired, pair_rows, row_counts};

verus! {

/// The rows with one more for `a`: its first row grows by one, or a row
/// `(a, 1)` is added at the end.
pub open spec fn bump(s: Seq<(Entity, usize)>, a: Entity) -> Seq<(Entity, usize)>
    decreases s.len(),
{
    if s.len() == 0 {
        seq![(a, 1usize)]
    } else if s[0].0 == a {
        seq![(a, (s[0].1 + 1) as usize)] + s.drop_first()
    } else {
        seq![s[0]] + bump(s.drop_first(), a)
    }
}

/// The rows with the first row of `a` set to `n` (unchanged when `a` has
/// no row).
pub open spec fn with_count(s: Seq<(Entity, usize)>, a: Entity, n: usize) -> Seq<(Entity, usize)>
    decreases s.len(),
{
    if s.len() == 0 {
        s
    } else if s[0].0 == a {
        seq![(a, n)] + s.drop_first()
    } else {
        seq![s[0]] + with_count(s.drop_first(), a, n)
    }
}

proof fn lemma_rows_absent(s: Seq<(Entity, usize)>, a: Entity, n: usize)
    requires
        forall|j: int| 0 <= j < s.len() ==> (#[trigger] s[j]).0 != a,
    ensures
        bump(s, a) == s.push((a, 1usize)),
        with_count(s, a, n) == s,
        assoc_get(s, a) is None,
    decreases s.len(),
{
    if s.len() > 0 {
        let t = s.drop_first();
        assert(s[0].0 != a);
        assert forall|j: int| 0 <= j < t.len() implies (#[trigger] t[j]).0 != a by {
            assert(t[j] == s[j + 1]);
        }
        lemma_rows_absent(t, a, n);
        assert(seq![s[0]] + t.push((a, 1usize)) =~= s.push((a, 1usize)));
        assert(seq![s[0]] + t =~= s);
    }
}

proof fn lemma_rows_first(s: Seq<(Entity, usize)>, a: Entity, n: usize, i: int)
    requires
        0 <= i < s.len(),
        s[i].0 == a,
        forall|j: int| 0 <= j < i ==> (#[trigger] s[j]).0 != a,
    ensures
        bump(s, a) == s.update(i, (a, (s[i].1 + 1) as usize)),
        with_count(s, a, n) == s.update(i, (a, n)),
        assoc_get(s, a) == Some(s[i].1),
    decreases s.len(),
{
    if i == 0 {
        assert(seq![(a, (s[0].1 + 1) as usize)] + s.drop_first() =~= s.update(0, (a, (s[0].1 + 1) as usize)));
        assert(seq![(a, n)] + s.drop_first() =~= s.update(0, (a, n)));
    } else {
        let t = s.drop_first();
        assert(s[0].0 != a);
        assert forall|j: int| 0 <= j < i - 1 implies (#[trigger] t[j]).0 != a by {
            assert(t[j] == s[j + 1]);
        }
        lemma_rows_first(t, a, n, i - 1);
        assert(seq![s[0]] + t.update(i - 1, (a, (s[i].1 + 1) as usize)) =~= s.update(
            i,
            (a, (s[i].1 + 1) as usize),
        ));
        assert(seq![s[0]] + t.update(i - 1, (a, n)) =~= s.update(i, (a, n)));
    }
}

/// Where `a` is first listed.
fn first_row_of(rows: &Vec<(Entity, usize)>, a: Entity) -> (r: Option<usize>)
    ensures
        r is None ==> forall|j: int| 0 <= j < rows@.len() ==> (#[trigger] rows@[j]).0 != a,
        r matches Some(i) ==> i < rows@.len() && rows@[i as int].0 == a
            && forall|j: int| 0 <= j < i ==> (#[trigger] rows@[j]).0 != a,
{
    let mut i: usize = 0;
    while i < rows.len()
        invariant
            i <= rows@.len(),
            forall|j: int| 0 <= j < i ==> (#[trigger] rows@[j]).0 != a,
        decreases rows@.len() - i,
    {
        if rows[i].0 == a {
            return Some(i);
        }
        i += 1;
    }
    None
}

/// How many of `units` stand in each area (by `token_areas`, the first
/// entry of each token), areas in the order their first unit comes; units
/// of no known area are left out.
pub open spec fn area_counts(units: Seq<Entity>, token_areas: Seq<(Entity, Entity)>) -> Seq<(Entity, usize)>
    decreases units.len(),
{
    if units.len() == 0 {
        Seq::empty()
    } else {
        let rest = area_counts(units.drop_last(), token_areas);
        match assoc_get(token_areas, units.last()) {
            Some(a) => bump(rest, a),
            None => rest,
        }
    }
}

/// Rule 30.415: the beneficiary's tokens placed where the victim's
/// transferred `units` stood, one for one, area by area in the order of
/// [`area_counts`], as far as the beneficiary's `stock` goes.
pub open spec fn replacements(units: Seq<Entity>, token_areas: Seq<(Entity, Entity)>, stock: nat) -> Seq<(Entity, usize)> {
    let c = area_counts(units, token_areas);
    paired(c, removal_in_order(counts_of(c), stock))
}

/// The area of `token`: its first entry in `token_areas`, if any.
fn area_of(token_areas: &Vec<(Entity, Entity)>, token: Entity) -> (r: Option<Entity>)
    ensures
        r == assoc_get(token_areas@, token),
{
    let mut i: usize = 0;
    assert(token_areas@.skip(0) =~= token_areas@);
    while i < token_areas.len()
        invariant
            i <= token_areas@.len(),
            assoc_get(token_areas@, token) == assoc_get(token_areas@.skip(i as int), token),
        decreases token_areas@.len() - i,
    {
        assert(token_areas@.skip(i as int).drop_first() =~= token_areas@.skip(i + 1));
        if token_areas[i].0 == token {
            return Some(token_areas[i].1);
        }
        i += 1;
    }
    None
}

/// The per-area counts of [`area_counts`].
pub fn count_units_per_area(units: &Vec<Entity>, token_areas: &Vec<(Entity, Entity)>) -> (r: Vec<(Entity, usize)>)
    ensures
        r@ == area_counts(units@, token_areas@),
{
    let mut r: Vec<(Entity, usize)> = Vec::new();
    let mut i: usize = 0;
    while i < units.len()
        invariant
            i <= units@.len(),
            r@ == area_counts(units@.take(i as int), token_areas@),
            forall|j: int| 0 <= j < r@.len() ==> (#[trigger] r@[j]).1 <= i,
        decreases units@.len() - i,
    {
        assert(units@.take(i + 1).drop_last() =~= units@.take(i as int));
        assert(units@.take(i + 1).last() == units@[i as int]);
        let ghost r0 = r@;
        match area_of(token_areas, units[i]) {
            None => {},
            Some(a) => match first_row_of(&r, a) {
                None => {
                    proof {
                        lemma_rows_absent(r@, a, 0);
                    }
                    r.push((a, 1));
                },
                Some(k) => {
                    proof {
                        lemma_rows_first(r@, a, 0, k as int);
                    }
                    let n = r[k].1;
                    r.set(k, (a, n + 1));
                },
            },
        }
        i += 1;
        assert forall|j: int| 0 <= j < r@.len() implies (#[trigger] r@[j]).1 <= i by {
            if j < r0.len() {
                if r@[j] != r0[j] {
                    assert(r0[j].1 <= i - 1);
                }
            }
        }
    }
    assert(units@.take(i as int) =~= units@);
    r
}

/// Rule 30.415: where the beneficiary's tokens go once the victim's
/// transferred `units` (standing in areas by `token_areas`) return to the
/// victim's stock, given `stock` tokens in the beneficiary's stock; see
/// [`replacements`].
pub fn civil_war_replacements(
    units: &Vec<Entity>,
    token_areas: &Vec<(Entity, Entity)>,
    stock: usize,
) -> (r: Vec<(Entity, usize)>)
    ensures
        r@ == replacements(units@, token_areas@, stock as nat),
{
    let rows = count_units_per_area(units, token_areas);
    let counts = row_counts(&rows);
    let mut left: usize = stock;
    let mut taken: Vec<usize> = Vec::new();
    let mut i: usize = 0;
    assert(counts@.skip(0) =~= counts@);
    while i < counts.len()
        invariant
            i <= counts@.len(),
            removal_in_order(counts@, stock as nat) == taken@ + removal_in_order(counts@.skip(i as int), left as nat),
        decreases counts@.len() - i,
    {
        let ghost rest = counts@.skip(i as int);
        assert(rest[0] == counts@[i as int]);
        assert(rest.drop_first() =~= counts@.skip(i + 1));
        let c = counts[i];
        let take: usize = if c <= left { c } else { left };
        taken.push(take);
        left = left - take;
        i += 1;
        assert(removal_in_order(counts@, stock as nat) =~= taken@ + removal_in_order(
            counts@.skip(i as int),
            left as nat,
        ));
    }
    assert(counts@.skip(i as int) =~= Seq::<usize>::empty());
    assert(taken@ + Seq::<usize>::empty() =~= taken@);
    proof {
        crate::resolution::losses::lemma_removal_in_order(counts@, stock as nat);
    }
    pair_rows(&rows, &taken)
}

/// What becomes of a city handed to a new owner.
#[derive(Debug, Clone, Copy, PartialEq, Eq, Structural)]
pub enum CityTransfer {
    /// The city leaves the board and no token moves: the new owner is its
    /// owner, or one of the two keeps no city tokens.
    Removed,
    /// The old owner's city token returns to their stock and the new owner
    /// builds the city with one of theirs.
    Transferred,
    /// The old owner's city token returns to their stock; the new owner has
    /// none left, so the city is lost.
    Lost,
}

/// One city changing hands from `owner` to `to`, with city-token stocks
/// `stocks`: the outcome and the stocks afterwards.
pub open spec fn transfer_step(owner: Entity, to: Entity, stocks: Seq<(Entity, usize)>) -> (CityTransfer, Seq<(Entity, usize)>) {
    match (assoc_get(stocks, owner), assoc_get(stocks, to)) {
        (Some(v), Some(b)) => if owner == to {
            (CityTransfer::Removed, stocks)
        } else {
            let returned = with_count(stocks, owner, (v + 1) as usize);
            if b > 0 {
                (CityTransfer::Transferred, with_count(returned, to, (b - 1) as usize))
            } else {
                (CityTransfer::Lost, returned)
            }
        },
        _ => (CityTransfer::Removed, stocks),
    }
}

/// The outcome of each transfer (area, owner, new owner), in order.
pub open spec fn transfer_outcomes(transfers: Seq<(Entity, Entity, Entity)>, stocks: Seq<(Entity, usize)>) -> Seq<(Entity, CityTransfer)>
    decreases transfers.len(),
{
    if transfers.len() == 0 {
        Seq::empty()
    } else {
        let t = transfers[0];
        seq![(t.0, transfer_step(t.1, t.2, stocks).0)] + transfer_outcomes(
            transfers.drop_first(),
            transfer_step(t.1, t.2, stocks).1,
        )
    }
}

/// The city-token stocks once every transfer is done.
pub open spec fn stocks_after(transfers: Seq<(Entity, Entity, Entity)>, stocks: Seq<(Entity, usize)>) -> Seq<(Entity, usize)>
    decreases transfers.len(),
{
    if transfers.len() == 0 {
        stocks
    } else {
        let t = transfers[0];
        stocks_after(transfers.drop_first(), transfer_step(t.1, t.2, stocks).1)
    }
}

/// Every stock can take `room` more tokens.
pub open spec fn stocks_have_room(stocks: Seq<(Entity, usize)>, room: nat) -> bool {
    forall|j: int| 0 <= j < stocks.len() ==> (#[trigger] stocks[j]).1 + room <= usize::MAX
}

/// Cities handed to new owners, each given as (area, owner, new owner), in
/// order, with the players' city-token stocks (a player with no row keeps
/// no city tokens): see [`transfer_step`] for each one. Returns each area
/// with what became of its city.
pub fn transfer_cities(
    transfers: &Vec<(Entity, Entity, Entity)>,
    stocks: &mut Vec<(Entity, usize)>,
) -> (r: Vec<(Entity, CityTransfer)>)
    requires
        stocks_have_room(old(stocks)@, transfers@.len() as nat),
    ensures
        r@ == transfer_outcomes(transfers@, old(stocks)@),
        final(stocks)@ == stocks_after(transfers@, old(stocks)@),
{
    let ghost s0 = stocks@;
    let mut r: Vec<(Entity, CityTransfer)> = Vec::new();
    let mut i: usize = 0;
    assert(transfers@.skip(0) =~= transfers@);
    while i < transfers.len()
        invariant
            i <= transfers@.len(),
            stocks_have_room(stocks@, (transfers@.len() - i) as nat),
            transfer_outcomes(transfers@, s0) == r@ + transfer_outcomes(transfers@.skip(i as int), stocks@),
            stocks_after(transfers@, s0) == stocks_after(transfers@.skip(i as int), stocks@),
        decreases transfers@.len() - i,
    {
        let ghost rest = transfers@.skip(i as int);
        let ghost st = stocks@;
        assert(rest[0] == transfers@[i as int]);
        assert(rest.drop_first() =~= transfers@.skip(i + 1));
        let (area, owner, to) = transfers[i];
        let outcome = match (first_row_of(stocks, owner), first_row_of(stocks, to)) {
            (Some(vi), Some(bi)) => {
                proof {
                    lemma_rows_first(st, owner, 0, vi as int);
                    lemma_rows_first(st, to, 0, bi as int);
                }
                if owner == to {
                    CityTransfer::Removed
                } else {
                    let v = stocks[vi].1;
                    let b = stocks[bi].1;
                    proof {
                        lemma_rows_first(st, owner, (v + 1) as usize, vi as int);
                    }
                    stocks.set(vi, (owner, v + 1));
                    if b > 0 {
                        proof {
                            let s1 = st.update(vi as int, (owner, (v + 1) as usize));
                            assert forall|j: int| 0 <= j < bi implies (#[trigger] s1[j]).0 != to by {
                                if j != vi {
                                    assert(s1[j] == st[j]);
                                }
                            }
                            lemma_rows_first(s1, to, (b - 1) as usize, bi as int);
                        }
                        stocks.set(bi, (to, b - 1));
                        CityTransfer::Transferred
                    } else {
                        CityTransfer::Lost
                    }
                }
            },
            (Some(vi), None) => {
                proof {
                    lemma_rows_absent(st, to, 0);
                }
                CityTransfer::Removed
            },
            (None, _) => {
                proof {
                    lemma_rows_absent(st, owner, 0);
                }
                CityTransfer::Removed
            },
        };
        r.push((area, outcome));
        proof {
            assert(transfer_step(owner, to, st).0 == outcome);
            assert(transfer_step(owner, to, st).1 == stocks@);
            assert(transfer_outcomes(rest, st) == seq![(area, outcome)] + transfer_outcomes(rest.drop_first(), stocks@));
            assert(transfer_outcomes(transfers@, s0) =~= r@ + transfer_outcomes(transfers@.skip(i + 1), stocks@));
            assert forall|j: int| 0 <= j < stocks@.len() implies (#[trigger] stocks@[j]).1 + (transfers@.len() - (i
                + 1)) <= usize::MAX by {
                assert(st[j].1 + (transfers@.len() - i) <= usize::MAX);
            }
        }
        i += 1;
    }
    assert(transfers@.skip(i as int) =~= Seq::<(Entity, Entity, Entity)>::empty());
    assert(r@ + Seq::<(Entity, CityTransfer)>::empty() =~= r@);
    r
}

} // verus!
