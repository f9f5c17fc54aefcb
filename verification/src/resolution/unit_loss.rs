//! Who chooses the units a player loses (rules 29.62/29.63): the calamity
//! sets how many unit points go; a human owner picks which of their units,
//! unless there is nothing to choose.
use vstd::prelude::*;
use crate::assoc::sum_values;
use crate::entity::Entity;
use crate::resolution::losses::removal_in_order;

verus! {

/// A player's units as a unit-point loss sees them: their tokens in each
/// area, their cities, and whether they are a human still answering.
#[derive(Debug, Clone)]
pub struct PlayerUnits {
    pub player: Entity,
    pub areas: Vec<(Entity, usize)>,
    pub cities: Vec<Entity>,
    pub is_human: bool,
    pub awaiting: bool,
}

/// What happens to one player's loss this turn.
#[derive(Debug, Clone, Copy, PartialEq, Eq, Structural)]
pub enum LossStep {
    /// Taken without asking: an AI, nothing owed, or everything goes anyway.
    Automatic,
    /// The human owner is asked which units go.
    Prompt,
    /// An answer is awaited, or the choice is busy with another player.
    Wait,
    /// The human owner has answered: take what they chose.
    UseChoice,
}

/// A human is asked only when they could lose more than they owe; their
/// answer is used once confirmed.
pub open spec fn loss_step(
    is_human: bool,
    available: nat,
    owed: nat,
    acting: Option<Entity>,
    awaiting: bool,
    who: Entity,
) -> LossStep {
    if !is_human || owed == 0 || available <= owed {
        LossStep::Automatic
    } else if acting is None {
        LossStep::Prompt
    } else if acting == Some(who) && !awaiting {
        LossStep::UseChoice
    } else {
        LossStep::Wait
    }
}

pub fn next_loss_step(
    is_human: bool,
    available: usize,
    owed: usize,
    acting: Option<Entity>,
    awaiting: bool,
    who: Entity,
) -> (r: LossStep)
    ensures
        r == loss_step(is_human, available as nat, owed as nat, acting, awaiting, who),
{
    if !is_human || owed == 0 || available <= owed {
        LossStep::Automatic
    } else {
        match acting {
            None => LossStep::Prompt,
            Some(a) => {
                if a == who && !awaiting {
                    LossStep::UseChoice
                } else {
                    LossStep::Wait
                }
            },
        }
    }
}

/// The first entry describing player `e`, if any.
pub open spec fn units_of(players: Seq<PlayerUnits>, e: Entity) -> Option<PlayerUnits>
    decreases players.len(),
{
    if players.len() == 0 {
        None
    } else if players[0].player == e {
        Some(players[0])
    } else {
        units_of(players.drop_first(), e)
    }
}

pub fn find_units(players: &Vec<PlayerUnits>, e: Entity) -> (r: Option<usize>)
    ensures
        r is None ==> units_of(players@, e) is None,
        r matches Some(i) ==> i < players@.len() && units_of(players@, e) == Some(players@[i as int]),
{
    let mut j: usize = 0;
    assert(players@.skip(0) =~= players@);
    while j < players.len()
        invariant
            j <= players@.len(),
            units_of(players@, e) == units_of(players@.skip(j as int), e),
        decreases players@.len() - j,
    {
        assert(players@.skip(j as int).drop_first() =~= players@.skip(j + 1));
        if players[j].player == e {
            return Some(j);
        }
        j += 1;
    }
    None
}

/// The token counts of a list of (area, count) rows.
pub open spec fn counts_of(rows: Seq<(Entity, usize)>) -> Seq<usize> {
    rows.map_values(|r: (Entity, usize)| r.1)
}

pub fn row_counts(rows: &Vec<(Entity, usize)>) -> (r: Vec<usize>)
    ensures
        r@ == counts_of(rows@),
{
    let mut r: Vec<usize> = Vec::new();
    let mut i: usize = 0;
    while i < rows.len()
        invariant
            i <= rows@.len(),
            r@ == counts_of(rows@.take(i as int)),
        decreases rows@.len() - i,
    {
        r.push(rows[i].1);
        i += 1;
        assert(counts_of(rows@.take(i as int)) =~= counts_of(rows@.take(i - 1)).push(rows@[i - 1].1));
    }
    assert(rows@.take(i as int) =~= rows@);
    r
}

/// Each row's area paired with the tokens taken there.
pub open spec fn paired(rows: Seq<(Entity, usize)>, taken: Seq<usize>) -> Seq<(Entity, usize)> {
    Seq::new(rows.len(), |i: int| (rows[i].0, taken[i]))
}

pub fn pair_rows(rows: &Vec<(Entity, usize)>, taken: &Vec<usize>) -> (r: Vec<(Entity, usize)>)
    requires
        taken@.len() == rows@.len(),
    ensures
        r@ == paired(rows@, taken@),
{
    let mut r: Vec<(Entity, usize)> = Vec::new();
    let mut i: usize = 0;
    while i < rows.len()
        invariant
            i <= rows@.len(),
            taken@.len() == rows@.len(),
            r@ == paired(rows@, taken@).take(i as int),
        decreases rows@.len() - i,
    {
        r.push((rows[i].0, taken[i]));
        i += 1;
        assert(r@ =~= paired(rows@, taken@).take(i as int));
    }
    assert(paired(rows@, taken@).take(i as int) =~= paired(rows@, taken@));
    r
}

/// The rows with one token kept back in each area (rule 30.612).
pub open spec fn all_but_one(rows: Seq<(Entity, usize)>) -> Seq<(Entity, usize)> {
    rows.map_values(|r: (Entity, usize)| (r.0, if r.1 >= 1 { (r.1 - 1) as usize } else { 0usize }))
}

pub fn rows_leaving_one(rows: &Vec<(Entity, usize)>) -> (r: Vec<(Entity, usize)>)
    ensures
        r@ == all_but_one(rows@),
{
    let mut r: Vec<(Entity, usize)> = Vec::new();
    let mut i: usize = 0;
    while i < rows.len()
        invariant
            i <= rows@.len(),
            r@ == all_but_one(rows@.take(i as int)),
        decreases rows@.len() - i,
    {
        let c = rows[i].1;
        r.push((rows[i].0, if c >= 1 { c - 1 } else { 0 }));
        i += 1;
        assert(all_but_one(rows@.take(i as int)) =~= all_but_one(rows@.take(i - 1)).push(r@[i - 1]));
    }
    assert(rows@.take(i as int) =~= rows@);
    r
}

/// Tokens over all rows, or `None` when the total does not fit.
pub fn rows_total(rows: &Vec<(Entity, usize)>) -> (r: Option<usize>)
    ensures
        r is None <==> sum_values(rows@) > usize::MAX,
        r matches Some(n) ==> n == sum_values(rows@),
{
    let mut n: usize = 0;
    let mut i: usize = 0;
    while i < rows.len()
        invariant
            i <= rows@.len(),
            n == sum_values(rows@.take(i as int)),
        decreases rows@.len() - i,
    {
        assert(rows@.take(i + 1).drop_last() =~= rows@.take(i as int));
        assert(rows@.take(i + 1).last() == rows@[i as int]);
        if rows[i].1 > usize::MAX - n {
            proof {
                crate::assoc::lemma_sum_values_prefix(rows@, i + 1);
            }
            return None;
        }
        n = n + rows[i].1;
        i += 1;
    }
    assert(rows@.take(i as int) =~= rows@);
    Some(n)
}

/// The tokens each area loses when `points` are taken without asking, areas
/// in order.
pub open spec fn automatic_loss(rows: Seq<(Entity, usize)>, points: nat) -> Seq<(Entity, usize)> {
    paired(rows, removal_in_order(counts_of(rows), points))
}


/// A copy of the rows.
pub fn copy_rows(rows: &Vec<(Entity, usize)>) -> (r: Vec<(Entity, usize)>)
    ensures
        r@ == rows@,
{
    let mut r: Vec<(Entity, usize)> = Vec::new();
    let mut i: usize = 0;
    while i < rows.len()
        invariant
            i <= rows@.len(),
            r@ == rows@.take(i as int),
        decreases rows@.len() - i,
    {
        r.push(rows[i]);
        i += 1;
        assert(r@ =~= rows@.take(i as int));
    }
    assert(rows@.take(i as int) =~= rows@);
    r
}

} // verus!
