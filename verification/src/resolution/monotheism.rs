//! Monotheism's conversions at the end of the phase (rules 32.94, 32.952).
use vstd::prelude::*;
use crate::entity::Entity;
use crate::selection::monotheism::{conversions, MonotheismSelectionState};
use crate::util::contains_entity;

verus! {

/// The enemy units a Monotheism holder may convert, as (token, area) pairs:
/// of the units in areas bordering the holder's (given as (token, area,
/// owner) in the order met), those of other players not holding Theology,
/// at most two.
pub open spec fn convertible(units: Seq<(Entity, Entity, Entity)>, holder: Entity, theology: Seq<Entity>, room: nat) -> Seq<(Entity, Entity)>
    decreases units.len(),
{
    if units.len() == 0 || room == 0 {
        Seq::empty()
    } else {
        let u = units[0];
        if u.2 != holder && !theology.contains(u.2) {
            seq![(u.0, u.1)] + convertible(units.drop_first(), holder, theology, (room - 1) as nat)
        } else {
            convertible(units.drop_first(), holder, theology, room)
        }
    }
}

pub fn monotheism_candidates(
    units: &Vec<(Entity, Entity, Entity)>,
    holder: Entity,
    theology_holders: &Vec<Entity>,
) -> (r: Vec<(Entity, Entity)>)
    ensures
        r@ == convertible(units@, holder, theology_holders@, 2),
{
    let mut r: Vec<(Entity, Entity)> = Vec::new();
    let mut room: usize = 2;
    let mut i: usize = 0;
    assert(units@.skip(0) =~= units@);
    while i < units.len() && room > 0
        invariant
            i <= units@.len(),
            room <= 2,
            convertible(units@, holder, theology_holders@, 2) == r@ + convertible(units@.skip(i as int), holder, theology_holders@, room as nat),
        decreases units@.len() - i,
    {
        let ghost rest = units@.skip(i as int);
        assert(rest[0] == units@[i as int]);
        assert(rest.drop_first() =~= units@.skip(i + 1));
        let u = units[i];
        if u.2 != holder && !contains_entity(theology_holders, u.2) {
            r.push((u.0, u.1));
            room = room - 1;
            assert(convertible(units@, holder, theology_holders@, 2) =~= r@ + convertible(units@.skip(i + 1), holder, theology_holders@, room as nat));
        }
        i += 1;
    }
    if room == 0 {
        assert(convertible(units@.skip(i as int), holder, theology_holders@, 0) =~= Seq::<(Entity, Entity)>::empty());
    } else {
        assert(units@.skip(i as int) =~= Seq::<(Entity, Entity, Entity)>::empty());
    }
    assert(r@ + Seq::<(Entity, Entity)>::empty() =~= r@);
    r
}

/// What one turn of a Monotheism holder's conversion does.
#[derive(Debug, Clone)]
pub enum MonotheismAction {
    /// Nothing changes; the holder is still choosing or the choice is busy.
    Nothing,
    /// The human holder is asked to choose among the candidates.
    AwaitChoice,
    /// These enemy tokens return to their owners' stock, and the holder is done.
    Convert { tokens: Vec<Entity> },
}

/// The tokens of a list of (token, area) pairs.
pub open spec fn tokens_of_pairs(s: Seq<(Entity, Entity)>) -> Seq<Entity> {
    s.map_values(|p: (Entity, Entity)| p.0)
}

fn pair_tokens(s: &Vec<(Entity, Entity)>) -> (r: Vec<Entity>)
    ensures
        r@ == tokens_of_pairs(s@),
{
    let mut r: Vec<Entity> = Vec::new();
    let mut i: usize = 0;
    while i < s.len()
        invariant
            i <= s@.len(),
            r@ == tokens_of_pairs(s@.take(i as int)),
        decreases s@.len() - i,
    {
        r.push(s[i].0);
        i += 1;
        assert(tokens_of_pairs(s@.take(i as int)) =~= tokens_of_pairs(s@.take(i - 1)).push(s@[i - 1].0));
    }
    assert(s@.take(i as int) =~= s@);
    r
}

/// One turn of `holder`'s conversion: an AI converts the candidates at once;
/// a human is asked, then their confirmed choice is converted.
pub fn monotheism_step(
    holder: Entity,
    candidates: Vec<(Entity, Entity)>,
    is_human: bool,
    awaiting: bool,
    selection: &mut MonotheismSelectionState,
) -> (a: MonotheismAction)
    ensures
        !is_human ==> {
            &&& *final(selection) == *old(selection)
            &&& a matches MonotheismAction::Convert { tokens }
            &&& tokens@ == tokens_of_pairs(candidates@)
        },
        is_human && awaiting ==> a is Nothing && *final(selection) == *old(selection),
        is_human && !awaiting && old(selection).player == Some(holder) ==> {
            &&& final(selection).is_cleared()
            &&& a matches MonotheismAction::Convert { tokens }
            &&& tokens@ == tokens_of_pairs(conversions(old(selection).selected@, old(selection).candidates@))
        },
        is_human && !awaiting && old(selection).player is None ==> {
            &&& a is AwaitChoice
            &&& final(selection).player == Some(holder)
            &&& final(selection).candidates@ == candidates@
            &&& final(selection).selected@.len() == 0
            &&& final(selection).current_index == 0
        },
        is_human && !awaiting && old(selection).player is Some && old(selection).player != Some(holder) ==> a is Nothing
            && *final(selection) == *old(selection),
{
    if is_human {
        if awaiting {
            MonotheismAction::Nothing
        } else if selection.player == Some(holder) {
            let chosen = selection.take_result();
            MonotheismAction::Convert { tokens: pair_tokens(&chosen) }
        } else if selection.player.is_none() {
            selection.populate(holder, candidates);
            MonotheismAction::AwaitChoice
        } else {
            MonotheismAction::Nothing
        }
    } else {
        MonotheismAction::Convert { tokens: pair_tokens(&candidates) }
    }
}

} // verus!
