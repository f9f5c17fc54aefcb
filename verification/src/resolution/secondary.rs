//! Who shares a secondary loss, and whether the primary victim is asked how
//! to divide it (rules 30.311, 30.512, 30.611).
use vstd::prelude::*;
use crate::calamities::secondary_loss::{combined_fits, sum_points};
use crate::entity::Entity;
use crate::assoc::sum_values;
use crate::resolution::unit_loss::{rows_total, PlayerUnits};

verus! {

/// What happens to a secondary loss this turn of the phase.
#[derive(Debug, Clone, Copy, PartialEq, Eq, Structural)]
pub enum ChoiceStep {
    /// Divide it without asking anyone.
    Automatic,
    /// Ask the human primary victim, and wait for the answer.
    StartChoice,
    /// An answer is still awaited, or the selection is busy with another
    /// player: do nothing now.
    Wait,
    /// The human primary victim has answered: divide as they chose.
    UseChoice,
}

/// The primary victim is only asked when the secondary victims could
/// together lose more than the loss; an AI is never asked. A human is asked
/// when the selection is free, and their answer is used once they have
/// confirmed it.
pub open spec fn choice_step(
    needs_choice: bool,
    is_human: bool,
    acting_player: Option<Entity>,
    awaiting: bool,
    me: Entity,
) -> ChoiceStep {
    if !needs_choice || !is_human {
        ChoiceStep::Automatic
    } else if acting_player is None {
        ChoiceStep::StartChoice
    } else if awaiting {
        ChoiceStep::Wait
    } else if acting_player == Some(me) {
        ChoiceStep::UseChoice
    } else {
        ChoiceStep::Wait
    }
}

pub fn next_choice_step(
    needs_choice: bool,
    is_human: bool,
    acting_player: Option<Entity>,
    awaiting: bool,
    me: Entity,
) -> (r: ChoiceStep)
    ensures
        r == choice_step(needs_choice, is_human, acting_player, awaiting, me),
{
    if !needs_choice || !is_human {
        ChoiceStep::Automatic
    } else {
        match acting_player {
            None => ChoiceStep::StartChoice,
            Some(a) => {
                if awaiting {
                    ChoiceStep::Wait
                } else if a == me {
                    ChoiceStep::UseChoice
                } else {
                    ChoiceStep::Wait
                }
            },
        }
    }
}

/// The secondary victims could together lose more than `total`.
pub fn needs_choice(players: &Vec<(Entity, usize)>, total: usize) -> (b: bool)
    ensures
        b == (sum_points(players@) > total),
{
    !combined_fits(players.as_slice(), total)
}

/// The entries of a population other than player `p`'s, in order.
pub open spec fn others_of(s: Seq<(Entity, usize)>, p: Entity) -> Seq<(Entity, usize)>
    decreases s.len(),
{
    if s.len() == 0 {
        s
    } else if s.last().0 == p {
        others_of(s.drop_last(), p)
    } else {
        others_of(s.drop_last(), p).push(s.last())
    }
}

/// The entries of a population other than player `p`'s, in order.
pub fn others_than(s: &Vec<(Entity, usize)>, p: Entity) -> (r: Vec<(Entity, usize)>)
    ensures
        r@ == others_of(s@, p),
{
    let mut r: Vec<(Entity, usize)> = Vec::new();
    let mut i: usize = 0;
    while i < s.len()
        invariant
            i <= s@.len(),
            r@ == others_of(s@.take(i as int), p),
        decreases s@.len() - i,
    {
        assert(s@.take(i + 1).drop_last() =~= s@.take(i as int));
        assert(s@.take(i + 1).last() == s@[i as int]);
        if s[i].0 != p {
            r.push(s[i]);
        }
        i += 1;
    }
    assert(s@.take(i as int) =~= s@);
    r
}

/// Some of `areas` is among `primary`.
pub open spec fn shares_area(areas: Seq<Entity>, primary: Seq<Entity>) -> bool {
    exists|k: int| 0 <= k < areas.len() && primary.contains(#[trigger] areas[k])
}

pub fn shares_any_area(areas: &Vec<Entity>, primary: &Vec<Entity>) -> (b: bool)
    ensures
        b == shares_area(areas@, primary@),
{
    let mut k: usize = 0;
    while k < areas.len()
        invariant
            k <= areas@.len(),
            forall|j: int| 0 <= j < k ==> !primary@.contains(#[trigger] areas@[j]),
        decreases areas@.len() - k,
    {
        if crate::util::contains_entity(primary, areas[k]) {
            assert(primary@.contains(areas@[k as int]));
            return true;
        }
        k += 1;
    }
    false
}

/// The areas of a list of (area, count) rows.
pub open spec fn areas_of(rows: Seq<(Entity, usize)>) -> Seq<Entity> {
    rows.map_values(|r: (Entity, usize)| r.0)
}

pub fn row_areas(rows: &Vec<(Entity, usize)>) -> (r: Vec<Entity>)
    ensures
        r@ == areas_of(rows@),
{
    let mut r: Vec<Entity> = Vec::new();
    let mut i: usize = 0;
    while i < rows.len()
        invariant
            i <= rows@.len(),
            r@ == areas_of(rows@.take(i as int)),
        decreases rows@.len() - i,
    {
        r.push(rows[i].0);
        i += 1;
        assert(areas_of(rows@.take(i as int)) =~= areas_of(rows@.take(i - 1)).push(rows@[i - 1].0));
    }
    assert(rows@.take(i as int) =~= rows@);
    r
}

/// Every player's token total fits in a `usize`.
pub open spec fn totals_fit(players: Seq<PlayerUnits>) -> bool {
    forall|i: int| 0 <= i < players.len() ==> sum_values((#[trigger] players[i]).areas@) <= usize::MAX
}

/// Rule 30.311: Famine's secondary victims are the other players with units
/// in an area of the primary victim, each losing at most `cap` and at most
/// all their tokens.
pub open spec fn famine_secondaries(
    players: Seq<PlayerUnits>,
    victim: Entity,
    primary: Seq<Entity>,
    cap: nat,
) -> Seq<(Entity, usize)>
    decreases players.len(),
{
    if players.len() == 0 {
        Seq::empty()
    } else {
        let rest = famine_secondaries(players.drop_last(), victim, primary, cap);
        let q = players.last();
        let total = sum_values(q.areas@);
        if q.player != victim && shares_area(areas_of(q.areas@), primary) {
            rest.push((q.player, (if total <= cap { total } else { cap }) as usize))
        } else {
            rest
        }
    }
}

pub fn famine_secondary_victims(
    players: &Vec<PlayerUnits>,
    victim: Entity,
    primary_areas: &Vec<Entity>,
    max_per_player: i32,
) -> (r: Vec<(Entity, usize)>)
    requires
        totals_fit(players@),
    ensures
        r@ == famine_secondaries(
            players@,
            victim,
            primary_areas@,
            if max_per_player < 0 { 0 } else { max_per_player as nat },
        ),
{
    let cap: usize = if max_per_player < 0 { 0 } else { max_per_player as usize };
    let mut r: Vec<(Entity, usize)> = Vec::new();
    let mut i: usize = 0;
    while i < players.len()
        invariant
            i <= players@.len(),
            totals_fit(players@),
            cap == if max_per_player < 0 { 0 } else { max_per_player as nat },
            r@ == famine_secondaries(players@.take(i as int), victim, primary_areas@, cap as nat),
        decreases players@.len() - i,
    {
        assert(players@.take(i + 1).drop_last() =~= players@.take(i as int));
        assert(players@.take(i + 1).last() == players@[i as int]);
        let q = &players[i];
        if q.player != victim && shares_any_area(&row_areas(&q.areas), primary_areas) {
            assert(sum_values(players@[i as int].areas@) <= usize::MAX);
            let total: usize = match rows_total(&q.areas) {
                Some(n) => n,
                None => 0,
            };
            let amount: usize = if total <= cap { total } else { cap };
            r.push((q.player, amount));
        }
        i += 1;
    }
    assert(players@.take(i as int) =~= players@);
    r
}

/// Rule 30.611/30.613: Epidemic's secondary victims are the other players
/// with units in an area of the primary victim, except the one who traded
/// the card; each loses at most 10 points, 5 with Medicine.
pub open spec fn epidemic_secondaries(
    players: Seq<PlayerUnits>,
    victim: Entity,
    immune: Option<Entity>,
    primary: Seq<Entity>,
    medicine: Seq<Entity>,
) -> Seq<(Entity, usize)>
    decreases players.len(),
{
    if players.len() == 0 {
        Seq::empty()
    } else {
        let rest = epidemic_secondaries(players.drop_last(), victim, immune, primary, medicine);
        let q = players.last();
        if q.player != victim && Some(q.player) != immune && shares_area(areas_of(q.areas@), primary) {
            rest.push((q.player, if medicine.contains(q.player) { 5usize } else { 10usize }))
        } else {
            rest
        }
    }
}

pub fn epidemic_secondary_victims(
    players: &Vec<PlayerUnits>,
    victim: Entity,
    immune: Option<Entity>,
    primary_areas: &Vec<Entity>,
    medicine_holders: &Vec<Entity>,
) -> (r: Vec<(Entity, usize)>)
    ensures
        r@ == epidemic_secondaries(players@, victim, immune, primary_areas@, medicine_holders@),
{
    let mut r: Vec<(Entity, usize)> = Vec::new();
    let mut i: usize = 0;
    while i < players.len()
        invariant
            i <= players@.len(),
            r@ == epidemic_secondaries(players@.take(i as int), victim, immune, primary_areas@, medicine_holders@),
        decreases players@.len() - i,
    {
        assert(players@.take(i + 1).drop_last() =~= players@.take(i as int));
        assert(players@.take(i + 1).last() == players@[i as int]);
        let q = &players[i];
        if q.player != victim && Some(q.player) != immune && shares_any_area(&row_areas(&q.areas), primary_areas) {
            let cap: usize = if crate::util::contains_entity(medicine_holders, q.player) { 5 } else { 10 };
            r.push((q.player, cap));
        }
        i += 1;
    }
    assert(players@.take(i as int) =~= players@);
    r
}

} // verus!
