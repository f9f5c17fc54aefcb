//! Which players hold a given civilization card.
use vstd::prelude::*;
use crate::cards::{CivCardName, PlayerCivilizationCards};
use crate::entity::Entity;

verus! {

/// The players, in order, whose cards include `card`.
pub open spec fn holders(players: Seq<(Entity, PlayerCivilizationCards)>, card: CivCardName) -> Seq<Entity>
    decreases players.len(),
{
    if players.len() == 0 {
        Seq::empty()
    } else {
        let rest = holders(players.drop_last(), card);
        if players.last().1.holds(card) {
            rest.push(players.last().0)
        } else {
            rest
        }
    }
}

/// Membership in [`holders`].
pub proof fn lemma_holders_contains(
    players: Seq<(Entity, PlayerCivilizationCards)>,
    card: CivCardName,
    x: Entity,
)
    ensures
        holders(players, card).contains(x) <==> exists|i: int|
            0 <= i < players.len() && (#[trigger] players[i]).0 == x && players[i].1.holds(card),
    decreases players.len(),
{
    if players.len() > 0 {
        let d = players.drop_last();
        lemma_holders_contains(d, card, x);
        let rest = holders(d, card);
        let h = holders(players, card);
        if h.contains(x) {
            let k = choose|k: int| 0 <= k < h.len() && h[k] == x;
            if players.last().1.holds(card) && k == rest.len() {
                assert(players[players.len() - 1] == players.last());
            } else {
                assert(rest[k] == x);
                let i = choose|i: int| 0 <= i < d.len() && (#[trigger] d[i]).0 == x && d[i].1.holds(card);
                assert(players[i] == d[i]);
            }
        }
        if exists|i: int| 0 <= i < players.len() && (#[trigger] players[i]).0 == x && players[i].1.holds(card) {
            let i = choose|i: int| 0 <= i < players.len() && (#[trigger] players[i]).0 == x && players[i].1.holds(card);
            if i == players.len() - 1 {
                assert(h[rest.len() as int] == x);
            } else {
                assert(d[i] == players[i]);
                assert(rest.contains(x));
                let k = choose|k: int| 0 <= k < rest.len() && rest[k] == x;
                assert(h[k] == x);
            }
        }
    }
}

/// The players, in order, whose cards include `card`.
pub fn holders_of(players: &Vec<(Entity, PlayerCivilizationCards)>, card: CivCardName) -> (r: Vec<Entity>)
    ensures
        r@ == holders(players@, card),
{
    let mut r: Vec<Entity> = Vec::new();
    let mut i: usize = 0;
    while i < players.len()
        invariant
            i <= players@.len(),
            r@ == holders(players@.take(i as int), card),
        decreases players@.len() - i,
    {
        assert(players@.take(i + 1).drop_last() =~= players@.take(i as int));
        assert(players@.take(i + 1).last() == players@[i as int]);
        if players[i].1.owns(&card) {
            r.push(players[i].0);
        }
        i += 1;
    }
    assert(players@.take(i as int) =~= players@);
    r
}

} // verus!
