//! The start of the Resolve Calamities phase and the dispatch of each
//! calamity in turn (rules 29.5, 29.61 and 30.1).
use vstd::prelude::*;
use crate::assoc::{assoc_get, has_key};
use crate::calamities::ResolvingCalamity;
use crate::cards::{card_is_calamity, CivCardName, PlayerCivilizationCards, TradeCard};
use crate::commodity_shed::{count_of, find_card, lookup_count};
use crate::components::PendingCalamities;
use crate::entity::Entity;
use crate::resolution::dispatch::{initial_resolution, starts_as};
use crate::resolution::order::{calamities_to_resolve, next_calamity_index, resolution_rank, without_card};
use crate::resolution::players::{holders, holders_of};

verus! {

/// The cards of a list of (card, trader) pairs.
pub open spec fn cards_of(s: Seq<(TradeCard, Option<Entity>)>) -> Seq<TradeCard> {
    s.map_values(|p: (TradeCard, Option<Entity>)| p.0)
}

/// The calamities in a hand of (card, count) entries: each calamity once,
/// in the order of its first entry with a positive count, with the player
/// who traded it (its first entry in `traders`), if anyone.
pub open spec fn held_calamities(
    hand: Seq<(TradeCard, usize)>,
    traders: Seq<(TradeCard, Entity)>,
) -> Seq<(TradeCard, Option<Entity>)>
    decreases hand.len(),
{
    if hand.len() == 0 {
        Seq::empty()
    } else {
        let rest = held_calamities(hand.drop_last(), traders);
        let e = hand.last();
        if card_is_calamity(e.0) && e.1 > 0 && !cards_of(rest).contains(e.0) {
            rest.push((e.0, assoc_get(traders, e.0)))
        } else {
            rest
        }
    }
}

/// The hand once every calamity not in `kept` goes back to the trade
/// stacks: the entries of those calamities leave the hand.
pub open spec fn returned_to_stacks(hand: Seq<(TradeCard, usize)>, kept: Seq<TradeCard>) -> Seq<(TradeCard, usize)>
    decreases hand.len(),
{
    if hand.len() == 0 {
        hand
    } else {
        let rest = returned_to_stacks(hand.drop_last(), kept);
        let e = hand.last();
        if !card_is_calamity(e.0) || kept.contains(e.0) {
            rest.push(e)
        } else {
            rest
        }
    }
}

/// Whether `card` is among the cards of `s`.
fn has_card(s: &Vec<(TradeCard, Option<Entity>)>, card: TradeCard) -> (b: bool)
    ensures
        b == cards_of(s@).contains(card),
{
    let mut i: usize = 0;
    while i < s.len()
        invariant
            i <= s@.len(),
            forall|j: int| 0 <= j < i ==> (#[trigger] s@[j]).0 != card,
        decreases s@.len() - i,
    {
        if s[i].0 == card {
            assert(cards_of(s@)[i as int] == card);
            return true;
        }
        i += 1;
    }
    proof {
        if cards_of(s@).contains(card) {
            let j = choose|j: int| 0 <= j < cards_of(s@).len() && cards_of(s@)[j] == card;
            assert(s@[j].0 == card);
        }
    }
    false
}

/// Who traded `card`: its first entry in `traders`, if any.
fn trader_of(traders: &Vec<(TradeCard, Entity)>, card: TradeCard) -> (r: Option<Entity>)
    ensures
        r == assoc_get(traders@, card),
{
    let mut i: usize = 0;
    assert(traders@.skip(0) =~= traders@);
    while i < traders.len()
        invariant
            i <= traders@.len(),
            assoc_get(traders@, card) == assoc_get(traders@.skip(i as int), card),
        decreases traders@.len() - i,
    {
        assert(traders@.skip(i as int).drop_first() =~= traders@.skip(i + 1));
        if traders[i].0 == card {
            return Some(traders[i].1);
        }
        i += 1;
    }
    None
}

/// The calamities held, as [`held_calamities`] lists them.
fn held_calamity_list(hand: &Vec<(TradeCard, usize)>, traders: &Vec<(TradeCard, Entity)>) -> (r: Vec<(TradeCard, Option<Entity>)>)
    ensures
        r@ == held_calamities(hand@, traders@),
{
    let mut r: Vec<(TradeCard, Option<Entity>)> = Vec::new();
    let mut i: usize = 0;
    while i < hand.len()
        invariant
            i <= hand@.len(),
            r@ == held_calamities(hand@.take(i as int), traders@),
        decreases hand@.len() - i,
    {
        assert(hand@.take(i + 1).drop_last() =~= hand@.take(i as int));
        assert(hand@.take(i + 1).last() == hand@[i as int]);
        let (card, count) = hand[i];
        if card.is_calamity() && count > 0 && !has_card(&r, card) {
            let t = trader_of(traders, card);
            r.push((card, t));
        }
        i += 1;
    }
    assert(hand@.take(i as int) =~= hand@);
    r
}

/// The hand without the calamities that are not kept.
fn keep_calamities(hand: &Vec<(TradeCard, usize)>, kept: &Vec<(TradeCard, Option<Entity>)>) -> (r: Vec<(TradeCard, usize)>)
    ensures
        r@ == returned_to_stacks(hand@, cards_of(kept@)),
{
    let mut r: Vec<(TradeCard, usize)> = Vec::new();
    let mut i: usize = 0;
    while i < hand.len()
        invariant
            i <= hand@.len(),
            r@ == returned_to_stacks(hand@.take(i as int), cards_of(kept@)),
        decreases hand@.len() - i,
    {
        assert(hand@.take(i + 1).drop_last() =~= hand@.take(i as int));
        assert(hand@.take(i + 1).last() == hand@[i as int]);
        let e = hand[i];
        if !e.0.is_calamity() || has_card(kept, e.0) {
            r.push(e);
        }
        i += 1;
    }
    assert(hand@.take(i as int) =~= hand@);
    r
}

/// Rules 29.5 and 29.61, for one player at the start of the phase: the
/// calamities in `hand` (with who traded each, from `traders`) become the
/// player's pending calamities, at most two of them, and every other
/// calamity goes back to the trade stacks. A player holding no calamity
/// gets nothing, and their hand stays as it is.
pub fn start_player_calamities(
    hand: &mut Vec<(TradeCard, usize)>,
    traders: &Vec<(TradeCard, Entity)>,
) -> (r: Option<PendingCalamities>)
    ensures
        ({
            let list = held_calamities(old(hand)@, traders@);
            &&& r is None <==> list.len() == 0
            &&& r is None ==> final(hand)@ == old(hand)@
            &&& r matches Some(p) ==> {
                &&& list.len() <= 2 ==> p.calamities@ == list
                &&& list.len() > 2 ==> p.calamities@.len() == 2 && p.calamities@.to_multiset().subset_of(
                    list.to_multiset(),
                )
                &&& final(hand)@ == returned_to_stacks(old(hand)@, cards_of(p.calamities@))
            }
        }),
{
    let list = held_calamity_list(hand, traders);
    if list.len() == 0 {
        return None;
    }
    let kept = calamities_to_resolve(&list);
    let new_hand = keep_calamities(hand, &kept);
    *hand = new_hand;
    Some(PendingCalamities::new(kept))
}

/// The hand once one copy of `card` is taken out of it: the first entry
/// for `card` loses one, if it has any.
pub open spec fn discard_one(hand: Seq<(TradeCard, usize)>, card: TradeCard) -> Seq<(TradeCard, usize)>
    decreases hand.len(),
{
    if hand.len() == 0 {
        hand
    } else if hand[0].0 == card {
        if hand[0].1 > 0 {
            seq![(card, (hand[0].1 - 1) as usize)] + hand.drop_first()
        } else {
            hand
        }
    } else {
        seq![hand[0]] + discard_one(hand.drop_first(), card)
    }
}

proof fn lemma_discard_absent(s: Seq<(TradeCard, usize)>, card: TradeCard)
    requires
        !has_key(s, card),
    ensures
        discard_one(s, card) == s,
    decreases s.len(),
{
    if s.len() > 0 {
        assert(s[0].0 != card);
        assert(!has_key(s.drop_first(), card)) by {
            if has_key(s.drop_first(), card) {
                let j = choose|j: int| 0 <= j < s.drop_first().len() && s.drop_first()[j].0 == card;
                assert(s[j + 1].0 == card);
            }
        }
        lemma_discard_absent(s.drop_first(), card);
        assert(seq![s[0]] + s.drop_first() =~= s);
    }
}

proof fn lemma_discard_first(s: Seq<(TradeCard, usize)>, card: TradeCard, i: int)
    requires
        0 <= i < s.len(),
        s[i].0 == card,
        forall|j: int| 0 <= j < i ==> (#[trigger] s[j]).0 != card,
    ensures
        discard_one(s, card) == if s[i].1 > 0 {
            s.update(i, (card, (s[i].1 - 1) as usize))
        } else {
            s
        },
    decreases s.len(),
{
    if i == 0 {
        assert(seq![(card, (s[0].1 - 1) as usize)] + s.drop_first() =~= s.update(0, (card, (s[0].1 - 1) as usize)));
    } else {
        assert(s[0].0 != card);
        let t = s.drop_first();
        assert forall|j: int| 0 <= j < i - 1 implies (#[trigger] t[j]).0 != card by {
            assert(t[j] == s[j + 1]);
        }
        lemma_discard_first(t, card, i - 1);
        if s[i].1 > 0 {
            assert(seq![s[0]] + t.update(i - 1, (card, (s[i].1 - 1) as usize)) =~= s.update(
                i,
                (card, (s[i].1 - 1) as usize),
            ));
        } else {
            assert(seq![s[0]] + t =~= s);
        }
    }
}

/// Takes one copy of `card` out of the hand.
fn discard_one_card(hand: &mut Vec<(TradeCard, usize)>, card: TradeCard)
    ensures
        final(hand)@ == discard_one(old(hand)@, card),
{
    match find_card(hand, card) {
        None => {
            proof {
                lemma_discard_absent(hand@, card);
            }
        },
        Some(i) => {
            proof {
                lemma_discard_first(hand@, card, i as int);
            }
            let n = hand[i].1;
            if n > 0 {
                hand.set(i, (card, n - 1));
            }
        },
    }
}

/// A player with calamities pending: their pending list, their trade cards
/// as (card, count) entries, and their civilization cards.
#[derive(Debug)]
pub struct PlayerPending {
    pub player: Entity,
    pub pending: PendingCalamities,
    pub hand: Vec<(TradeCard, usize)>,
    pub civ_cards: PlayerCivilizationCards,
}

/// A player's pending calamities as (player, calamity, trader) entries.
pub open spec fn entries_of(p: PlayerPending) -> Seq<(Entity, TradeCard, Option<Entity>)> {
    p.pending.calamities@.map_values(|c: (TradeCard, Option<Entity>)| (p.player, c.0, c.1))
}

/// Every pending calamity of every player, player by player.
pub open spec fn all_pending(players: Seq<PlayerPending>) -> Seq<(Entity, TradeCard, Option<Entity>)>
    decreases players.len(),
{
    if players.len() == 0 {
        Seq::empty()
    } else {
        all_pending(players.drop_last()) + entries_of(players.last())
    }
}

/// For each entry of [`all_pending`], the position of its player.
pub open spec fn owner_rows(players: Seq<PlayerPending>) -> Seq<int>
    decreases players.len(),
{
    if players.len() == 0 {
        Seq::empty()
    } else {
        owner_rows(players.drop_last()) + Seq::new(
            players.last().pending.calamities@.len(),
            |j: int| players.len() - 1,
        )
    }
}

proof fn lemma_owner_rows(players: Seq<PlayerPending>)
    ensures
        owner_rows(players).len() == all_pending(players).len(),
        forall|i: int|
            0 <= i < owner_rows(players).len() ==> 0 <= #[trigger] owner_rows(players)[i] < players.len()
                && all_pending(players)[i].0 == players[owner_rows(players)[i]].player,
    decreases players.len(),
{
    if players.len() > 0 {
        let d = players.drop_last();
        lemma_owner_rows(d);
        let n = owner_rows(d).len();
        assert forall|i: int| 0 <= i < owner_rows(players).len() implies 0 <= #[trigger] owner_rows(players)[i]
            < players.len() && all_pending(players)[i].0 == players[owner_rows(players)[i]].player by {
            if i < n {
                assert(owner_rows(players)[i] == owner_rows(d)[i]);
                assert(all_pending(players)[i] == all_pending(d)[i]);
                assert(players[owner_rows(d)[i]] == d[owner_rows(d)[i]]);
            } else {
                assert(owner_rows(players)[i] == players.len() - 1);
                assert(all_pending(players)[i] == entries_of(players.last())[i - n]);
            }
        }
    }
}

/// Entry `i` of `all` is the one resolved next (rule 30.1): none has a
/// lower rank, and every entry before it has a higher one.
pub open spec fn resolved_next(all: Seq<(Entity, TradeCard, Option<Entity>)>, i: int) -> bool {
    &&& 0 <= i < all.len()
    &&& forall|j: int| 0 <= j < all.len() ==> resolution_rank(all[i].1) <= resolution_rank(#[trigger] all[j].1)
    &&& forall|j: int| 0 <= j < i ==> resolution_rank(all[i].1) < resolution_rank(#[trigger] all[j].1)
}

/// What one turn of the phase does.
#[derive(Debug)]
pub enum PendingStep {
    /// A calamity is being resolved: nothing changes.
    Busy,
    /// Nothing is pending: the phase is over. The Monotheism holders listed
    /// convert enemy units first (rule 32.94); when there are none, the game
    /// moves on.
    PhaseOver { monotheism_holders: Vec<Entity> },
    /// `calamity`, traded by `traded_by`, starts for `player` in the state
    /// `resolution` (none for Volcano/Earthquake, whose targets come from the
    /// map).
    Dispatch { player: Entity, calamity: TradeCard, traded_by: Option<Entity>, resolution: Option<ResolvingCalamity> },
}

/// Entry `i` of the pending calamities of `old` was dispatched as `r`,
/// leaving `new`: the player's pending list loses that calamity and their
/// hand one copy of it, and nothing else changes.
pub open spec fn dispatched(old: Seq<PlayerPending>, new: Seq<PlayerPending>, r: PendingStep, i: int) -> bool {
    let all = all_pending(old);
    let k = owner_rows(old)[i];
    let rec = old[k];
    &&& 0 <= k < old.len()
    &&& rec.player == all[i].0
    &&& new.len() == old.len()
    &&& forall|k2: int| 0 <= k2 < old.len() && k2 != k ==> #[trigger] new[k2] == old[k2]
    &&& new[k].player == rec.player
    &&& new[k].pending.calamities@ == without_card(rec.pending.calamities@, all[i].1)
    &&& new[k].hand@ == discard_one(rec.hand@, all[i].1)
    &&& new[k].civ_cards == rec.civ_cards
    &&& r matches PendingStep::Dispatch { player, calamity, traded_by, resolution }
    &&& player == all[i].0
    &&& calamity == all[i].1
    &&& traded_by == all[i].2
    &&& starts_as(calamity, rec.civ_cards, traded_by, count_of(new[k].hand@, TradeCard::Grain), resolution)
}

/// One turn of the Resolve Calamities phase (rule 30.1). While a calamity
/// is being resolved nothing happens. Otherwise, of every player's pending
/// calamities, the lowest in value (the non-tradeable first at equal value,
/// the first listed at equal rank) starts: it leaves its player's pending
/// list, one copy leaves their hand, and its starting state follows their
/// civilization cards and Grain. With nothing pending the phase ends, and
/// the Monotheism holders among `all_civ` are named.
pub fn process_pending_calamities(
    resolving: bool,
    players: &mut Vec<PlayerPending>,
    all_civ: &Vec<(Entity, PlayerCivilizationCards)>,
) -> (r: PendingStep)
    ensures
        resolving ==> r is Busy && final(players)@ == old(players)@,
        !resolving && all_pending(old(players)@).len() == 0 ==> {
            &&& final(players)@ == old(players)@
            &&& r matches PendingStep::PhaseOver { monotheism_holders }
            &&& monotheism_holders@ == holders(all_civ@, CivCardName::Monotheism)
        },
        !resolving && all_pending(old(players)@).len() > 0 ==> exists|i: int|
            #[trigger] resolved_next(all_pending(old(players)@), i) && dispatched(old(players)@, final(players)@, r, i),
{
    if resolving {
        return PendingStep::Busy;
    }
    let ghost old_players = players@;
    let mut all: Vec<(Entity, TradeCard, Option<Entity>)> = Vec::new();
    let mut owners: Vec<usize> = Vec::new();
    let mut k: usize = 0;
    while k < players.len()
        invariant
            players@ == old_players,
            k <= players@.len(),
            all@ == all_pending(players@.take(k as int)),
            owners@.len() == owner_rows(players@.take(k as int)).len(),
            forall|j: int| 0 <= j < owners@.len() ==> owners@[j] as int == #[trigger] owner_rows(players@.take(k as int))[j],
        decreases players@.len() - k,
    {
        let ghost t = players@.take(k + 1);
        assert(t.drop_last() =~= players@.take(k as int));
        assert(t.last() == players@[k as int]);
        let ghost all0 = all@;
        let ghost owners0 = owners@;
        let player = players[k].player;
        let n = players[k].pending.calamities.len();
        let mut c: usize = 0;
        while c < n
            invariant
                players@ == old_players,
                k < players@.len(),
                n == players@[k as int].pending.calamities@.len(),
                player == players@[k as int].player,
                c <= n,
                all@ == all0 + entries_of(players@[k as int]).take(c as int),
                owners@.len() == owners0.len() + c,
                forall|j: int| 0 <= j < owners0.len() ==> owners@[j] == owners0[j],
                forall|j: int| owners0.len() <= j < owners@.len() ==> owners@[j] == k,
            decreases n - c,
        {
            let (card, traded_by) = players[k].pending.calamities[c];
            all.push((player, card, traded_by));
            owners.push(k);
            c += 1;
            assert(all@ =~= all0 + entries_of(players@[k as int]).take(c as int));
        }
        assert(entries_of(players@[k as int]).take(c as int) =~= entries_of(players@[k as int]));
        k += 1;
        assert forall|j: int| 0 <= j < owners@.len() implies owners@[j] as int == #[trigger] owner_rows(
            players@.take(k as int),
        )[j] by {
            if j >= owners0.len() {
                assert(owner_rows(t)[j] == k - 1);
            }
        }
    }
    assert(players@.take(k as int) =~= players@);
    if all.len() == 0 {
        let holders = holders_of(all_civ, CivCardName::Monotheism);
        return PendingStep::PhaseOver { monotheism_holders: holders };
    }
    proof {
        lemma_owner_rows(old_players);
    }
    let idx = match next_calamity_index(&all) {
        Some(i) => i,
        None => {
            proof {
                assert(false);
            }
            0
        },
    };
    let owner = owners[idx];
    proof {
        assert(owner_rows(players@.take(k as int)) == owner_rows(old_players));
        assert(all_pending(players@.take(k as int)) == all_pending(old_players));
        assert(owner as int == owner_rows(players@.take(k as int))[idx as int]);
        assert(owner < players@.len());
    }
    let (player, calamity, traded_by) = all[idx];
    let mut rec = players.remove(owner);
    rec.pending.remove_calamity(calamity);
    discard_one_card(&mut rec.hand, calamity);
    let grain = lookup_count(&rec.hand, TradeCard::Grain);
    let resolution = initial_resolution(calamity, &rec.civ_cards, traded_by, grain);
    players.insert(owner, rec);
    let r = PendingStep::Dispatch { player, calamity, traded_by, resolution };
    proof {
        assert(players@ =~= old_players.update(owner as int, rec));
        assert(resolved_next(all_pending(old_players), idx as int));
        assert(dispatched(old_players, players@, r, idx as int));
    }
    r
}

} // verus!
