//! Which calamities a player resolves, and in which order all of them are
//! resolved (rules 29.5 and 30.1).
use vstd::prelude::*;
use rand::seq::SliceRandom;
use crate::cards::{card_is_tradeable, card_value, TradeCard};
use crate::components::PendingCalamities;
use crate::entity::Entity;

verus! {

#[verifier::external_type_specification]
#[verifier::external_body]
pub struct ExThreadRng(rand::rngs::ThreadRng);

/// Calls `rand::rng`, which hands out the thread's generator, seeded from the
/// operating system. Nothing is promised of the generator's state. The source
/// panics when the operating system cannot seed the generator on its first
/// use in a thread; no argument decides that, so no `requires` can exclude it.
#[verifier::external_body]
fn thread_rng() -> (r: rand::rngs::ThreadRng) {
    rand::rng()
}

/// Calls `SliceRandom::shuffle` on the pending calamities. The source
/// permutes the slice in place by swaps only, so the entries stay the same
/// ones, as many of each; which order comes out depends on the generator and
/// is not stated.
#[verifier::external_body]
fn shuffle_calamities(cards: &mut Vec<(TradeCard, Option<Entity>)>, rng: &mut rand::rngs::ThreadRng)
    ensures
        final(cards)@.len() == old(cards)@.len(),
        final(cards)@.to_multiset() == old(cards)@.to_multiset(),
{
    cards.shuffle(rng);
}

/// A copy of a list of pending calamities.
fn copy_pending(cards: &Vec<(TradeCard, Option<Entity>)>) -> (r: Vec<(TradeCard, Option<Entity>)>)
    ensures
        r@ == cards@,
{
    let mut r: Vec<(TradeCard, Option<Entity>)> = Vec::new();
    let mut i: usize = 0;
    while i < cards.len()
        invariant
            i <= cards@.len(),
            r@ == cards@.take(i as int),
        decreases cards@.len() - i,
    {
        r.push(cards[i]);
        i += 1;
        assert(r@ =~= cards@.take(i as int));
    }
    assert(cards@.take(i as int) =~= cards@);
    r
}

/// Rule 29.5: a player who drew more than two calamities resolves only two
/// of them, chosen at random; otherwise every one of them is resolved. Each
/// keeps the player who traded it, if anyone (rule 29.61).
pub fn calamities_to_resolve(
    calamity_cards: &Vec<(TradeCard, Option<Entity>)>,
) -> (r: Vec<(TradeCard, Option<Entity>)>)
    ensures
        calamity_cards@.len() <= 2 ==> r@ == calamity_cards@,
        calamity_cards@.len() > 2 ==> r@.len() == 2 && r@.to_multiset().subset_of(calamity_cards@.to_multiset()),
{
    if calamity_cards.len() <= 2 {
        return copy_pending(calamity_cards);
    }
    let mut rng = thread_rng();
    let mut shuffled = copy_pending(calamity_cards);
    shuffle_calamities(&mut shuffled, &mut rng);
    let r = first_entries(&shuffled, 2);
    proof {
        broadcast use vstd::seq_lib::lemma_multiset_commutative;
        broadcast use vstd::multiset::group_multiset_axioms;
        let s = shuffled@;
        assert(s =~= s.take(2) + s.skip(2));
        assert(s.to_multiset() =~= s.take(2).to_multiset().add(s.skip(2).to_multiset()));
    }
    r
}

/// The first `count` entries, or all of them when there are fewer.
pub fn first_entries(cards: &Vec<(TradeCard, Option<Entity>)>, count: usize) -> (r: Vec<(TradeCard, Option<Entity>)>)
    ensures
        r@ == cards@.take(if count < cards@.len() { count as int } else { cards@.len() as int }),
{
    let n: usize = if count < cards.len() { count } else { cards.len() };
    let mut r: Vec<(TradeCard, Option<Entity>)> = Vec::new();
    let mut i: usize = 0;
    while i < n
        invariant
            n <= cards@.len(),
            i <= n,
            r@ == cards@.take(i as int),
        decreases n - i,
    {
        r.push(cards[i]);
        i += 1;
        assert(r@ =~= cards@.take(i as int));
    }
    r
}

/// The order in which calamities are resolved (rule 30.1): lowest value
/// first, and at equal value the non-tradeable one first.
pub open spec fn resolution_rank(card: TradeCard) -> nat {
    2 * card_value(card) + if card_is_tradeable(card) { 1nat } else { 0nat }
}

/// Rank of a card as an executable value.
pub fn rank_of(card: TradeCard) -> (r: usize)
    ensures
        r == resolution_rank(card),
{
    2 * card.value() + if card.is_tradeable() { 1 } else { 0 }
}

/// The calamity to resolve next among all players' pending ones: the first
/// (in the order given) of those of least rank, or none when nothing is
/// pending.
pub fn next_calamity_index(all: &Vec<(Entity, TradeCard, Option<Entity>)>) -> (r: Option<usize>)
    ensures
        r is None <==> all@.len() == 0,
        r matches Some(i) ==> {
            &&& i < all@.len()
            &&& forall|j: int| 0 <= j < all@.len() ==> resolution_rank(all@[i as int].1)
                <= resolution_rank(#[trigger] all@[j].1)
            &&& forall|j: int| 0 <= j < i ==> resolution_rank(all@[i as int].1)
                < resolution_rank(#[trigger] all@[j].1)
        },
{
    if all.len() == 0 {
        return None;
    }
    let mut best: usize = 0;
    let mut best_rank: usize = rank_of(all[0].1);
    let mut k: usize = 1;
    while k < all.len()
        invariant
            1 <= k <= all@.len(),
            best < k,
            best_rank == resolution_rank(all@[best as int].1),
            forall|j: int| 0 <= j < k ==> best_rank <= resolution_rank(#[trigger] all@[j].1),
            forall|j: int| 0 <= j < best ==> best_rank < resolution_rank(#[trigger] all@[j].1),
        decreases all@.len() - k,
    {
        let rk = rank_of(all[k].1);
        if rk < best_rank {
            best = k;
            best_rank = rk;
        }
        k += 1;
    }
    Some(best)
}

/// The pending calamities without every entry of the given card.
pub open spec fn without_card(
    s: Seq<(TradeCard, Option<Entity>)>,
    card: TradeCard,
) -> Seq<(TradeCard, Option<Entity>)>
    decreases s.len(),
{
    if s.len() == 0 {
        s
    } else if s.last().0 == card {
        without_card(s.drop_last(), card)
    } else {
        without_card(s.drop_last(), card).push(s.last())
    }
}

impl PendingCalamities {
    /// Drops the calamity being resolved: every pending entry of that card.
    pub fn remove_calamity(&mut self, card: TradeCard)
        ensures
            final(self).calamities@ == without_card(old(self).calamities@, card),
    {
        let mut kept: Vec<(TradeCard, Option<Entity>)> = Vec::new();
        let mut i: usize = 0;
        while i < self.calamities.len()
            invariant
                i <= self.calamities@.len(),
                self.calamities@ == old(self).calamities@,
                kept@ == without_card(self.calamities@.take(i as int), card),
            decreases self.calamities@.len() - i,
        {
            assert(self.calamities@.take(i + 1).drop_last() =~= self.calamities@.take(i as int));
            let entry = self.calamities[i];
            if entry.0 != card {
                kept.push(entry);
            }
            i += 1;
        }
        assert(self.calamities@.take(i as int) =~= self.calamities@);
        self.calamities = kept;
    }
}

} // verus!
