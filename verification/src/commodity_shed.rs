use vstd::prelude::*;
use crate::assoc::{
    assoc_get, has_key, keys_distinct, lemma_get_absent, lemma_get_index, lemma_get_push,
    lemma_get_remove, lemma_get_update, lemma_sum_values_prefix, lemma_sum_values_remove,
    lemma_sum_values_update, sum_values,
};
use crate::cards::{card_is_calamity, TradeCard};
use crate::entity::Entity;

verus! {

/// A commodity hand may hold at most this many cards once trading ends.
pub const COMMODITY_CARD_HAND_LIMIT: usize = 8;

/// How many commodity cards a hand of `total` must discard: those beyond
/// the limit, or `None` when the hand is within it.
pub fn cards_to_discard(total: usize) -> (r: Option<usize>)
    ensures
        total > COMMODITY_CARD_HAND_LIMIT ==> r == Some((total - COMMODITY_CARD_HAND_LIMIT) as usize),
        total <= COMMODITY_CARD_HAND_LIMIT ==> r is None,
{
    if total > COMMODITY_CARD_HAND_LIMIT {
        Some(total - COMMODITY_CARD_HAND_LIMIT)
    } else {
        None
    }
}

/// A player's hand exceeds the limit by `must_discard` cards.
#[derive(Debug)]
pub struct NeedsToShedCommodityCards {
    pub must_discard: usize,
}

/// Marks the human player while they choose which cards to discard.
#[derive(Debug, Default)]
pub struct AwaitingCommodityShedSelection;

/// Count held (or chosen) of `card` in a list of (card, count) pairs: the
/// first matching entry, else none.
pub open spec fn count_of(s: Seq<(TradeCard, usize)>, card: TradeCard) -> nat {
    match assoc_get(s, card) {
        Some(n) => n as nat,
        None => 0,
    }
}

/// A human player's choice of commodity cards to discard: the holdings
/// when the choice opened, and how many of each card are chosen (each card
/// listed once, with a positive count).
#[derive(Debug)]
pub struct CommodityShedSelectionState {
    pub player: Option<Entity>,
    pub must_discard: usize,
    pub holdings: Vec<(TradeCard, usize)>,
    pub selected: Vec<(TradeCard, usize)>,
}

impl Default for CommodityShedSelectionState {
    fn default() -> (s: Self)
        ensures
            s.is_cleared(),
            s.wf(),
    {
        CommodityShedSelectionState { player: None, must_discard: 0, holdings: Vec::new(), selected: Vec::new() }
    }
}

pub(crate) fn find_card(s: &Vec<(TradeCard, usize)>, card: TradeCard) -> (r: Option<usize>)
    ensures
        r is None ==> !has_key(s@, card),
        r matches Some(i) ==> i < s@.len() && s@[i as int].0 == card && forall|j: int|
            0 <= j < i ==> (#[trigger] s@[j]).0 != card,
{
    let mut i: usize = 0;
    while i < s.len()
        invariant
            i <= s@.len(),
            forall|j: int| 0 <= j < i ==> (#[trigger] s@[j]).0 != card,
        decreases s@.len() - i,
    {
        if s[i].0 == card {
            return Some(i);
        }
        i += 1;
    }
    None
}

/// The count of the first entry for `card`, or 0.
pub(crate) fn lookup_count(s: &Vec<(TradeCard, usize)>, card: TradeCard) -> (n: usize)
    ensures
        n == count_of(s@, card),
{
    let mut i: usize = 0;
    assert(s@.skip(0) =~= s@);
    while i < s.len()
        invariant
            i <= s@.len(),
            assoc_get(s@, card) == assoc_get(s@.skip(i as int), card),
        decreases s@.len() - i,
    {
        assert(s@.skip(i as int).drop_first() =~= s@.skip(i + 1));
        if s[i].0 == card {
            return s[i].1;
        }
        i += 1;
    }
    0
}

impl CommodityShedSelectionState {
    pub open spec fn is_cleared(self) -> bool {
        &&& self.player is None
        &&& self.must_discard == 0
        &&& self.holdings@.len() == 0
        &&& self.selected@.len() == 0
    }

    /// Each chosen card is listed once, with a positive count.
    pub open spec fn wf(self) -> bool {
        &&& keys_distinct(self.selected@)
        &&& forall|i: int| 0 <= i < self.selected@.len() ==> (#[trigger] self.selected@[i]).1 > 0
    }

    /// Cards chosen in all.
    pub open spec fn chosen(self) -> nat {
        sum_values(self.selected@)
    }

    /// Opens `player`'s choice of `must_discard` cards among `holdings`.
    pub fn populate(&mut self, player: Entity, must_discard: usize, holdings: Vec<(TradeCard, usize)>)
        ensures
            final(self).player == Some(player),
            final(self).must_discard == must_discard,
            final(self).holdings@ == holdings@,
            final(self).selected@.len() == 0,
            final(self).wf(),
    {
        self.player = Some(player);
        self.must_discard = must_discard;
        self.holdings = holdings;
        self.selected.clear();
    }

    pub fn clear(&mut self)
        ensures
            final(self).is_cleared(),
            final(self).wf(),
    {
        *self = Self::default();
    }

    pub fn total_selected(&self) -> (n: usize)
        requires
            self.chosen() <= usize::MAX,
        ensures
            n == self.chosen(),
    {
        let mut n: usize = 0;
        let mut i: usize = 0;
        while i < self.selected.len()
            invariant
                i <= self.selected@.len(),
                self.chosen() <= usize::MAX,
                n == sum_values(self.selected@.take(i as int)),
            decreases self.selected@.len() - i,
        {
            proof {
                assert(self.selected@.take(i + 1).drop_last() =~= self.selected@.take(i as int));
                lemma_sum_values_prefix(self.selected@, i + 1);
            }
            n = n + self.selected[i].1;
            i += 1;
        }
        assert(self.selected@.take(i as int) =~= self.selected@);
        n
    }

    /// Exactly the required number of cards, at least one, is chosen.
    pub fn is_complete(&self) -> (b: bool)
        requires
            self.chosen() <= usize::MAX,
        ensures
            b == (self.must_discard > 0 && self.chosen() == self.must_discard),
    {
        self.must_discard > 0 && self.total_selected() == self.must_discard
    }

    /// Copies of `card` held when the choice opened.
    pub fn held(&self, card: TradeCard) -> (n: usize)
        ensures
            n == count_of(self.holdings@, card),
    {
        lookup_count(&self.holdings, card)
    }

    /// Copies of `card` chosen.
    pub fn selected_count(&self, card: TradeCard) -> (n: usize)
        ensures
            n == count_of(self.selected@, card),
    {
        lookup_count(&self.selected, card)
    }

    /// Chooses one more copy of `card`, if fewer than needed are chosen
    /// and an unchosen copy is held.
    pub fn increment(&mut self, card: TradeCard)
        requires
            old(self).wf(),
            old(self).chosen() <= usize::MAX,
        ensures
            final(self).wf(),
            final(self).player == old(self).player,
            final(self).must_discard == old(self).must_discard,
            final(self).holdings == old(self).holdings,
            ({
                let grows = old(self).chosen() < old(self).must_discard && count_of(old(self).selected@, card)
                    < count_of(old(self).holdings@, card);
                &&& !grows ==> final(self).selected@ == old(self).selected@
                &&& final(self).chosen() == old(self).chosen() + if grows { 1nat } else { 0nat }
                &&& forall|c: TradeCard|
                    #[trigger] count_of(final(self).selected@, c) == count_of(old(self).selected@, c)
                        + if grows && c == card { 1nat } else { 0nat }
            }),
    {
        if self.total_selected() >= self.must_discard {
            return;
        }
        if self.selected_count(card) >= self.held(card) {
            return;
        }
        let ghost s0 = self.selected@;
        match find_card(&self.selected, card) {
            Some(i) => {
                let (k, n) = self.selected[i];
                proof {
                    lemma_get_index(s0, i as int);
                }
                self.selected.set(i, (k, n + 1));
                proof {
                    lemma_sum_values_update(s0, i as int, (k, (n + 1) as usize));
                    assert forall|c: TradeCard|
                        #[trigger] count_of(self.selected@, c) == count_of(s0, c) + if c == card {
                            1nat
                        } else {
                            0nat
                        } by {
                        lemma_get_update(s0, i as int, (n + 1) as usize, c);
                    }
                    lemma_get_update(s0, i as int, (n + 1) as usize, card);
                    assert forall|j: int| 0 <= j < self.selected@.len() implies (
                    #[trigger] self.selected@[j]).1 > 0 by {
                        if j != i {
                            assert(self.selected@[j] == s0[j]);
                        }
                    }
                }
            },
            None => {
                self.selected.push((card, 1));
                proof {
                    lemma_get_absent(s0, card);
                    assert(self.selected@.drop_last() =~= s0);
                    assert forall|c: TradeCard|
                        #[trigger] count_of(self.selected@, c) == count_of(s0, c) + if c == card {
                            1nat
                        } else {
                            0nat
                        } by {
                        lemma_get_push(s0, card, 1, c);
                    }
                    lemma_get_push(s0, card, 1, card);
                    assert forall|j: int| 0 <= j < self.selected@.len() implies (
                    #[trigger] self.selected@[j]).1 > 0 by {
                        if j < s0.len() {
                            assert(self.selected@[j] == s0[j]);
                        }
                    }
                }
            },
        }
    }

    /// Unchooses one copy of `card`, if any is chosen.
    pub fn decrement(&mut self, card: TradeCard)
        requires
            old(self).wf(),
        ensures
            final(self).wf(),
            final(self).player == old(self).player,
            final(self).must_discard == old(self).must_discard,
            final(self).holdings == old(self).holdings,
            ({
                let shrinks = count_of(old(self).selected@, card) > 0;
                &&& !shrinks ==> final(self).selected@ == old(self).selected@
                &&& final(self).chosen() + if shrinks { 1nat } else { 0nat } == old(self).chosen()
                &&& forall|c: TradeCard|
                    #[trigger] count_of(final(self).selected@, c) + (if shrinks && c == card {
                        1nat
                    } else {
                        0nat
                    }) == count_of(old(self).selected@, c)
            }),
    {
        let ghost s0 = self.selected@;
        match find_card(&self.selected, card) {
            Some(i) => {
                let (k, n) = self.selected[i];
                proof {
                    lemma_get_index(s0, i as int);
                }
                if n > 1 {
                    self.selected.set(i, (k, n - 1));
                    proof {
                        lemma_sum_values_update(s0, i as int, (k, (n - 1) as usize));
                        assert forall|c: TradeCard|
                            #[trigger] count_of(self.selected@, c) + (if c == card {
                                1nat
                            } else {
                                0nat
                            }) == count_of(s0, c) by {
                            lemma_get_update(s0, i as int, (n - 1) as usize, c);
                        }
                        lemma_get_update(s0, i as int, (n - 1) as usize, card);
                        assert forall|j: int| 0 <= j < self.selected@.len() implies (
                        #[trigger] self.selected@[j]).1 > 0 by {
                            if j != i {
                                assert(self.selected@[j] == s0[j]);
                            }
                        }
                    }
                } else {
                    self.selected.remove(i);
                    proof {
                        lemma_sum_values_remove(s0, i as int);
                        assert forall|c: TradeCard|
                            #[trigger] count_of(self.selected@, c) + (if c == card {
                                1nat
                            } else {
                                0nat
                            }) == count_of(s0, c) by {
                            lemma_get_remove(s0, i as int, c);
                        }
                        lemma_get_remove(s0, i as int, card);
                        assert forall|j: int| 0 <= j < self.selected@.len() implies (
                        #[trigger] self.selected@[j]).1 > 0 by {
                            let sj = if j < i { j } else { j + 1 };
                            assert(self.selected@[j] == s0[sj]);
                        }
                    }
                }
            },
            None => {
                proof {
                    lemma_get_absent(s0, card);
                }
            },
        }
    }

    /// The chosen (card, count) pairs; the state is cleared.
    pub fn take_result(&mut self) -> (r: Vec<(TradeCard, usize)>)
        ensures
            r@ == old(self).selected@,
            final(self).is_cleared(),
    {
        let mut result: Vec<(TradeCard, usize)> = Vec::new();
        std::mem::swap(&mut result, &mut self.selected);
        self.clear();
        result
    }
}


/// Root of the commodity-shed panel.
#[derive(Debug, Default)]
pub struct CommodityShedUiRoot;

/// The panel's progress line.
#[derive(Debug, Default)]
pub struct CommodityShedProgressText;

/// The panel's confirm button.
#[derive(Debug)]
pub struct CommodityShedConfirmButton;

/// The discard count shown on a card's row.
#[derive(Debug)]
pub struct CommodityShedCountText(pub TradeCard);


/// The commodity entries of a hand, in order.
pub open spec fn commodities_of(s: Seq<(TradeCard, usize)>) -> Seq<(TradeCard, usize)>
    decreases s.len(),
{
    if s.len() == 0 {
        s
    } else if card_is_calamity(s.last().0) {
        commodities_of(s.drop_last())
    } else {
        commodities_of(s.drop_last()).push(s.last())
    }
}

pub fn commodity_holdings(hand: &Vec<(TradeCard, usize)>) -> (r: Vec<(TradeCard, usize)>)
    ensures
        r@ == commodities_of(hand@),
{
    let mut r: Vec<(TradeCard, usize)> = Vec::new();
    let mut i: usize = 0;
    while i < hand.len()
        invariant
            i <= hand@.len(),
            r@ == commodities_of(hand@.take(i as int)),
        decreases hand@.len() - i,
    {
        assert(hand@.take(i + 1).drop_last() =~= hand@.take(i as int));
        assert(hand@.take(i + 1).last() == hand@[i as int]);
        if hand[i].0.is_commodity() {
            r.push(hand[i]);
        }
        i += 1;
    }
    assert(hand@.take(i as int) =~= hand@);
    r
}

/// What one turn of a player's shedding does.
#[derive(Debug, Clone)]
pub enum ShedAction {
    /// Nothing changes; the player is still choosing or the choice is busy.
    Nothing,
    /// The human player is asked to choose which cards to discard.
    AwaitChoice,
    /// These cards (with counts) are discarded and the player is done.
    Discard { cards: Vec<(TradeCard, usize)> },
    /// A computer player discards the cards cheapest to give up.
    DiscardCheapest { count: usize },
}

/// One turn of `player`'s shedding of `must_discard` cards from `hand`: a
/// human is asked, then their confirmed choice is discarded; a computer
/// player sheds at once.
pub fn shed_step(
    player: Entity,
    must_discard: usize,
    hand: &Vec<(TradeCard, usize)>,
    is_human: bool,
    awaiting: bool,
    selection: &mut CommodityShedSelectionState,
) -> (a: ShedAction)
    ensures
        !is_human ==> a == (ShedAction::DiscardCheapest { count: must_discard }) && *final(selection) == *old(selection),
        is_human && awaiting ==> a is Nothing && *final(selection) == *old(selection),
        is_human && !awaiting && old(selection).player == Some(player) ==> {
            &&& final(selection).is_cleared()
            &&& a matches ShedAction::Discard { cards }
            &&& cards@ == old(selection).selected@
        },
        is_human && !awaiting && old(selection).player is None ==> {
            &&& a is AwaitChoice
            &&& final(selection).player == Some(player)
            &&& final(selection).must_discard == must_discard
            &&& final(selection).holdings@ == commodities_of(hand@)
            &&& final(selection).selected@.len() == 0
        },
        is_human && !awaiting && old(selection).player is Some && old(selection).player != Some(player) ==> a is Nothing
            && *final(selection) == *old(selection),
{
    if is_human {
        if awaiting {
            ShedAction::Nothing
        } else if selection.player == Some(player) {
            ShedAction::Discard { cards: selection.take_result() }
        } else if selection.player.is_none() {
            selection.populate(player, must_discard, commodity_holdings(hand));
            ShedAction::AwaitChoice
        } else {
            ShedAction::Nothing
        }
    } else {
        ShedAction::DiscardCheapest { count: must_discard }
    }
}

} // verus!
